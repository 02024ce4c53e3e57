//! A reloadable log-emission pipeline.
//!
//! The crate models a logging setup whose whole set of output destinations,
//! verbosity filters and formats can be replaced while producers keep
//! emitting: a declarative configuration is normalized and validated, each
//! appender entry is resolved against the global defaults into an active
//! appender, and the resulting snapshot is installed in a dispatch stage
//! that serves every record against exactly one snapshot at a time.

pub mod config;
pub mod dispatch;
pub mod laws;
pub mod snapshot;
pub mod level;

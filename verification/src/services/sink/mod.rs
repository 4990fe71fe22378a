//! The sinks of the pipeline, and the operator that joins two of them.

pub mod influx;
pub mod line;
pub mod log;
pub mod tee;

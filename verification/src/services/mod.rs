//! Where events come from and where they go.

pub mod event_source;
pub mod sink;

//! The sink that accepts everything.

use crate::types::Event;
use crate::AppError;
use vstd::prelude::*;

verus! {

/// A sink that takes every event and keeps none. It never fails, which
/// makes it the neutral branch of a tee.
#[derive(Debug, Clone, Copy, Default)]
pub struct LogSink;

impl LogSink {
    /// Accepts the event.
    pub fn sink(&self, event: Event) -> (accepted: Result<(), AppError>)
        ensures
            accepted is Ok,
    {
        Ok(())
    }
}

} // verus!

//! The rule that a process runs one event loop.

use vstd::prelude::*;
use crate::compat::PlatformSpecificEventLoopAttributes;
use crate::error::EventLoopError;
use crate::runner::{Runner, RunnerModel};

verus! {

/// Remembers whether this process has created its event loop.
pub struct EventLoopRegistry {
    created: bool,
}

impl EventLoopRegistry {
    pub closed spec fn spec_created(&self) -> bool {
        self.created
    }

    /// A registry of a process that has created no event loop yet.
    pub fn new() -> (r: EventLoopRegistry)
        ensures
            !r.spec_created(),
    {
        EventLoopRegistry { created: false }
    }

    /// Whether an event loop was created.
    pub fn created(&self) -> (r: bool)
        ensures
            r == self.spec_created(),
    {
        self.created
    }

    /// Creates the runner of the process's event loop; a second attempt fails.
    pub fn create_event_loop(
        &mut self,
        attributes: &PlatformSpecificEventLoopAttributes,
    ) -> (r: Result<Runner, EventLoopError>)
        ensures
            final(self).spec_created(),
            r is Ok <==> !old(self).spec_created(),
            r matches Ok(runner) ==> runner@ == RunnerModel::initial() && runner@.inv(),
            r matches Err(e) ==> e == EventLoopError::RecreationAttempt,
    {
        if self.created {
            return Err(EventLoopError::RecreationAttempt);
        }
        self.created = true;
        Ok(Runner::new())
    }
}

} // verus!

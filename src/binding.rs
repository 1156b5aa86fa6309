use vstd::prelude::*;
use std::sync::Arc;
use crate::error::SpawnFailure;
use crate::slot::{Slot, active_of, installed};

verus! {

/// What a submitted unit of work carries with it: the capability that was
/// active when it was submitted. It is fixed for the task's whole lifetime;
/// later installs do not reach it.
pub struct Binding<C> {
    captured: Arc<C>,
}

impl<C> View for Binding<C> {
    type V = Arc<C>;

    closed spec fn view(&self) -> Arc<C> {
        self.captured
    }
}

/// A worker's slot after a task bound to `b` was resumed on it.
pub open spec fn resumed_on<C>(worker: Option<Arc<C>>, b: Arc<C>) -> Option<Arc<C>> {
    installed(worker, b)
}

impl<C> Binding<C> {
    /// Captures the active capability of `slot` for a new submission. Every
    /// entry point that submits work (fire-and-forget, with a handle, or
    /// blocking) goes through here, so all of them fail alike on an empty
    /// slot.
    pub fn capture(slot: &Slot<C>) -> (r: Result<Binding<C>, SpawnFailure>)
        ensures
            match r {
                Ok(b) => active_of(slot@) == Ok::<Arc<C>, SpawnFailure>(b@),
                Err(e) => active_of(slot@) == Err::<Arc<C>, SpawnFailure>(e),
            },
    {
        match slot.active() {
            Ok(c) => Ok(Binding { captured: c }),
            Err(e) => Err(e),
        }
    }

    /// The step taken before each resumption of the bound task: re-install
    /// the captured capability into the slot of the worker that resumes it.
    pub fn reinstall(&self, worker: &mut Slot<C>)
        ensures
            final(worker)@ == resumed_on(old(worker)@, self@),
    {
        worker.install(self.captured.clone());
    }

    /// A shared handle to the captured capability, to submit the task to.
    pub fn capability(&self) -> (r: Arc<C>)
        ensures
            r == self@,
    {
        self.captured.clone()
    }
}

} // verus!

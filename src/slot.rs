use vstd::prelude::*;
use std::sync::Arc;
use crate::error::{SpawnFailure, outcome_of};

verus! {

/// The registration slot: at most one active capability, shared through a
/// reference-counted handle. Installing replaces whatever was there.
pub struct Slot<C> {
    active: Option<Arc<C>>,
}

/// The slot after `c` was installed in it, whatever it held before.
pub open spec fn installed<C>(s: Option<Arc<C>>, c: Arc<C>) -> Option<Arc<C>> {
    Some(c)
}

/// The capability that new work is submitted to, or `NotConfigured` where
/// none was ever installed.
pub open spec fn active_of<C>(s: Option<Arc<C>>) -> Result<Arc<C>, SpawnFailure> {
    match s {
        Some(c) => Ok(c),
        None => Err(SpawnFailure::NotConfigured),
    }
}

/// The outcome of a status check: `NotConfigured` on an empty slot, else what
/// the installed capability reported.
pub open spec fn status_of<C>(s: Option<Arc<C>>, accepted: bool) -> Result<(), SpawnFailure> {
    match s {
        Some(_) => outcome_of(accepted),
        None => Err(SpawnFailure::NotConfigured),
    }
}

impl<C> View for Slot<C> {
    type V = Option<Arc<C>>;

    closed spec fn view(&self) -> Option<Arc<C>> {
        self.active
    }
}

impl<C> Slot<C> {
    /// An empty slot: nothing is installed yet.
    pub fn new() -> (r: Slot<C>)
        ensures
            r@ is None,
    {
        Slot { active: None }
    }

    /// Installs `c`, replacing (not merging with) the previous capability.
    pub fn install(&mut self, c: Arc<C>)
        ensures
            final(self)@ == installed(old(self)@, c),
    {
        self.active = Some(c);
    }

    pub fn is_configured(&self) -> (r: bool)
        ensures
            r == (self@ is Some),
    {
        self.active.is_some()
    }

    /// A shared handle to the active capability, or `NotConfigured`.
    pub fn active(&self) -> (r: Result<Arc<C>, SpawnFailure>)
        ensures
            r == active_of(self@),
    {
        match &self.active {
            Some(c) => Ok(c.clone()),
            None => Err(SpawnFailure::NotConfigured),
        }
    }

    /// The outcome of a status check on this slot; `reported` is what the
    /// active capability answered and is not consulted on an empty slot.
    /// The slot is only read.
    pub fn status(&self, reported: Result<(), futures_util::task::SpawnError>) -> (r: Result<
        (),
        SpawnFailure,
    >)
        ensures
            r == status_of(self@, reported is Ok),
    {
        if self.active.is_some() {
            crate::error::executor_outcome(reported)
        } else {
            Err(SpawnFailure::NotConfigured)
        }
    }
}

} // verus!

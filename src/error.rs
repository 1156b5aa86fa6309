use vstd::prelude::*;

verus! {

/// Declares the executor-side error of `futures`, which reports that an
/// executor refused new work.
#[verifier::external_type_specification]
#[verifier::external_body]
pub struct ExSpawnError(futures_util::task::SpawnError);

/// Why a unit of work could not be submitted, or why a status check failed.
#[derive(Clone, Copy, Debug, PartialEq, Eq, Structural)]
pub enum SpawnFailure {
    /// No capability was ever installed in the registration slot.
    NotConfigured,
    /// The installed executor refuses new work.
    ShuttingDown,
}

pub open spec fn message_of(f: SpawnFailure) -> Seq<char> {
    match f {
        SpawnFailure::NotConfigured => "global spawner not configured"@,
        SpawnFailure::ShuttingDown => "executor is shut down"@,
    }
}

impl SpawnFailure {
    /// A diagnostic that tells the two failures apart.
    pub fn message(&self) -> (r: &'static str)
        ensures
            r@ == message_of(*self),
    {
        match self {
            SpawnFailure::NotConfigured => "global spawner not configured",
            SpawnFailure::ShuttingDown => "executor is shut down",
        }
    }
}

/// What an executor's answer (to a submission or to a status query) means to
/// the caller: `Ok` stays `Ok`, and the executor's only error, a shutdown,
/// becomes `ShuttingDown`.
pub open spec fn outcome_of(accepted: bool) -> Result<(), SpawnFailure> {
    if accepted {
        Ok(())
    } else {
        Err(SpawnFailure::ShuttingDown)
    }
}

/// Maps what the executor answered to this library's error, unchanged in
/// meaning: no retry and no recovery happen here.
pub fn executor_outcome(reported: Result<(), futures_util::task::SpawnError>) -> (r: Result<
    (),
    SpawnFailure,
>)
    ensures
        r == outcome_of(reported is Ok),
{
    match reported {
        Ok(()) => Ok(()),
        Err(_) => Err(SpawnFailure::ShuttingDown),
    }
}

} // verus!

use vstd::prelude::*;
use std::sync::Arc;
use crate::error::SpawnFailure;
use crate::slot::{active_of, installed, status_of};
use crate::binding::resumed_on;

verus! {

/// Before anything is installed, every way of reaching the capability fails
/// with the same `NotConfigured` signal: submission (which all entry points
/// share) and status checks alike, whatever an executor would have reported.
pub proof fn lemma_unconfigured_fails<C>(accepted: bool)
    ensures
        active_of::<C>(None) == Err::<Arc<C>, SpawnFailure>(SpawnFailure::NotConfigured),
        status_of::<C>(None, accepted) == Err::<(), SpawnFailure>(SpawnFailure::NotConfigured),
{
}

/// Installing `a` and then `b` leaves `b` as the one capability that new
/// submissions reach; `a` is not reached any more.
pub proof fn lemma_install_replaces<C>(s: Option<Arc<C>>, a: Arc<C>, b: Arc<C>)
    ensures
        active_of(installed(installed(s, a), b)) == Ok::<Arc<C>, SpawnFailure>(b),
        a != b ==> active_of(installed(installed(s, a), b)) != Ok::<Arc<C>, SpawnFailure>(a),
{
}

/// A task bound to the capability that its parent's slot held at submission
/// finds that same capability when it spawns again, on every worker it is
/// resumed on, including workers whose own slot was empty or held another
/// capability.
pub proof fn lemma_nested_spawn_sees_parent<C>(
    parent: Option<Arc<C>>,
    b: Arc<C>,
    workers: Seq<Option<Arc<C>>>,
)
    requires
        active_of(parent) == Ok::<Arc<C>, SpawnFailure>(b),
    ensures
        forall|i: int|
            0 <= i < workers.len() ==> #[trigger] active_of(resumed_on(workers[i], b))
                == active_of(parent),
{
}

/// Status checks with no install between them agree with each other as long as
/// the executor answers alike; on an empty slot they agree whatever it answers.
pub proof fn lemma_status_repeatable<C>(s: Option<Arc<C>>, answers: Seq<bool>)
    ensures
        forall|i: int, j: int|
            0 <= i < answers.len() && 0 <= j < answers.len() && (s is None || answers[i]
                == answers[j]) ==> #[trigger] status_of(s, answers[i]) == #[trigger] status_of(
                s,
                answers[j],
            ),
{
}

} // verus!

//! Leadership: only the replica that holds the lease runs the reconciler.

use vstd::prelude::*;

verus! {

/// What a lease renewal calls for.
#[derive(Debug, Clone, Copy, PartialEq, Eq, Structural)]
pub enum LeaseAction {
    /// The lease was just acquired: the reconciler starts.
    StartReconciler,
    /// The lease was just lost: the reconciler stops.
    StopReconciler,
    /// Nothing changed.
    Keep,
}

/// The action after a renewal: a start when the lease was just acquired, a
/// stop when it was just lost.
pub open spec fn lease_action(was_leader: bool, acquired: bool) -> LeaseAction {
    if !was_leader && acquired {
        LeaseAction::StartReconciler
    } else if was_leader && !acquired {
        LeaseAction::StopReconciler
    } else {
        LeaseAction::Keep
    }
}

/// Decides what follows a renewal, from whether the replica led before and
/// whether it holds the lease now.
pub fn lease_transition(was_leader: bool, acquired: bool) -> (r: LeaseAction)
    ensures
        r == lease_action(was_leader, acquired),
{
    if !was_leader && acquired {
        LeaseAction::StartReconciler
    } else if was_leader && !acquired {
        LeaseAction::StopReconciler
    } else {
        LeaseAction::Keep
    }
}

/// Whether the reconciler runs after an action, given whether it ran before.
pub open spec fn runs_after(a: LeaseAction, ran: bool) -> bool {
    match a {
        LeaseAction::StartReconciler => true,
        LeaseAction::StopReconciler => false,
        LeaseAction::Keep => ran,
    }
}

/// When the reconciler ran exactly while the replica led, it still runs
/// exactly while the replica leads after every renewal.
pub proof fn lemma_runs_iff_leader(was_leader: bool, acquired: bool)
    ensures
        runs_after(lease_action(was_leader, acquired), was_leader) == acquired,
{
}

} // verus!

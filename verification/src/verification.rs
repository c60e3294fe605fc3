//! The verification workflow: a moderator session that repeatedly presents
//! the oldest pending submission, optionally scoped to one user, and applies
//! the moderator's confirm, refuse or stop decision.
//!
//! Each loop turn commits at most one status transition and the pending
//! record is always re-selected from the current record set, never cached,
//! so concurrent sessions are naturally reflected.

use vstd::prelude::*;

use crate::actions::ActionStatus;
use crate::actions::Model;

verus! {

/// Record `m` is awaiting verification and matches the optional user scope.
pub open spec fn spec_pending_match(m: Model, filter: Option<String>) -> bool {
    &&& m.action_status is Pending
    &&& match filter {
        Some(u) => m.user_id@ == u@,
        None => true,
    }
}

/// `r` names the first matching pending record of `records`, or nothing.
pub open spec fn spec_select_post(records: Seq<Model>, filter: Option<String>, r: Option<int>) -> bool {
    match r {
        Some(i) => {
            &&& 0 <= i < records.len()
            &&& spec_pending_match(records[i], filter)
            &&& forall|j: int| 0 <= j < i ==> !spec_pending_match(#[trigger] records[j], filter)
        },
        None => forall|j: int|
            0 <= j < records.len() ==> !spec_pending_match(#[trigger] records[j], filter),
    }
}

/// The presenting step: picks the oldest pending record in scope. Pure: it
/// neither changes the record set nor remembers earlier picks.
pub fn select_pending(records: &Vec<Model>, filter: &Option<String>) -> (r: Option<usize>)
    ensures
        spec_select_post(
            records@,
            *filter,
            match r {
                Some(i) => Some(i as int),
                None => None,
            },
        ),
{
    let mut i: usize = 0;
    while i < records.len()
        invariant
            0 <= i <= records@.len(),
            forall|j: int| 0 <= j < i ==> !spec_pending_match(#[trigger] records@[j], *filter),
        decreases records@.len() - i,
    {
        let pending = match records[i].action_status {
            ActionStatus::Pending => true,
            _ => false,
        };
        if pending {
            let in_scope = match filter {
                Some(u) => records[i].user_id.eq(u),
                None => true,
            };
            if in_scope {
                return Some(i);
            }
        }
        i += 1;
    }
    None
}

/// Re-running the presenting step without an intervening decision yields the
/// same record: the selection is a function of the record set and scope
/// alone, with no hidden advancement.
pub proof fn lemma_presenting_idempotent(
    records: Seq<Model>,
    filter: Option<String>,
    first: Option<int>,
    second: Option<int>,
)
    requires
        spec_select_post(records, filter, first),
        spec_select_post(records, filter, second),
    ensures
        first == second,
{
    match (first, second) {
        (Some(i1), Some(i2)) => {
            if i1 < i2 {
                assert(!spec_pending_match(records[i1], filter));
            } else if i2 < i1 {
                assert(!spec_pending_match(records[i2], filter));
            }
        },
        (Some(i1), None) => {
            assert(!spec_pending_match(records[i1], filter));
        },
        (None, Some(i2)) => {
            assert(!spec_pending_match(records[i2], filter));
        },
        (None, None) => {},
    }
}

/// One control activation of the moderator, or the lack of one in time.
#[derive(Clone, Copy, PartialEq, Eq, Debug, Structural)]
pub enum VerifyDecision {
    Confirm,
    Refuse,
    Stop,
    TimedOut,
}

/// What the session does with a decision on the presented record.
#[derive(Clone, Copy, PartialEq, Eq, Debug, Structural)]
pub enum VerifyOutcome {
    /// Settle the record, then present the next pending one.
    Update { id: u32, status: ActionStatus },
    /// End the session at once; the presented record stays `Pending`.
    Stopped,
    /// Clear the controls, notify, and end the session; the presented record
    /// stays `Pending`.
    TimedOut,
}

/// Maps the moderator's decision on the record with id `action_id` to the
/// session's next move: confirm and refuse settle exactly that record,
/// stop and timeout settle nothing.
pub fn decide(decision: VerifyDecision, action_id: u32) -> (r: VerifyOutcome)
    ensures
        decision is Confirm ==> r == (VerifyOutcome::Update {
            id: action_id,
            status: ActionStatus::Confirmed,
        }),
        decision is Refuse ==> r == (VerifyOutcome::Update {
            id: action_id,
            status: ActionStatus::Denied,
        }),
        decision is Stop ==> r is Stopped,
        decision is TimedOut ==> r is TimedOut,
{
    match decision {
        VerifyDecision::Confirm => VerifyOutcome::Update {
            id: action_id,
            status: ActionStatus::Confirmed,
        },
        VerifyDecision::Refuse => VerifyOutcome::Update {
            id: action_id,
            status: ActionStatus::Denied,
        },
        VerifyDecision::Stop => VerifyOutcome::Stopped,
        VerifyDecision::TimedOut => VerifyOutcome::TimedOut,
    }
}

} // verus!

//! Reliable send: what to do after a transmission attempt.
//!
//! A send makes one non-blocking attempt after another. The caller performs
//! each attempt on the endpoint and reports how it ended; the rule here says
//! whether the send is over or has to wait for the endpoint and try again.

use crate::readiness::Readiness;
use vstd::prelude::*;

verus! {

/// How one transmission attempt ended.
#[derive(Clone, Copy, Debug, PartialEq, Eq, Structural)]
pub enum SendOutcome {
    /// The endpoint took the datagram.
    Sent,
    /// The endpoint could not take it right now.
    WouldBlock,
    /// The attempt failed for any other reason.
    Failed,
}

/// What a send does after an attempt.
#[derive(Clone, Copy, Debug, PartialEq, Eq, Structural)]
pub enum SendStep {
    /// The send is over: the datagram left, or the failure is not one to retry.
    Done,
    /// Wait until the endpoint reports this readiness, then attempt again.
    Await(Readiness),
}

/// The step that follows an attempt: a blocked attempt waits for the endpoint
/// to become writable, every other outcome ends the send.
pub open spec fn step_after(outcome: SendOutcome) -> SendStep {
    if outcome is WouldBlock {
        SendStep::Await(Readiness { readable: false, writable: true })
    } else {
        SendStep::Done
    }
}

/// The attempt at which a send returns when its attempts end as `outcomes`
/// says, one after the other; `None` while it is still retrying after the last
/// of them.
pub open spec fn returns_at(outcomes: Seq<SendOutcome>) -> Option<int>
    decreases outcomes.len(),
{
    if outcomes.len() == 0 {
        None
    } else if step_after(outcomes[0]) is Done {
        Some(0)
    } else {
        match returns_at(outcomes.drop_first()) {
            Some(k) => Some(k + 1),
            None => None,
        }
    }
}

/// A send never returns on a blocked attempt. It returns at the first attempt
/// that either transmits or fails otherwise, having waited after each attempt
/// before; as long as every attempt blocks, it keeps retrying.
pub proof fn lemma_send_returns_only_when_unblocked(outcomes: Seq<SendOutcome>)
    ensures
        match returns_at(outcomes) {
            Some(k) => {
                &&& 0 <= k < outcomes.len()
                &&& outcomes[k] !is WouldBlock
                &&& forall|j: int| 0 <= j < k ==> outcomes[j] is WouldBlock
            },
            None => forall|j: int| 0 <= j < outcomes.len() ==> outcomes[j] is WouldBlock,
        },
    decreases outcomes.len(),
{
    if outcomes.len() > 0 && !(step_after(outcomes[0]) is Done) {
        let rest = outcomes.drop_first();
        lemma_send_returns_only_when_unblocked(rest);
        assert(forall|j: int| 0 <= j < rest.len() ==> rest[j] == outcomes[j + 1]);
        match returns_at(rest) {
            Some(k) => {
                assert(outcomes[k + 1] == rest[k]);
                assert forall|j: int| 0 <= j < k + 1 implies outcomes[j] is WouldBlock by {
                    if j > 0 {
                        assert(outcomes[j] == rest[j - 1]);
                    }
                }
            },
            None => {
                assert forall|j: int| 0 <= j < outcomes.len() implies outcomes[j] is WouldBlock by {
                    if j > 0 {
                        assert(outcomes[j] == rest[j - 1]);
                    }
                }
            },
        }
    }
}

} // verus!

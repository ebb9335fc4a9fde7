//! Readiness of the endpoint, and the wait for it.
//!
//! The operating system reports readiness by notifications, each tagged with
//! the token of the source it is about. A wait asks for one batch of
//! notifications after another, each batch bounded by a timeout, until a batch
//! shows the readiness that the waiter asked for.

use vstd::prelude::*;

verus! {

/// The token under which the endpoint is registered for notifications.
pub const SOCKET_TOKEN: usize = 0;

/// The longest that one round of a wait blocks, in milliseconds.
pub const WAIT_TIMEOUT_MS: u64 = 100;

/// How many notifications one round of a wait can deliver.
pub const EVENT_CAPACITY: usize = 1024;

/// A kind of readiness: readable, writable, both or neither.
#[derive(Clone, Copy, Debug, PartialEq, Eq, Hash, Structural)]
pub struct Readiness {
    pub readable: bool,
    pub writable: bool,
}

/// One notification of the operating system.
#[derive(Clone, Copy, Debug, PartialEq, Eq, Structural)]
pub struct Notification {
    pub token: usize,
    pub readiness: Readiness,
}

/// What a wait does after a round.
#[derive(Clone, Copy, Debug, PartialEq, Eq, Structural)]
pub enum WaitStep {
    /// The readiness asked for was seen: the wait is over.
    Ready,
    /// It was not: ask for the next batch.
    WaitAgain,
}

impl Readiness {
    /// Whether this readiness includes every kind that `wanted` names.
    pub open spec fn covers(self, wanted: Readiness) -> bool {
        &&& wanted.readable ==> self.readable
        &&& wanted.writable ==> self.writable
    }

    /// Readable only.
    pub fn readable() -> (r: Readiness)
        ensures
            r == (Readiness { readable: true, writable: false }),
    {
        Readiness { readable: true, writable: false }
    }

    /// Writable only.
    pub fn writable() -> (r: Readiness)
        ensures
            r == (Readiness { readable: false, writable: true }),
    {
        Readiness { readable: false, writable: true }
    }

    /// Readable and writable: the interest with which the endpoint is
    /// registered.
    pub fn both() -> (r: Readiness)
        ensures
            r == (Readiness { readable: true, writable: true }),
    {
        Readiness { readable: true, writable: true }
    }

    /// Whether this readiness includes every kind that `wanted` names.
    pub fn contains(&self, wanted: Readiness) -> (b: bool)
        ensures
            b == self.covers(wanted),
    {
        (!wanted.readable || self.readable) && (!wanted.writable || self.writable)
    }
}

/// Whether a notification is about the endpoint and shows the readiness
/// `wanted`.
pub open spec fn answers(note: Notification, wanted: Readiness) -> bool {
    note.token == SOCKET_TOKEN && note.readiness.covers(wanted)
}

/// Whether some notification of the batch answers the wait for `wanted`.
pub open spec fn observed(batch: Seq<Notification>, wanted: Readiness) -> bool {
    exists|i: int| 0 <= i < batch.len() && answers(#[trigger] batch[i], wanted)
}

/// The round at which a wait for `wanted` returns when its rounds deliver the
/// batches of `rounds`, one after the other; `None` while it is still waiting
/// after the last of them.
pub open spec fn ready_at(rounds: Seq<Seq<Notification>>, wanted: Readiness) -> Option<int>
    decreases rounds.len(),
{
    if rounds.len() == 0 {
        None
    } else if observed(rounds[0], wanted) {
        Some(0)
    } else {
        match ready_at(rounds.drop_first(), wanted) {
            Some(k) => Some(k + 1),
            None => None,
        }
    }
}

/// A wait returns only at a round that shows the readiness asked for, and at
/// the first such round; every round before it, a timeout included, is
/// followed by another.
pub proof fn lemma_wait_returns_only_when_ready(rounds: Seq<Seq<Notification>>, wanted: Readiness)
    ensures
        match ready_at(rounds, wanted) {
            Some(k) => {
                &&& 0 <= k < rounds.len()
                &&& observed(rounds[k], wanted)
                &&& forall|j: int| 0 <= j < k ==> !observed(#[trigger] rounds[j], wanted)
            },
            None => forall|j: int| 0 <= j < rounds.len() ==> !observed(#[trigger] rounds[j], wanted),
        },
    decreases rounds.len(),
{
    if rounds.len() > 0 && !observed(rounds[0], wanted) {
        let rest = rounds.drop_first();
        lemma_wait_returns_only_when_ready(rest, wanted);
        assert(forall|j: int| 0 <= j < rest.len() ==> rest[j] == rounds[j + 1]);
        match ready_at(rest, wanted) {
            Some(k) => {
                assert(rounds[k + 1] == rest[k]);
                assert forall|j: int| 0 <= j < k + 1 implies !observed(
                    #[trigger] rounds[j],
                    wanted,
                ) by {
                    if j > 0 {
                        assert(rounds[j] == rest[j - 1]);
                    }
                }
            },
            None => {
                assert forall|j: int| 0 <= j < rounds.len() implies !observed(
                    #[trigger] rounds[j],
                    wanted,
                ) by {
                    if j > 0 {
                        assert(rounds[j] == rest[j - 1]);
                    }
                }
            },
        }
    }
}

} // verus!

//! Gossip: the envelope of an event and the choice of the peers it goes to.
//!
//! One round of gossip frames an event once and addresses the same bytes to a
//! few peers drawn at random, without replacement. The draw is made by the
//! `rand` crate; everything around it is proved here for whatever it draws.

use crate::addr::PeerAddr;
use crate::payload::Event;
use rand::seq::SliceRandom;
use vstd::prelude::*;

verus! {

/// How many peers one round addresses, where that many are known.
pub const FANOUT: usize = 2;

/// What one round of gossip sends, and to whom.
#[derive(Clone, Debug, PartialEq, Eq)]
pub struct Propagation {
    /// The datagram: the event in its envelope. Every target gets these bytes.
    pub buf: Vec<u8>,
    /// The peers to send it to, in the order to send.
    pub targets: Vec<PeerAddr>,
}

/// The bytes that open the envelope of an event: `{"Event":`.
pub open spec fn envelope_open() -> Seq<u8> {
    seq![0x7bu8, 0x22u8, 0x45u8, 0x76u8, 0x65u8, 0x6eu8, 0x74u8, 0x22u8, 0x3au8]
}

/// The byte that closes the envelope: `}`.
pub open spec fn envelope_close() -> Seq<u8> {
    seq![0x7du8]
}

/// An encoded event in its envelope: an object with the one member `Event`,
/// whose value is the event as it was encoded.
pub open spec fn envelope(payload: Seq<u8>) -> Seq<u8> {
    envelope_open() + payload + envelope_close()
}

/// The smaller of two counts.
pub open spec fn at_most(limit: int, count: int) -> int {
    if count < limit {
        count
    } else {
        limit
    }
}

/// Whether `picked` lists the items of `pool` at the positions `at`, no
/// position taken twice.
pub open spec fn picks<A>(pool: Seq<A>, picked: Seq<A>, at: Seq<int>) -> bool {
    &&& at.len() == picked.len()
    &&& at.no_duplicates()
    &&& forall|k: int|
        0 <= k < at.len() ==> 0 <= #[trigger] at[k] < pool.len() && picked[k] == pool[at[k]]
}

/// Whether `picked` is a selection from `pool` without replacement: its items
/// stand at pairwise different positions of `pool`.
pub open spec fn is_selection<A>(pool: Seq<A>, picked: Seq<A>) -> bool {
    exists|at: Seq<int>| picks(pool, picked, at)
}

/// The positions `0, 1, .., count - 1`.
pub open spec fn positions(count: int) -> Seq<usize> {
    Seq::new(count as nat, |i: int| i as usize)
}

/// What one round of gossip may look like for the peers `peers` and an event
/// encoded as `payload`: the datagram is the event in its envelope, and the
/// targets are a selection of `FANOUT` peers, or of all where there are fewer.
pub open spec fn is_round(peers: Seq<PeerAddr>, payload: Seq<u8>, plan: Propagation) -> bool {
    &&& plan.buf@ == envelope(payload)
    &&& plan.targets@.len() == at_most(FANOUT as int, peers.len() as int)
    &&& is_selection(peers, plan.targets@)
}

/// `rand::seq::SliceRandom::choose_multiple` on a slice, with the generator of
/// the calling thread, collected in the order drawn.
///
/// Taken on trust from the crate: it yields `amount` items, or all of them
/// where the slice has fewer, and the items yielded stand at pairwise different
/// positions of the slice. Which positions, and in which order, is left open.
#[verifier::external_body]
fn choose_multiple(pool: &Vec<usize>, amount: usize) -> (picked: Vec<usize>)
    ensures
        picked@.len() == at_most(amount as int, pool@.len() as int),
        is_selection(pool@, picked@),
{
    let mut rng = rand::thread_rng();
    pool.choose_multiple(&mut rng, amount).copied().collect()
}

/// A selection from a pool without repeated items has no repeated items.
pub proof fn lemma_selection_keeps_distinct<A>(pool: Seq<A>, picked: Seq<A>)
    requires
        is_selection(pool, picked),
        pool.no_duplicates(),
    ensures
        picked.no_duplicates(),
{
    let at = choose|at: Seq<int>| picks(pool, picked, at);
    assert forall|i: int, j: int| 0 <= i < picked.len() && 0 <= j < picked.len() && i != j implies picked[i]
        != picked[j] by {
        assert(at[i] != at[j]);
        assert(picked[i] == pool[at[i]]);
        assert(picked[j] == pool[at[j]]);
    }
}

/// Draws the positions of the peers that one round addresses, out of `count`
/// peers: `FANOUT` of them, or all where there are fewer, each below `count`
/// and none twice.
pub fn draw_positions(count: usize) -> (drawn: Vec<usize>)
    ensures
        drawn@.len() == at_most(FANOUT as int, count as int),
        drawn@.no_duplicates(),
        forall|k: int| 0 <= k < drawn@.len() ==> drawn@[k] < count,
{
    let mut pool: Vec<usize> = Vec::new();
    let mut i: usize = 0;
    while i < count
        invariant
            i <= count,
            pool@ == positions(i as int),
        decreases count - i,
    {
        pool.push(i);
        i = i + 1;
        assert(pool@ =~= positions(i as int));
    }
    let drawn = choose_multiple(&pool, FANOUT);
    proof {
        let at = choose|at: Seq<int>| picks(pool@, drawn@, at);
        assert forall|k: int| 0 <= k < drawn@.len() implies drawn@[k] < count by {
            assert(0 <= at[k] < pool@.len());
            assert(drawn@[k] == pool@[at[k]]);
        }
        assert(pool@.no_duplicates());
        lemma_selection_keeps_distinct(pool@, drawn@);
    }
    drawn
}

/// Puts an encoded event into its envelope.
pub fn frame_event(evt: &Event) -> (buf: Vec<u8>)
    ensures
        buf@ == envelope(evt@),
{
    let mut buf: Vec<u8> = Vec::new();
    buf.push(0x7bu8);
    buf.push(0x22u8);
    buf.push(0x45u8);
    buf.push(0x76u8);
    buf.push(0x65u8);
    buf.push(0x6eu8);
    buf.push(0x74u8);
    buf.push(0x22u8);
    buf.push(0x3au8);
    assert(buf@ =~= envelope_open());
    let mut i: usize = 0;
    while i < evt.payload.len()
        invariant
            i <= evt.payload.len(),
            buf@ == envelope_open() + evt.payload@.subrange(0, i as int),
        decreases evt.payload.len() - i,
    {
        buf.push(evt.payload[i]);
        i = i + 1;
        assert(buf@ =~= envelope_open() + evt.payload@.subrange(0, i as int));
    }
    buf.push(0x7du8);
    assert(evt.payload@.subrange(0, i as int) =~= evt.payload@);
    assert(buf@ =~= envelope(evt@));
    buf
}

} // verus!

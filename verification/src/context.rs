//! The networking context of a node.

use crate::addr::PeerAddr;
use crate::channel::{conclude_announce, guard_sender, lock_sender, send_block, AnnounceError};
use crate::gossip::{
    draw_positions, envelope, frame_event, is_round, lemma_selection_keeps_distinct, picks,
    Propagation,
};
use crate::payload::{Block, Event};
use crate::readiness::{answers, observed, Notification, Readiness, WaitStep, SOCKET_TOKEN};
use crate::service::{conclude_dispatch, Service, ServiceError};
use crate::transmit::{step_after, SendOutcome, SendStep};
use std::sync::mpsc::Sender;
use std::sync::{Arc, Mutex};
use vstd::prelude::*;

verus! {

/// The networking context of a node.
///
/// `T` is the bound endpoint: the context owns it, shares it on request and
/// never looks inside. `H` is the service that inbound events and requests are
/// handed to, once one is registered.
pub struct Context<T, H> {
    socket: Arc<T>,
    addr: PeerAddr,
    peers: Vec<PeerAddr>,
    tx: Mutex<Sender<Block>>,
    event_service: Option<H>,
}

/// `Arc::clone`: one more handle to the same value. Taken on trust from the
/// standard library: the new handle points to what the old one points to.
#[verifier::external_body]
fn share<T>(handle: &Arc<T>) -> (other: Arc<T>)
    ensures
        other == *handle,
{
    Arc::clone(handle)
}

impl<T, H> Context<T, H> {
    /// The local address.
    pub closed spec fn addr(&self) -> PeerAddr {
        self.addr
    }

    /// The peer addresses, in the order they were given.
    pub closed spec fn peers(&self) -> Seq<PeerAddr> {
        self.peers@
    }

    /// The endpoint.
    pub closed spec fn endpoint(&self) -> T {
        *self.socket
    }

    /// The registered service, if there is one.
    pub closed spec fn handler(&self) -> Option<H> {
        self.event_service
    }

    /// The sending half of the block channel, behind its lock.
    pub closed spec fn outlet(&self) -> Mutex<Sender<Block>> {
        self.tx
    }

    /// A context for the endpoint `socket`, bound to `addr`, that knows `peers`
    /// and hands its blocks to `tx`. No service is registered yet.
    pub fn new(socket: T, addr: PeerAddr, peers: Vec<PeerAddr>, tx: Sender<Block>) -> (ctx: Self)
        ensures
            ctx.endpoint() == socket,
            ctx.addr() == addr,
            ctx.peers() == peers@,
            ctx.handler() is None,
    {
        Context { socket: Arc::new(socket), addr, peers, tx: guard_sender(tx), event_service: None }
    }

    /// A shared handle to the endpoint.
    pub fn get_socket(&self) -> (socket: Arc<T>)
        ensures
            *socket == self.endpoint(),
    {
        share(&self.socket)
    }

    /// The local address.
    pub fn get_addr(&self) -> (addr: &PeerAddr)
        ensures
            *addr == self.addr(),
    {
        &self.addr
    }

    /// The peer addresses.
    pub fn get_peers(&self) -> (peers: &Vec<PeerAddr>)
        ensures
            peers@ == self.peers(),
    {
        &self.peers
    }

    /// Registers the service. A service registered before is replaced; nothing
    /// else of the context changes, and the call never fails.
    pub fn register_event_handler(&mut self, service: H) -> (r: Result<(), ServiceError>)
        ensures
            r is Ok,
            final(self).handler() == Some(service),
            final(self).endpoint() == old(self).endpoint(),
            final(self).addr() == old(self).addr(),
            final(self).peers() == old(self).peers(),
            final(self).outlet() == old(self).outlet(),
    {
        self.event_service = Some(service);
        Ok(())
    }

    /// One round of the wait for the readiness `wanted`: judges the batch of
    /// notifications that the round delivered. The wait is over exactly when
    /// some notification of the batch is about the endpoint and shows every
    /// kind of readiness asked for; else another round follows. An empty batch,
    /// as a timeout leaves it, never ends the wait.
    pub fn poll(&self, wanted: Readiness, batch: &Vec<Notification>) -> (step: WaitStep)
        ensures
            step is Ready <==> observed(batch@, wanted),
    {
        let mut i: usize = 0;
        while i < batch.len()
            invariant
                i <= batch.len(),
                forall|j: int| 0 <= j < i ==> !answers(#[trigger] batch@[j], wanted),
            decreases batch.len() - i,
        {
            let note = &batch[i];
            if note.token == SOCKET_TOKEN && note.readiness.contains(wanted) {
                assert(answers(batch@[i as int], wanted));
                return WaitStep::Ready;
            }
            i = i + 1;
        }
        WaitStep::WaitAgain
    }

    /// One step of a send: says what follows a transmission attempt that ended
    /// as `outcome`. A blocked attempt is followed by a wait for the endpoint to
    /// become writable and another attempt; the send is over exactly when the
    /// attempt did not block, whether it transmitted or failed.
    pub fn send(&self, outcome: SendOutcome) -> (step: SendStep)
        ensures
            step == step_after(outcome),
            step is Done <==> outcome !is WouldBlock,
    {
        match outcome {
            SendOutcome::WouldBlock => SendStep::Await(Readiness::writable()),
            SendOutcome::Sent => SendStep::Done,
            SendOutcome::Failed => SendStep::Done,
        }
    }

    /// The round of gossip that addresses the peers at the positions `drawn`:
    /// the event in its envelope, and the peers at those positions in that
    /// order. `None` exactly when a position lies beyond the peers.
    pub fn plan_round(&self, evt: &Event, drawn: &Vec<usize>) -> (plan: Option<Propagation>)
        ensures
            plan is Some <==> forall|k: int| 0 <= k < drawn@.len() ==> drawn@[k] < self.peers().len(),
            plan matches Some(p) ==> {
                &&& p.buf@ == envelope(evt@)
                &&& p.targets@.len() == drawn@.len()
                &&& forall|k: int|
                    0 <= k < drawn@.len() ==> p.targets@[k] == self.peers()[drawn@[k] as int]
            },
    {
        let mut targets: Vec<PeerAddr> = Vec::new();
        let mut k: usize = 0;
        while k < drawn.len()
            invariant
                k <= drawn.len(),
                targets@.len() == k,
                forall|j: int| 0 <= j < k ==> drawn@[j] < self.peers@.len(),
                forall|j: int| 0 <= j < k ==> targets@[j] == self.peers@[drawn@[j] as int],
            decreases drawn.len() - k,
        {
            let at = drawn[k];
            if at >= self.peers.len() {
                return None;
            }
            targets.push(self.peers[at]);
            k = k + 1;
        }
        Some(Propagation { buf: frame_event(evt), targets })
    }

    /// Plans one round of gossip for the event: frames it once and draws the
    /// peers to send the frame to, `FANOUT` of them at pairwise different
    /// positions of the peer list, or all peers where fewer are known. With at
    /// least two peers the round has exactly two targets, and where no address
    /// stands twice in the peer list, no address is a target twice.
    pub fn propagate(&self, evt: &Event) -> (plan: Propagation)
        ensures
            is_round(self.peers(), evt@, plan),
            self.peers().len() >= 2 ==> plan.targets@.len() == 2,
            self.peers().len() < 2 ==> plan.targets@.len() == self.peers().len(),
            self.peers().no_duplicates() ==> plan.targets@.no_duplicates(),
    {
        let drawn = draw_positions(self.peers.len());
        match self.plan_round(evt, &drawn) {
            Some(plan) => {
                proof {
                    let at = Seq::new(drawn@.len(), |k: int| drawn@[k] as int);
                    assert(picks(self.peers(), plan.targets@, at));
                    if self.peers().no_duplicates() {
                        lemma_selection_keeps_distinct(self.peers(), plan.targets@);
                    }
                }
                plan
            },
            None => {
                proof {
                    assert(false);
                }
                Propagation { buf: Vec::new(), targets: Vec::new() }
            },
        }
    }

    /// Hands a copy of the block to the pipeline: takes the lock of the sending
    /// half and queues the copy. Whether that succeeds is for the lock and the
    /// channel to say; where the receiver is gone, the error holds the bytes of
    /// the block.
    pub fn announce_block(&self, block: &Block) -> (r: Result<(), AnnounceError>)
        ensures
            r matches Err(AnnounceError::Disconnected(back)) ==> back@ == block@,
    {
        let sent = match lock_sender(&self.tx) {
            Some(held) => Some(send_block(&held, block.duplicate())),
            None => None,
        };
        conclude_announce(sent)
    }
}

impl<T, H: Service<T>> Context<T, H> {
    /// Hands an inbound event to the service. With no service registered this
    /// does nothing and succeeds; else the service is asked once, with this
    /// context, the event and the sender, and its answer is the result.
    pub fn handle_event(&self, evt: &Event, from: &PeerAddr) -> (r: Result<(), ServiceError>)
        ensures
            self.handler() is None ==> r is Ok,
            self.handler() matches Some(service) ==> H::process_event.ensures(
                (&service, self, evt, from),
                r,
            ),
    {
        let answer = match &self.event_service {
            Some(service) => Some(service.process_event(self, evt, from)),
            None => None,
        };
        conclude_dispatch(answer)
    }

    /// Hands the raw bytes of an inbound request to the service. With no
    /// service registered this does nothing and succeeds; else the service is
    /// asked once, with this context and the bytes, and its answer is the
    /// result.
    pub fn handle_request(&self, data: Vec<u8>) -> (r: Result<(), ServiceError>)
        ensures
            self.handler() is None ==> r is Ok,
            self.handler() matches Some(service) ==> H::process_request.ensures(
                (&service, self, data),
                r,
            ),
    {
        let answer = match &self.event_service {
            Some(service) => Some(service.process_request(self, data)),
            None => None,
        };
        conclude_dispatch(answer)
    }
}

} // verus!

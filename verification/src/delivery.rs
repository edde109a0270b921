//! Handing packets to the outbound queues.
//!
//! Sending never waits. A queue that is full, or whose receiving end is
//! gone, drops what it is offered, and the sender goes on to the next: a
//! slow peer sheds its own load and holds nobody else up.

use crate::messages::{MumblePacket, PacketView};
use crate::queue::{queue_try_send, Enqueued};
use crate::state::{SharedState, StateView};
use vstd::prelude::*;

verus! {

/// A packet and the sessions it is to be sent to.
pub struct Outbound {
    pub packet: MumblePacket,
    pub recipients: Vec<u32>,
}

impl Outbound {
    /// Whether this is `packet`, addressed to exactly the sessions in
    /// `audience`, each once.
    pub open spec fn carries(&self, packet: PacketView, audience: Set<u32>) -> bool {
        &&& self.packet@ == packet
        &&& self.recipients@.no_duplicates()
        &&& forall|id: u32| self.recipients@.contains(id) <==> audience.contains(id)
    }
}

/// A list that holds one session.
pub fn only(session_id: u32) -> (ids: Vec<u32>)
    ensures
        ids@.no_duplicates(),
        forall|id: u32| ids@.contains(id) <==> set![session_id].contains(id),
{
    let ids = vec![session_id];
    assert(ids@[0] == session_id);
    ids
}

/// What became of the packets offered to queues.
#[derive(Clone, Copy, Debug, PartialEq, Eq, Structural)]
pub struct Tally {
    /// How many times a queue took a packet.
    pub queued: usize,
    /// How many times a queue, full or closed, dropped one.
    pub dropped: usize,
}

/// How many of `recipients` are in the store, counted as often as they are
/// named.
pub open spec fn reachable(state: StateView, recipients: Seq<u32>) -> nat
    decreases recipients.len(),
{
    if recipients.len() == 0 {
        0
    } else {
        reachable(state, recipients.drop_last()) + if state.peers.contains_key(recipients.last()) {
            1nat
        } else {
            0nat
        }
    }
}

/// How many offers sending all of `sends` comes to.
pub open spec fn offers(state: StateView, sends: Seq<Outbound>) -> nat
    decreases sends.len(),
{
    if sends.len() == 0 {
        0
    } else {
        offers(state, sends.drop_last()) + reachable(state, sends.last().recipients@)
    }
}

/// Recipients that are all in the store are all reachable.
pub proof fn lemma_present_recipients_are_reachable(state: StateView, recipients: Seq<u32>)
    requires
        forall|i: int| 0 <= i < recipients.len() ==> state.peers.contains_key(#[trigger] recipients[i]),
    ensures
        reachable(state, recipients) == recipients.len(),
    decreases recipients.len(),
{
    if recipients.len() > 0 {
        let shorter = recipients.drop_last();
        assert forall|i: int| 0 <= i < shorter.len() implies state.peers.contains_key(
            #[trigger] shorter[i],
        ) by {
            assert(shorter[i] == recipients[i]);
        }
        lemma_present_recipients_are_reachable(state, shorter);
        assert(state.peers.contains_key(recipients[recipients.len() - 1]));
    }
}

/// Offers `outbound`'s packet, once, to the queue of each of its recipients
/// that is in the store. A queue that is full or closed drops the packet;
/// the others are served all the same. Every offer is counted, as taken or
/// as dropped.
pub fn deliver(state: &SharedState, outbound: &Outbound) -> (tally: Tally)
    ensures
        tally.queued + tally.dropped == reachable(state@, outbound.recipients@),
{
    let mut queued: usize = 0;
    let mut dropped: usize = 0;
    let mut served: usize = 0;
    assert(outbound.recipients@.take(0) =~= Seq::<u32>::empty());
    while served < outbound.recipients.len()
        invariant
            served <= outbound.recipients@.len(),
            queued + dropped == reachable(state@, outbound.recipients@.take(served as int)),
            queued + dropped <= served,
        decreases outbound.recipients@.len() - served,
    {
        proof {
            let longer = outbound.recipients@.take(served + 1);
            assert(longer.drop_last() =~= outbound.recipients@.take(served as int));
            assert(longer.last() == outbound.recipients@[served as int]);
        }
        if let Some(peer) = state.get_peer(outbound.recipients[served]) {
            match queue_try_send(&peer.tx, outbound.packet.clone()) {
                Enqueued::Queued => {
                    queued += 1;
                },
                Enqueued::Full => {
                    dropped += 1;
                },
                Enqueued::Closed => {
                    dropped += 1;
                },
            }
        }
        served += 1;
    }
    assert(outbound.recipients@.take(served as int) =~= outbound.recipients@);
    Tally { queued, dropped }
}

/// Offers each packet in `sends` to the queues of its recipients, in
/// order, and counts every offer, as taken or as dropped. (The counts stop
/// at the largest number there is.)
pub fn deliver_all(state: &SharedState, sends: &Vec<Outbound>) -> (tally: Tally)
    ensures
        offers(state@, sends@) <= usize::MAX ==> tally.queued + tally.dropped == offers(
            state@,
            sends@,
        ),
{
    let mut queued: usize = 0;
    let mut dropped: usize = 0;
    let mut sent: usize = 0;
    assert(sends@.take(0) =~= Seq::<Outbound>::empty());
    while sent < sends.len()
        invariant
            sent <= sends@.len(),
            offers(state@, sends@.take(sent as int)) <= usize::MAX ==> queued + dropped == offers(
                state@,
                sends@.take(sent as int),
            ),
        decreases sends@.len() - sent,
    {
        let one = deliver(state, &sends[sent]);
        proof {
            let longer = sends@.take(sent + 1);
            assert(longer.drop_last() =~= sends@.take(sent as int));
            assert(longer.last() == sends@[sent as int]);
        }
        queued = if queued > usize::MAX - one.queued {
            usize::MAX
        } else {
            queued + one.queued
        };
        dropped = if dropped > usize::MAX - one.dropped {
            usize::MAX
        } else {
            dropped + one.dropped
        };
        sent += 1;
    }
    assert(sends@.take(sent as int) =~= sends@);
    Tally { queued, dropped }
}

} // verus!

//! The voice route, from a tunnelled packet to the queues.

use crate::delivery::{deliver, lemma_present_recipients_are_reachable, Outbound, Tally};
use crate::messages::{MumblePacket, UdpTunnel};
use crate::packet_dispatch::voice_audience;
use crate::state::SharedState;
use crate::voice_router::collect_voice_recipients;
use vstd::prelude::*;

verus! {

/// Offers a voice packet from `session_id`, as it is, to the queue of
/// everyone who hears the speaker, once each, and counts the offers: there
/// are as many as there are hearers. If nobody hears the speaker, nothing
/// is offered to anybody.
pub fn process_voice_packet(state: &SharedState, session_id: u32, tunnel: UdpTunnel) -> (tally:
    Tally)
    requires
        state.wf(),
    ensures
        voice_audience(state@, session_id).finite(),
        tally.queued + tally.dropped == voice_audience(state@, session_id).len(),
{
    let recipients = collect_voice_recipients(state, session_id);
    proof {
        assert(recipients@.to_set() =~= voice_audience(state@, session_id)) by {
            assert forall|id: u32|
                recipients@.to_set().contains(id) <==> voice_audience(state@, session_id).contains(
                    id,
                ) by {
                assert(recipients@.to_set().contains(id) <==> recipients@.contains(id));
            }
        }
        recipients@.unique_seq_to_set();
        assert forall|i: int| 0 <= i < recipients@.len() implies state@.peers.contains_key(
            #[trigger] recipients@[i],
        ) by {
            assert(recipients@.contains(recipients@[i]));
        }
        lemma_present_recipients_are_reachable(state@, recipients@);
    }
    if recipients.len() == 0 {
        Tally { queued: 0, dropped: 0 }
    } else {
        let outbound = Outbound { packet: MumblePacket::UDPTunnel(tunnel), recipients };
        deliver(state, &outbound)
    }
}

} // verus!

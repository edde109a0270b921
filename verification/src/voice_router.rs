//! Who hears a voice packet.

use crate::state::{SharedState, StateView};
use vstd::prelude::*;

verus! {

/// Whether `listener` is sent the voice of `speaker`.
///
/// Nobody is, if the speaker is not in the store or is muted or deaf.
/// Otherwise the other peers in the speaker's channel are, and the speaker
/// too if echo is on.
pub open spec fn hears_voice(state: StateView, speaker: u32, listener: u32) -> bool {
    &&& state.peers.contains_key(speaker)
    &&& state.peers.contains_key(listener)
    &&& !state.peers[speaker].silenced()
    &&& if listener == speaker {
        state.peers[speaker].echo_enabled
    } else {
        state.peers[listener].channel_id == state.peers[speaker].channel_id
    }
}

/// Whether `member` is a peer in the channel `channel_id`.
pub open spec fn in_channel(state: StateView, channel_id: u32, member: u32) -> bool {
    state.peers.contains_key(member) && state.peers[member].channel_id == channel_id
}

/// The sessions that are sent a voice packet from `session_id`: exactly
/// those that [`hears_voice`] names, each once, in no particular order.
pub fn collect_voice_recipients(state: &SharedState, session_id: u32) -> (recipients: Vec<u32>)
    requires
        state.wf(),
    ensures
        recipients@.no_duplicates(),
        forall|id: u32| recipients@.contains(id) <==> hears_voice(state@, session_id, id),
{
    let mut recipients: Vec<u32> = Vec::new();
    let (channel, echo) = match state.get_peer(session_id) {
        Some(speaker) => {
            if speaker.self_mute || speaker.self_deaf {
                return recipients;
            }
            (speaker.channel_id, speaker.echo_enabled)
        },
        None => {
            return recipients;
        },
    };
    let ids = state.list_peers();
    let mut seen: usize = 0;
    while seen < ids.len()
        invariant
            seen <= ids@.len(),
            state.wf(),
            ids@.no_duplicates(),
            forall|id: u32| ids@.contains(id) <==> state@.peers.contains_key(id),
            state@.peers.contains_key(session_id),
            !state@.peers[session_id].silenced(),
            channel == state@.peers[session_id].channel_id,
            echo == state@.peers[session_id].echo_enabled,
            recipients@.no_duplicates(),
            forall|id: u32|
                recipients@.contains(id) <==> ids@.take(seen as int).contains(id) && hears_voice(
                    state@,
                    session_id,
                    id,
                ),
        decreases ids@.len() - seen,
    {
        let id = ids[seen];
        let ghost before = recipients@;
        let ghost shorter = ids@.take(seen as int);
        let ghost longer = ids@.take(seen + 1);
        proof {
            assert(ids@.contains(id));
            assert(!shorter.contains(id)) by {
                if shorter.contains(id) {
                    let k = choose|k: int| 0 <= k < shorter.len() && shorter[k] == id;
                    assert(ids@[k] == ids@[seen as int]);
                }
            }
            assert(longer =~= shorter.push(id));
        }
        let hears = match state.get_peer(id) {
            Some(peer) => (peer.session_id != session_id && peer.channel_id == channel) || (
            peer.session_id == session_id && echo),
            None => false,
        };
        assert(hears == hears_voice(state@, session_id, id));
        if hears {
            recipients.push(id);
        }
        proof {
            let after = recipients@;
            assert forall|x: u32| after.contains(x) <==> longer.contains(x) && hears_voice(
                state@,
                session_id,
                x,
            ) by {
                lemma_push_contains(shorter, id, x);
                if hears {
                    lemma_push_contains(before, id, x);
                }
            }
            if hears {
                lemma_push_fresh(before, id);
            }
        }
        seen += 1;
    }
    assert(ids@.take(seen as int) =~= ids@);
    recipients
}

/// The sessions in the channel `channel_id`: exactly those, each once, in
/// no particular order.
pub fn collect_channel_members(state: &SharedState, channel_id: u32) -> (members: Vec<u32>)
    requires
        state.wf(),
    ensures
        members@.no_duplicates(),
        forall|id: u32| members@.contains(id) <==> in_channel(state@, channel_id, id),
{
    let mut members: Vec<u32> = Vec::new();
    let ids = state.list_peers();
    let mut seen: usize = 0;
    while seen < ids.len()
        invariant
            seen <= ids@.len(),
            state.wf(),
            ids@.no_duplicates(),
            forall|id: u32| ids@.contains(id) <==> state@.peers.contains_key(id),
            members@.no_duplicates(),
            forall|id: u32|
                members@.contains(id) <==> ids@.take(seen as int).contains(id) && in_channel(
                    state@,
                    channel_id,
                    id,
                ),
        decreases ids@.len() - seen,
    {
        let id = ids[seen];
        let ghost before = members@;
        let ghost shorter = ids@.take(seen as int);
        let ghost longer = ids@.take(seen + 1);
        proof {
            assert(ids@.contains(id));
            assert(!shorter.contains(id)) by {
                if shorter.contains(id) {
                    let k = choose|k: int| 0 <= k < shorter.len() && shorter[k] == id;
                    assert(ids@[k] == ids@[seen as int]);
                }
            }
            assert(longer =~= shorter.push(id));
        }
        let inside = match state.get_peer(id) {
            Some(peer) => peer.channel_id == channel_id,
            None => false,
        };
        if inside {
            members.push(id);
        }
        proof {
            let after = members@;
            assert forall|x: u32| after.contains(x) <==> longer.contains(x) && in_channel(
                state@,
                channel_id,
                x,
            ) by {
                lemma_push_contains(shorter, id, x);
                if inside {
                    lemma_push_contains(before, id, x);
                }
            }
            if inside {
                lemma_push_fresh(before, id);
            }
        }
        seen += 1;
    }
    assert(ids@.take(seen as int) =~= ids@);
    members
}

/// A sequence with one more element holds what it held, and that element.
proof fn lemma_push_contains(s: Seq<u32>, last: u32, x: u32)
    ensures
        s.push(last).contains(x) <==> s.contains(x) || x == last,
{
    let longer = s.push(last);
    if s.contains(x) {
        let k = choose|k: int| 0 <= k < s.len() && s[k] == x;
        assert(longer[k] == x);
    }
    if x == last {
        assert(longer[s.len() as int] == x);
    }
    if longer.contains(x) {
        let k = choose|k: int| 0 <= k < longer.len() && longer[k] == x;
        if k < s.len() {
            assert(s[k] == x);
        }
    }
}

/// A sequence without repeats stays so when an element it lacks is added.
proof fn lemma_push_fresh(s: Seq<u32>, last: u32)
    requires
        s.no_duplicates(),
        !s.contains(last),
    ensures
        s.push(last).no_duplicates(),
{
    let longer = s.push(last);
    assert forall|i: int, j: int| 0 <= i < longer.len() && 0 <= j < longer.len() && i
        != j implies longer[i] != longer[j] by {
        if i < s.len() {
            assert(s.contains(s[i]));
        }
        if j < s.len() {
            assert(s.contains(s[j]));
        }
    }
}

} // verus!

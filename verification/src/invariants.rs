//! What holds of the presence store over the whole life of a server.
//!
//! The store changes in three ways: a client is admitted, a message from a
//! session is dispatched, a session is torn down. This module puts the
//! three under one name and proves what every run of them preserves.

use crate::bootstrap::state_after_admission;
use crate::chat_service::lemma_chat_keeps_presence;
use crate::handler::state_after_teardown;
use crate::messages::PacketView;
use crate::packet_dispatch::state_after_packet;
use crate::session_service::{
    lemma_request_preserves_deaf_muted, lemma_request_preserves_known_channels,
    lemma_request_touches_requester_only,
};
use crate::state::{StateView, ROOT_CHANNEL};
use vstd::prelude::*;

verus! {

/// One thing that happens to the presence store.
pub enum Happening {
    /// A client that logged in under this name is admitted.
    Admitted { username: Seq<char> },
    /// A message from a session is dispatched.
    Received { session_id: u32, packet: PacketView },
    /// A session is torn down.
    Ended { session_id: u32 },
}

/// The store after one happening. An admission for which no session
/// identifier is left changes nothing.
pub open spec fn after(state: StateView, happening: Happening) -> StateView {
    match happening {
        Happening::Admitted { username } => if state.next_session_id < u32::MAX {
            state_after_admission(state, username)
        } else {
            state
        },
        Happening::Received { session_id, packet } => state_after_packet(
            state,
            session_id,
            packet,
        ),
        Happening::Ended { session_id } => state_after_teardown(state, session_id),
    }
}

/// The store after a run of happenings, first to last.
pub open spec fn after_all(state: StateView, run: Seq<Happening>) -> StateView
    decreases run.len(),
{
    if run.len() == 0 {
        state
    } else {
        after(after_all(state, run.drop_last()), run.last())
    }
}

/// The session identifier that a happening issues, if it issues one.
pub open spec fn issued_by(state: StateView, happening: Happening) -> Option<u32> {
    match happening {
        Happening::Admitted { .. } if state.next_session_id < u32::MAX => Some(
            state.next_session_id,
        ),
        _ => None,
    }
}

/// Whether a happening asks for a channel that the store does not know.
pub open spec fn names_unknown_channel(state: StateView, happening: Happening) -> bool {
    match happening {
        Happening::Received { packet: PacketView::UserState(request), .. } => {
            request.channel_id matches Some(target) && !state.channels.contains_key(target)
        },
        _ => false,
    }
}

/// Whether a happening asks a deaf peer to unmute while leaving it deaf.
pub open spec fn unmutes_a_deaf_peer(state: StateView, happening: Happening) -> bool {
    match happening {
        Happening::Received { session_id, packet: PacketView::UserState(request) } => {
            &&& state.peers.contains_key(session_id)
            &&& state.peers[session_id].self_deaf
            &&& request.self_deaf is None
            &&& request.self_mute == Some(false)
        },
        _ => false,
    }
}

/// Whether no happening of a run names a channel that the store does not
/// know.
pub open spec fn names_known_channels_only(state: StateView, run: Seq<Happening>) -> bool {
    forall|i: int| 0 <= i < run.len() ==> !names_unknown_channel(state, #[trigger] run[i])
}

/// Whether no happening of a run, at the time it happens, asks a deaf peer
/// to unmute while leaving it deaf.
pub open spec fn never_unmutes_a_deaf_peer(state: StateView, run: Seq<Happening>) -> bool
    decreases run.len(),
{
    if run.len() == 0 {
        true
    } else {
        &&& never_unmutes_a_deaf_peer(state, run.drop_last())
        &&& !unmutes_a_deaf_peer(after_all(state, run.drop_last()), run.last())
    }
}

/// The sessions that are active after a run: those active before it, with
/// every session that the run admits from its admission on and without
/// every session that the run ends from its teardown on.
pub open spec fn active_after(active: Set<u32>, state: StateView, run: Seq<Happening>) -> Set<u32>
    decreases run.len(),
{
    if run.len() == 0 {
        active
    } else {
        let earlier = active_after(active, state, run.drop_last());
        match run.last() {
            Happening::Ended { session_id } => earlier.remove(session_id),
            happening => match issued_by(after_all(state, run.drop_last()), happening) {
                Some(session_id) => earlier.insert(session_id),
                None => earlier,
            },
        }
    }
}

/// One happening keeps the store well formed, never changes the channels,
/// and never turns the counter back.
pub proof fn lemma_happening_keeps_store_sound(state: StateView, happening: Happening)
    requires
        state.well_formed(),
    ensures
        after(state, happening).well_formed(),
        after(state, happening).channels == state.channels,
        after(state, happening).next_session_id >= state.next_session_id,
        issued_by(state, happening) matches Some(session_id) ==> after(
            state,
            happening,
        ).next_session_id == session_id + 1,
{
    match happening {
        Happening::Received { session_id, packet } => {
            match packet {
                PacketView::TextMessage(message) => {
                    lemma_chat_keeps_presence(state, session_id, message.message);
                },
                PacketView::UserState(request) => {
                    lemma_request_touches_requester_only(state, session_id, request);
                },
                _ => {},
            }
        },
        _ => {},
    }
}

/// The sessions in the store change with admissions and teardowns and with
/// nothing else: an admission adds the session it issues, a teardown
/// removes the session it ends, a message adds none and removes none.
pub proof fn lemma_happening_changes_sessions(state: StateView, happening: Happening)
    requires
        state.well_formed(),
    ensures
        after(state, happening).peers.dom() == (match happening {
            Happening::Ended { session_id } => state.peers.dom().remove(session_id),
            _ => match issued_by(state, happening) {
                Some(session_id) => state.peers.dom().insert(session_id),
                None => state.peers.dom(),
            },
        }),
{
    let next = after(state, happening);
    match happening {
        Happening::Received { session_id, packet } => {
            match packet {
                PacketView::TextMessage(message) => {
                    lemma_chat_keeps_presence(state, session_id, message.message);
                },
                PacketView::UserState(request) => {
                    lemma_request_touches_requester_only(state, session_id, request);
                },
                _ => {},
            }
        },
        Happening::Ended { session_id } => {
            assert(next.peers.dom() =~= state.peers.dom().remove(session_id));
        },
        Happening::Admitted { username } => {
            if state.next_session_id < u32::MAX {
                assert(next.peers.dom() =~= state.peers.dom().insert(state.next_session_id));
            }
        },
    }
}

/// A run keeps the store well formed and the channels as they were.
pub proof fn lemma_run_keeps_store_sound(state: StateView, run: Seq<Happening>)
    requires
        state.well_formed(),
    ensures
        after_all(state, run).well_formed(),
        after_all(state, run).channels == state.channels,
        after_all(state, run).next_session_id >= state.next_session_id,
    decreases run.len(),
{
    if run.len() > 0 {
        lemma_run_keeps_store_sound(state, run.drop_last());
        lemma_happening_keeps_store_sound(after_all(state, run.drop_last()), run.last());
    }
}

/// A peer appears in the store if and only if its session is active: for
/// any run of happenings, the sessions in the store afterwards are those
/// that were there before, with the admitted ones and without the ended
/// ones.
pub proof fn lemma_store_holds_the_active_sessions(state: StateView, run: Seq<Happening>)
    requires
        state.well_formed(),
    ensures
        after_all(state, run).peers.dom() == active_after(state.peers.dom(), state, run),
    decreases run.len(),
{
    if run.len() > 0 {
        let earlier = after_all(state, run.drop_last());
        lemma_store_holds_the_active_sessions(state, run.drop_last());
        lemma_run_keeps_store_sound(state, run.drop_last());
        lemma_happening_changes_sessions(earlier, run.last());
    }
}

/// Every peer is in a channel that exists, after any run of happenings,
/// provided that the root channel exists, that every peer was in a channel
/// that exists before, and that no client asks for a channel that does not
/// exist.
pub proof fn lemma_peers_stay_in_known_channels(state: StateView, run: Seq<Happening>)
    requires
        state.well_formed(),
        state.peers_in_known_channels(),
        state.channels.contains_key(ROOT_CHANNEL),
        names_known_channels_only(state, run),
    ensures
        after_all(state, run).peers_in_known_channels(),
    decreases run.len(),
{
    if run.len() > 0 {
        let shorter = run.drop_last();
        let earlier = after_all(state, shorter);
        assert(names_known_channels_only(state, shorter)) by {
            assert forall|i: int| 0 <= i < shorter.len() implies !names_unknown_channel(
                state,
                #[trigger] shorter[i],
            ) by {
                assert(shorter[i] == run[i]);
            }
        }
        lemma_peers_stay_in_known_channels(state, shorter);
        lemma_run_keeps_store_sound(state, shorter);
        assert(!names_unknown_channel(state, run[run.len() - 1]));
        match run.last() {
            Happening::Received { session_id, packet } => {
                match packet {
                    PacketView::TextMessage(message) => {
                        lemma_chat_keeps_presence(earlier, session_id, message.message);
                    },
                    PacketView::UserState(request) => {
                        lemma_request_preserves_known_channels(earlier, session_id, request);
                    },
                    _ => {},
                }
            },
            _ => {},
        }
    }
}

/// Deaf implies mute, after any run of happenings, provided that it held
/// before and that no client asks a deaf peer to unmute while leaving it
/// deaf.
pub proof fn lemma_deaf_peers_stay_muted(state: StateView, run: Seq<Happening>)
    requires
        state.well_formed(),
        state.deaf_peers_are_muted(),
        never_unmutes_a_deaf_peer(state, run),
    ensures
        after_all(state, run).deaf_peers_are_muted(),
    decreases run.len(),
{
    if run.len() > 0 {
        let shorter = run.drop_last();
        let earlier = after_all(state, shorter);
        lemma_deaf_peers_stay_muted(state, shorter);
        lemma_run_keeps_store_sound(state, shorter);
        match run.last() {
            Happening::Received { session_id, packet } => {
                match packet {
                    PacketView::TextMessage(message) => {
                        lemma_chat_keeps_presence(earlier, session_id, message.message);
                    },
                    PacketView::UserState(request) => {
                        lemma_request_preserves_deaf_muted(earlier, session_id, request);
                    },
                    _ => {},
                }
            },
            _ => {},
        }
    }
}

/// The counter never turns back: later in a run it is at least what it was
/// earlier.
pub proof fn lemma_counter_only_advances(
    state: StateView,
    run: Seq<Happening>,
    earlier: int,
    later: int,
)
    requires
        state.well_formed(),
        0 <= earlier <= later <= run.len(),
    ensures
        after_all(state, run.take(earlier)).next_session_id <= after_all(
            state,
            run.take(later),
        ).next_session_id,
    decreases later - earlier,
{
    if earlier < later {
        lemma_counter_only_advances(state, run, earlier, later - 1);
        let shorter = run.take(later - 1);
        assert(run.take(later).drop_last() =~= shorter);
        lemma_run_keeps_store_sound(state, shorter);
        lemma_happening_keeps_store_sound(after_all(state, shorter), run[later - 1]);
    }
}

/// Session identifiers are strictly increasing: of two identifiers issued
/// in one run, the one issued later is the greater.
pub proof fn lemma_session_ids_increase(
    state: StateView,
    run: Seq<Happening>,
    earlier: int,
    later: int,
)
    requires
        state.well_formed(),
        0 <= earlier < later < run.len(),
        issued_by(after_all(state, run.take(earlier)), run[earlier]) is Some,
        issued_by(after_all(state, run.take(later)), run[later]) is Some,
    ensures
        issued_by(after_all(state, run.take(earlier)), run[earlier])->0 < issued_by(
            after_all(state, run.take(later)),
            run[later],
        )->0,
{
    let before = after_all(state, run.take(earlier));
    lemma_run_keeps_store_sound(state, run.take(earlier));
    lemma_happening_keeps_store_sound(before, run[earlier]);
    assert(run.take(earlier + 1).drop_last() =~= run.take(earlier));
    lemma_counter_only_advances(state, run, earlier + 1, later);
}

/// A session identifier is issued once: while every session in the store
/// was issued by the counter, the next one issued is in use by nobody, and
/// this stays so after any happening.
pub proof fn lemma_issued_sessions_are_fresh(state: StateView, happening: Happening)
    requires
        state.well_formed(),
        state.sessions_were_issued(),
    ensures
        after(state, happening).sessions_were_issued(),
        issued_by(state, happening) matches Some(session_id) ==> !state.peers.contains_key(
            session_id,
        ),
{
    lemma_happening_changes_sessions(state, happening);
    lemma_happening_keeps_store_sound(state, happening);
    let next = after(state, happening);
    assert forall|id: u32| #[trigger] next.peers.contains_key(id) implies id
        < next.next_session_id by {
        assert(next.peers.dom().contains(id));
        if state.peers.dom().contains(id) {
            assert(state.peers.contains_key(id));
        }
    }
}

} // verus!

//! The presence route: what a client's request to change its own state
//! does to the store, and what everybody is told of it.

use crate::messages::{UserState, UserStateView};
use crate::state::{PeerView, SharedState, StateView};
use vstd::prelude::*;

verus! {

/// What a presence request leads to.
pub struct SessionUpdate {
    /// The notice of a move to another channel, if there was one.
    pub channel_update: Option<UserState>,
    /// The notice of a change of mute or deaf, if there was one.
    pub state_delta: Option<UserState>,
    /// The sessions that the notices go to.
    pub recipients: Vec<u32>,
}

/// An optional user state by its view.
pub open spec fn opt_user_state(m: Option<UserState>) -> Option<UserStateView> {
    match m {
        Some(m) => Some(m@),
        None => None,
    }
}

/// A peer's record after a request has been applied to it: the channel is
/// taken over if the request names one; then mute, if it names one; then
/// deaf, if it names one. Whoever turns deaf is muted with it.
pub open spec fn peer_after_request(peer: PeerView, request: UserStateView) -> PeerView {
    let channel_id = match request.channel_id {
        Some(target) => target,
        None => peer.channel_id,
    };
    let asked_mute = match request.self_mute {
        Some(mute) => mute,
        None => peer.self_mute,
    };
    let self_deaf = match request.self_deaf {
        Some(deaf) => deaf,
        None => peer.self_deaf,
    };
    let self_mute = request.self_deaf == Some(true) || asked_mute;
    PeerView { channel_id, self_mute, self_deaf, ..peer }
}

/// The store after a request from `session_id`. A request from a session
/// that is not in the store changes nothing.
pub open spec fn state_after_request(
    state: StateView,
    session_id: u32,
    request: UserStateView,
) -> StateView {
    if state.peers.contains_key(session_id) {
        state.with_peer(peer_after_request(state.peers[session_id], request))
    } else {
        state
    }
}

/// The notice of a channel move: the session and its new channel, nothing
/// else. There is one if the request names a channel and the session is in
/// the store.
pub open spec fn move_notice(
    state: StateView,
    session_id: u32,
    request: UserStateView,
) -> Option<UserStateView> {
    match request.channel_id {
        Some(target) if state.peers.contains_key(session_id) => Some(
            UserStateView {
                session: Some(session_id),
                channel_id: Some(target),
                ..UserStateView::empty()
            },
        ),
        _ => None,
    }
}

/// The notice of a change of mute or deaf: the session, and of the two
/// fields those that the request names; mute is named as well, and true,
/// when the request turns the peer deaf. There is one if the request names
/// either field and the session is in the store.
pub open spec fn mute_deaf_notice(
    state: StateView,
    session_id: u32,
    request: UserStateView,
) -> Option<UserStateView> {
    if state.peers.contains_key(session_id) && (request.self_mute is Some
        || request.self_deaf is Some) {
        Some(
            UserStateView {
                session: Some(session_id),
                self_mute: if request.self_deaf == Some(true) {
                    Some(true)
                } else {
                    request.self_mute
                },
                self_deaf: request.self_deaf,
                ..UserStateView::empty()
            },
        )
    } else {
        None
    }
}

/// Applies a client's request to change its own state, and says what is to
/// be told to whom.
///
/// The request is sparse: only the fields it sets are acted on. The notices
/// go to every peer in the store, the requester included. The requester is
/// known by its session; the name it goes by plays no part.
pub fn process_user_state_update(
    state: &mut SharedState,
    session_id: u32,
    _username: &str,
    state_update: UserState,
) -> (update: SessionUpdate)
    requires
        old(state).wf(),
    ensures
        final(state).wf(),
        final(state)@ == state_after_request(old(state)@, session_id, state_update@),
        opt_user_state(update.channel_update) == move_notice(
            old(state)@,
            session_id,
            state_update@,
        ),
        opt_user_state(update.state_delta) == mute_deaf_notice(
            old(state)@,
            session_id,
            state_update@,
        ),
        update.recipients@.no_duplicates(),
        forall|id: u32|
            update.recipients@.contains(id) <==> old(state)@.peers.contains_key(id),
{
    let mut channel_update: Option<UserState> = None;
    let mut state_delta: Option<UserState> = None;
    match state.remove_peer(session_id) {
        Some(mut peer) => {
            if let Some(target) = state_update.channel_id {
                peer.channel_id = target;
                let mut notice = UserState::default();
                notice.session = Some(session_id);
                notice.channel_id = Some(target);
                channel_update = Some(notice);
            }
            let mut changes = false;
            let mut notice = UserState::default();
            notice.session = Some(session_id);
            if let Some(mute) = state_update.self_mute {
                peer.self_mute = mute;
                notice.self_mute = Some(mute);
                changes = true;
            }
            if let Some(deaf) = state_update.self_deaf {
                peer.self_deaf = deaf;
                notice.self_deaf = Some(deaf);
                if deaf {
                    peer.self_mute = true;
                    notice.self_mute = Some(true);
                }
                changes = true;
            }
            if changes {
                state_delta = Some(notice);
            }
            assert(peer@ == peer_after_request(old(state)@.peers[session_id], state_update@));
            state.add_peer(session_id, peer);
            assert(state@.peers =~= state_after_request(
                old(state)@,
                session_id,
                state_update@,
            ).peers);
        },
        None => {
            assert(state@.peers =~= old(state)@.peers);
        },
    }
    let recipients = state.list_peers();
    SessionUpdate { channel_update, state_delta, recipients }
}

/// Deaf implies mute: a request that names deaf, or that does not ask a
/// deaf peer to unmute, leaves the requester muted if it leaves it deaf.
pub proof fn lemma_request_keeps_deaf_muted(peer: PeerView, request: UserStateView)
    requires
        peer.self_deaf ==> peer.self_mute,
        !(peer.self_deaf && request.self_deaf is None && request.self_mute == Some(false)),
    ensures
        peer_after_request(peer, request).self_deaf ==> peer_after_request(
            peer,
            request,
        ).self_mute,
{
}

/// Deaf implies mute, for the whole store: if every deaf peer is muted, the
/// same holds after a request, unless the request asks a deaf peer to
/// unmute without saying anything of deaf.
pub proof fn lemma_request_preserves_deaf_muted(
    state: StateView,
    session_id: u32,
    request: UserStateView,
)
    requires
        state.well_formed(),
        state.deaf_peers_are_muted(),
        state.peers.contains_key(session_id) ==> !(state.peers[session_id].self_deaf
            && request.self_deaf is None && request.self_mute == Some(false)),
    ensures
        state_after_request(state, session_id, request).deaf_peers_are_muted(),
{
    if state.peers.contains_key(session_id) {
        lemma_request_keeps_deaf_muted(state.peers[session_id], request);
    }
}

/// A request that turns a peer deaf leaves it deaf and muted, whatever it
/// was before and whatever else the request says.
pub proof fn lemma_turning_deaf_mutes(peer: PeerView, request: UserStateView)
    requires
        request.self_deaf == Some(true),
    ensures
        peer_after_request(peer, request).self_deaf,
        peer_after_request(peer, request).self_mute,
{
}

/// A request changes no record but the requester's, adds no session and
/// removes none, and leaves channels and counter alone.
pub proof fn lemma_request_touches_requester_only(
    state: StateView,
    session_id: u32,
    request: UserStateView,
)
    requires
        state.well_formed(),
    ensures
        state_after_request(state, session_id, request).well_formed(),
        state_after_request(state, session_id, request).peers.dom() == state.peers.dom(),
        state_after_request(state, session_id, request).channels == state.channels,
        state_after_request(state, session_id, request).next_session_id
            == state.next_session_id,
        forall|id: u32|
            id != session_id && state.peers.contains_key(id) ==> #[trigger] state_after_request(
                state,
                session_id,
                request,
            ).peers[id] == state.peers[id],
{
    let after = state_after_request(state, session_id, request);
    assert(after.peers.dom() =~= state.peers.dom());
}

/// Every peer stays in a channel that exists, provided the request names
/// no channel or one that exists.
pub proof fn lemma_request_preserves_known_channels(
    state: StateView,
    session_id: u32,
    request: UserStateView,
)
    requires
        state.well_formed(),
        state.peers_in_known_channels(),
        request.channel_id matches Some(target) ==> state.channels.contains_key(target),
    ensures
        state_after_request(state, session_id, request).peers_in_known_channels(),
{
}

} // verus!

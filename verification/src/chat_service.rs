//! The chat route: what a line of chat from a client leads to.
//!
//! A line that begins with `/echo` is a command: it switches the sender's
//! echo on or off and is answered to the sender alone. Any other line is
//! stamped with its author and a time, sent to everybody in the sender's
//! channel, the sender included, and handed on to be stored.

use crate::clock::current_unix_time;
use crate::delivery::{deliver, only, Outbound};
use crate::messages::{MumblePacket, PacketView, TextMessage, TextMessageView};
use crate::packet_dispatch::StoreRequest;
use crate::state::{PeerView, SharedState, StateView, ROOT_CHANNEL};
use crate::text::text_starts_with;
use crate::voice_router::{collect_channel_members, in_channel};
use vstd::prelude::*;

verus! {

/// What a line of chat leads to: the answer to a command, for the sender
/// alone; the message to pass on, with the sessions it goes to; the text to
/// store, with the channel it was said in.
pub type ChatResolution = (
    Option<MumblePacket>,
    Option<(MumblePacket, Vec<u32>)>,
    Option<(String, i32)>,
);

/// Whether a line of chat is the echo command.
pub open spec fn is_echo_command(body: Seq<char>) -> bool {
    "/echo"@.is_prefix_of(body)
}

/// The store after a line of chat from `session_id`: the echo command flips
/// the sender's echo; nothing else changes anything.
pub open spec fn state_after_chat(
    state: StateView,
    session_id: u32,
    body: Seq<char>,
) -> StateView {
    if is_echo_command(body) && state.peers.contains_key(session_id) {
        let peer = state.peers[session_id];
        state.with_peer(PeerView { echo_enabled: !peer.echo_enabled, ..peer })
    } else {
        state
    }
}

/// The answer to the echo command: addressed to the sender, it says what
/// echo has become.
pub open spec fn echo_answer(session_id: u32, echo_now: bool) -> TextMessageView {
    TextMessageView {
        session: seq![session_id],
        message: if echo_now {
            "Echo mode: ON"@
        } else {
            "Echo mode: OFF"@
        },
        ..TextMessageView::empty()
    }
}

/// A line of chat as it is passed on: the sender is its actor, and it
/// carries a time, its own if it had one, else `now`.
pub open spec fn stamped(message: TextMessageView, session_id: u32, now: u64) -> TextMessageView {
    TextMessageView {
        actor: Some(session_id),
        timestamp: Some(
            match message.timestamp {
                Some(time) => time,
                None => now,
            },
        ),
        ..message
    }
}

/// The channel that a line of chat is said in: the sender's, or the root
/// channel for a sender that is not in the store.
pub open spec fn chat_channel(state: StateView, session_id: u32) -> u32 {
    if state.peers.contains_key(session_id) {
        state.peers[session_id].channel_id
    } else {
        ROOT_CHANNEL
    }
}

/// Whether `resolution` is what a line of chat `message`, sent by
/// `session_id` at the time `now`, leads to in the store `state`.
pub open spec fn chat_resolved(
    state: StateView,
    session_id: u32,
    message: TextMessageView,
    now: u64,
    resolution: ChatResolution,
) -> bool {
    let (answer, passed_on, to_store) = resolution;
    if is_echo_command(message.message) {
        &&& passed_on is None
        &&& to_store is None
        &&& if state.peers.contains_key(session_id) {
            answer matches Some(packet) && packet@ == PacketView::TextMessage(
                echo_answer(session_id, !state.peers[session_id].echo_enabled),
            )
        } else {
            answer is None
        }
    } else {
        &&& answer is None
        &&& passed_on matches Some((packet, recipients)) && {
            &&& packet@ == PacketView::TextMessage(stamped(message, session_id, now))
            &&& recipients@.no_duplicates()
            &&& forall|id: u32|
                recipients@.contains(id) <==> in_channel(
                    state,
                    chat_channel(state, session_id),
                    id,
                )
        }
        &&& to_store matches Some((content, channel)) && {
            &&& content@ == message.message
            &&& channel == chat_channel(state, session_id) as i32
        }
    }
}

/// Resolves a line of chat received at the time `now`.
pub fn resolve_chat_at(
    state: &mut SharedState,
    session_id: u32,
    msg: TextMessage,
    now: u64,
) -> (resolution: ChatResolution)
    requires
        old(state).wf(),
    ensures
        final(state).wf(),
        final(state)@ == state_after_chat(old(state)@, session_id, msg@.message),
        chat_resolved(old(state)@, session_id, msg@, now, resolution),
{
    if text_starts_with(msg.message.as_str(), "/echo") {
        match state.remove_peer(session_id) {
            Some(mut peer) => {
                peer.echo_enabled = !peer.echo_enabled;
                let mut answer = TextMessage::default();
                answer.session = vec![session_id];
                answer.message = if peer.echo_enabled {
                    "Echo mode: ON".to_owned()
                } else {
                    "Echo mode: OFF".to_owned()
                };
                assert(answer.session@ =~= seq![session_id]);
                state.add_peer(session_id, peer);
                assert(state@.peers =~= state_after_chat(
                    old(state)@,
                    session_id,
                    msg@.message,
                ).peers);
                (Some(MumblePacket::TextMessage(answer)), None, None)
            },
            None => {
                assert(state@.peers =~= old(state)@.peers);
                (None, None, None)
            },
        }
    } else {
        let content = msg.message.clone();
        let channel = match state.get_peer(session_id) {
            Some(peer) => peer.channel_id,
            None => ROOT_CHANNEL,
        };
        let recipients = collect_channel_members(state, channel);
        let passed_on = TextMessage {
            actor: Some(session_id),
            session: msg.session,
            channel_id: msg.channel_id,
            tree_id: msg.tree_id,
            message: msg.message,
            timestamp: Some(
                match msg.timestamp {
                    Some(time) => time,
                    None => now,
                },
            ),
        };
        (
            None,
            Some((MumblePacket::TextMessage(passed_on), recipients)),
            Some((content, #[verifier::truncate] (channel as i32))),
        )
    }
}

/// Resolves a line of chat received now.
///
/// The time is read from the clock only for a message that carries none;
/// whatever the clock says, the outcome is the one that
/// [`resolve_chat_at`] gives for that time.
pub fn resolve_chat_logic(state: &mut SharedState, session_id: u32, msg: TextMessage) -> (resolution:
    ChatResolution)
    requires
        old(state).wf(),
    ensures
        final(state).wf(),
        final(state)@ == state_after_chat(old(state)@, session_id, msg@.message),
        exists|now: u64| chat_resolved(old(state)@, session_id, msg@, now, resolution),
{
    let now = match msg.timestamp {
        Some(time) => time,
        None => current_unix_time(),
    };
    resolve_chat_at(state, session_id, msg, now)
}

/// Whether `request` is what is to be stored of a line of chat: nothing of
/// the echo command; of any other line its text as it came, under the name
/// of the sender and the channel it was said in.
pub open spec fn chat_stored(
    state: StateView,
    session_id: u32,
    username: Seq<char>,
    message: TextMessageView,
    request: Option<StoreRequest>,
) -> bool {
    if is_echo_command(message.message) {
        request is None
    } else {
        request matches Some(request) && {
            &&& request.sender_name@ == username
            &&& request.channel_id == chat_channel(state, session_id) as i32
            &&& request.content@ == message.message
        }
    }
}

/// Handles a line of chat from `session_id`: resolves it as
/// [`resolve_chat_logic`] does, offers the answer to a command to the
/// sender's queue and a line to pass on to the queues of its recipients,
/// and returns what is to be stored. Storing is the caller's to do, and is
/// not to hold up the session.
pub fn handle_chat_packet(
    state: &mut SharedState,
    session_id: u32,
    username: &str,
    msg: TextMessage,
) -> (to_store: Option<StoreRequest>)
    requires
        old(state).wf(),
    ensures
        final(state).wf(),
        final(state)@ == state_after_chat(old(state)@, session_id, msg@.message),
        chat_stored(old(state)@, session_id, username@, msg@, to_store),
{
    let (answer, passed_on, to_store) = resolve_chat_logic(state, session_id, msg);
    if let Some(packet) = answer {
        let _queued = deliver(state, &Outbound { packet, recipients: only(session_id) });
    }
    if let Some((packet, recipients)) = passed_on {
        let _queued = deliver(state, &Outbound { packet, recipients });
    }
    match to_store {
        Some((content, channel_id)) => Some(
            StoreRequest { sender_name: username.to_owned(), channel_id, content },
        ),
        None => None,
    }
}

/// The echo command reaches nobody but the sender and stores nothing, and
/// two of them in a row leave the store as it was.
pub proof fn lemma_echo_twice_is_identity(state: StateView, session_id: u32, body: Seq<char>)
    requires
        state.well_formed(),
        is_echo_command(body),
    ensures
        state_after_chat(state_after_chat(state, session_id, body), session_id, body) == state,
{
    let once = state_after_chat(state, session_id, body);
    let twice = state_after_chat(once, session_id, body);
    if state.peers.contains_key(session_id) {
        assert(twice.peers =~= state.peers);
    }
}

/// A line of chat adds no session, removes none, moves nobody, and leaves
/// mute and deaf as they were.
pub proof fn lemma_chat_keeps_presence(state: StateView, session_id: u32, body: Seq<char>)
    requires
        state.well_formed(),
    ensures
        state_after_chat(state, session_id, body).well_formed(),
        state_after_chat(state, session_id, body).peers.dom() == state.peers.dom(),
        state_after_chat(state, session_id, body).channels == state.channels,
        state_after_chat(state, session_id, body).next_session_id == state.next_session_id,
        forall|id: u32|
            state.peers.contains_key(id) ==> {
                let before = state.peers[id];
                let after = #[trigger] state_after_chat(state, session_id, body).peers[id];
                &&& after.channel_id == before.channel_id
                &&& after.self_mute == before.self_mute
                &&& after.self_deaf == before.self_deaf
                &&& after.session_id == before.session_id
                &&& after.username == before.username
            },
{
    let after = state_after_chat(state, session_id, body);
    assert(after.peers.dom() =~= state.peers.dom());
}

} // verus!

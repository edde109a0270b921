//! The dispatch core: what each message from a client leads to.
//!
//! [`route_incoming_packet`] decides: it changes the store and lists what
//! is to be sent to whom and what is left for the caller to do with the
//! message store. [`handle_incoming_packet`] decides and sends.

use crate::chat_service::{
    chat_channel, echo_answer, is_echo_command, resolve_chat_at, stamped, state_after_chat,
};
use crate::clock::current_unix_time;
use crate::kind::MessageKind;
use crate::messages::{copy_ids, MumblePacket, PacketView, TextMessageView, UserStateView};
use crate::delivery::{deliver_all, only, Outbound};
use crate::session_service::{
    move_notice, mute_deaf_notice, process_user_state_update, state_after_request,
};
use crate::state::{SharedState, StateView};
use crate::voice_router::{collect_voice_recipients, hears_voice, in_channel};
use vstd::prelude::*;

verus! {

/// A line of chat to be put into the message store.
pub struct StoreRequest {
    pub sender_name: String,
    pub channel_id: i32,
    pub content: String,
}

/// What is left for the caller to do with the message store once a message
/// has been dispatched. Neither is to hold up the session.
pub struct FollowUp {
    /// The line of chat to store, if the message was one.
    pub persist: Option<StoreRequest>,
    /// The channel whose recent lines are to be fetched and shown to the
    /// sender, if the message moved it there.
    pub history_for: Option<u32>,
}

impl FollowUp {
    /// Whether nothing is left to do.
    pub open spec fn is_nothing(&self) -> bool {
        self.persist is None && self.history_for is None
    }
}

/// What one message from a client leads to.
pub struct Dispatch {
    /// What is to be sent, in this order.
    pub sends: Vec<Outbound>,
    pub follow_up: FollowUp,
}

/// The store after a message from `session_id`: chat and presence requests
/// act on it as their routes say, nothing else changes it.
pub open spec fn state_after_packet(
    state: StateView,
    session_id: u32,
    packet: PacketView,
) -> StateView {
    match packet {
        PacketView::TextMessage(message) => state_after_chat(state, session_id, message.message),
        PacketView::UserState(request) => state_after_request(state, session_id, request),
        _ => state,
    }
}

/// The sessions that hear the voice of `speaker`.
pub open spec fn voice_audience(state: StateView, speaker: u32) -> Set<u32> {
    Set::new(|id: u32| hears_voice(state, speaker, id))
}

/// The sessions in the channel that `session_id` chats in.
pub open spec fn chat_audience(state: StateView, session_id: u32) -> Set<u32> {
    Set::new(|id: u32| in_channel(state, chat_channel(state, session_id), id))
}

/// Whether `sends` is what a voice packet from `session_id` leads to: the
/// packet itself, unchanged, to those who hear the speaker; nothing at all
/// if nobody does.
pub open spec fn voice_routed(
    state: StateView,
    session_id: u32,
    packet: PacketView,
    sends: Seq<Outbound>,
) -> bool {
    if exists|id: u32| hears_voice(state, session_id, id) {
        sends.len() == 1 && sends[0].carries(packet, voice_audience(state, session_id))
    } else {
        sends.len() == 0
    }
}

/// Whether `dispatch` is what a line of chat leads to.
pub open spec fn chat_routed(
    state: StateView,
    session_id: u32,
    username: Seq<char>,
    message: TextMessageView,
    now: u64,
    dispatch: Dispatch,
) -> bool {
    let sends = dispatch.sends@;
    if is_echo_command(message.message) {
        &&& dispatch.follow_up.is_nothing()
        &&& if state.peers.contains_key(session_id) {
            sends.len() == 1 && sends[0].carries(
                PacketView::TextMessage(
                    echo_answer(session_id, !state.peers[session_id].echo_enabled),
                ),
                set![session_id],
            )
        } else {
            sends.len() == 0
        }
    } else {
        &&& sends.len() == 1
        &&& sends[0].carries(
            PacketView::TextMessage(stamped(message, session_id, now)),
            chat_audience(state, session_id),
        )
        &&& dispatch.follow_up.history_for is None
        &&& dispatch.follow_up.persist matches Some(request) && {
            &&& request.sender_name@ == username
            &&& request.channel_id == chat_channel(state, session_id) as i32
            &&& request.content@ == message.message
        }
    }
}

/// Whether `dispatch` is what a presence request leads to: the notice of
/// the move, if there is one, then the notice of mute and deaf, if there is
/// one, each to everybody in the store; and the moved peer is owed the
/// recent lines of its new channel.
pub open spec fn presence_routed(
    state: StateView,
    session_id: u32,
    request: UserStateView,
    dispatch: Dispatch,
) -> bool {
    let sends = dispatch.sends@;
    let moved = move_notice(state, session_id, request);
    let changed = mute_deaf_notice(state, session_id, request);
    let everybody = state.peers.dom();
    &&& dispatch.follow_up.persist is None
    &&& dispatch.follow_up.history_for == (if moved is Some {
        request.channel_id
    } else {
        None
    })
    &&& match (moved, changed) {
        (Some(first), Some(second)) => {
            &&& sends.len() == 2
            &&& sends[0].carries(PacketView::UserState(first), everybody)
            &&& sends[1].carries(PacketView::UserState(second), everybody)
        },
        (Some(first), None) => {
            &&& sends.len() == 1
            &&& sends[0].carries(PacketView::UserState(first), everybody)
        },
        (None, Some(second)) => {
            &&& sends.len() == 1
            &&& sends[0].carries(PacketView::UserState(second), everybody)
        },
        (None, None) => sends.len() == 0,
    }
}

/// Whether `dispatch` is what `packet`, received from `session_id` at the
/// time `now`, leads to in the store `state`.
///
/// A ping goes back to its sender. Voice, chat and presence requests go
/// their routes. Every other kind is dropped without a trace.
pub open spec fn routed(
    state: StateView,
    session_id: u32,
    username: Seq<char>,
    packet: PacketView,
    now: u64,
    dispatch: Dispatch,
) -> bool {
    match packet {
        PacketView::Uninterpreted(MessageKind::Ping, _) => {
            &&& dispatch.sends@.len() == 1
            &&& dispatch.sends@[0].carries(packet, set![session_id])
            &&& dispatch.follow_up.is_nothing()
        },
        PacketView::UDPTunnel(_) => {
            &&& voice_routed(state, session_id, packet, dispatch.sends@)
            &&& dispatch.follow_up.is_nothing()
        },
        PacketView::TextMessage(message) => chat_routed(
            state,
            session_id,
            username,
            message,
            now,
            dispatch,
        ),
        PacketView::UserState(request) => presence_routed(state, session_id, request, dispatch),
        _ => dispatch.sends@.len() == 0 && dispatch.follow_up.is_nothing(),
    }
}

/// Decides what a message received from `session_id` at the time `now`
/// leads to, and changes the store accordingly. Nothing is sent.
pub fn route_incoming_packet(
    packet: MumblePacket,
    state: &mut SharedState,
    username: &str,
    session_id: u32,
    now: u64,
) -> (dispatch: Dispatch)
    requires
        old(state).wf(),
    ensures
        final(state).wf(),
        final(state)@ == state_after_packet(old(state)@, session_id, packet@),
        routed(old(state)@, session_id, username@, packet@, now, dispatch),
{
    let mut sends: Vec<Outbound> = Vec::new();
    let mut follow_up = FollowUp { persist: None, history_for: None };
    match packet {
        MumblePacket::Ping(ping) => {
            sends.push(Outbound { packet: MumblePacket::Ping(ping), recipients: only(session_id) });
        },
        MumblePacket::UDPTunnel(voice) => {
            let recipients = collect_voice_recipients(state, session_id);
            if recipients.len() > 0 {
                assert(recipients@.contains(recipients@[0]));
                sends.push(Outbound { packet: MumblePacket::UDPTunnel(voice), recipients });
            } else {
                assert forall|id: u32| !hears_voice(state@, session_id, id) by {
                    if hears_voice(state@, session_id, id) {
                        assert(recipients@.contains(id));
                    }
                }
            }
        },
        MumblePacket::TextMessage(message) => {
            let (answer, passed_on, to_store) = resolve_chat_at(state, session_id, message, now);
            if let Some(packet) = answer {
                sends.push(Outbound { packet, recipients: only(session_id) });
            }
            if let Some((packet, recipients)) = passed_on {
                sends.push(Outbound { packet, recipients });
            }
            if let Some((content, channel_id)) = to_store {
                follow_up.persist = Some(
                    StoreRequest { sender_name: username.to_owned(), channel_id, content },
                );
            }
        },
        MumblePacket::UserState(request) => {
            let target = request.channel_id;
            let update = process_user_state_update(state, session_id, username, request);
            let recipients = update.recipients;
            match (update.channel_update, update.state_delta) {
                (Some(first), Some(second)) => {
                    let again = copy_ids(&recipients);
                    sends.push(Outbound { packet: MumblePacket::UserState(first), recipients });
                    sends.push(
                        Outbound { packet: MumblePacket::UserState(second), recipients: again },
                    );
                    follow_up.history_for = target;
                },
                (Some(first), None) => {
                    sends.push(Outbound { packet: MumblePacket::UserState(first), recipients });
                    follow_up.history_for = target;
                },
                (None, Some(second)) => {
                    sends.push(Outbound { packet: MumblePacket::UserState(second), recipients });
                },
                (None, None) => {},
            }
        },
        _ => {},
    }
    Dispatch { sends, follow_up }
}

/// Dispatches a message received from `session_id`: decides what it leads
/// to, as [`route_incoming_packet`] does for the time on the clock (which
/// is read only for a line of chat that carries no time of its own), offers
/// every packet to the queues of its recipients, and returns what is left
/// for the caller to do with the message store.
pub fn handle_incoming_packet(
    packet: MumblePacket,
    state: &mut SharedState,
    username: &str,
    session_id: u32,
) -> (follow_up: FollowUp)
    requires
        old(state).wf(),
    ensures
        final(state).wf(),
        final(state)@ == state_after_packet(old(state)@, session_id, packet@),
        exists|now: u64, sends: Vec<Outbound>|
            routed(
                old(state)@,
                session_id,
                username@,
                packet@,
                now,
                Dispatch { sends, follow_up },
            ),
{
    let undated = match &packet {
        MumblePacket::TextMessage(message) => message.timestamp.is_none(),
        _ => false,
    };
    let now = if undated {
        current_unix_time()
    } else {
        0
    };
    let dispatch = route_incoming_packet(packet, state, username, session_id, now);
    let _queued = deliver_all(state, &dispatch.sends);
    dispatch.follow_up
}

} // verus!

//! The life of one session, from the first message to teardown.
//!
//! A session is driven from outside: whoever owns the connection reports
//! what happened, and [`next_action`] says what to do about it and which
//! phase the session is in afterwards. The handshake is a version message,
//! then the credentials; after the login the session is established and
//! every message is dispatched; any failure closes it.

use crate::messages::{Authenticate, MumblePacket, PacketView, Reject, UserRemove};
use crate::delivery::{deliver, Outbound};
use crate::state::{SharedState, StateView};
use vstd::prelude::*;

verus! {

/// Where a session stands.
#[derive(Clone, Copy, Debug, PartialEq, Eq, Structural)]
pub enum Phase {
    /// Nothing has been received yet: a version message is due.
    AwaitingVersion,
    /// The version has been received: the credentials are due.
    AwaitingAuthenticate,
    /// The credentials are being judged.
    Authenticating,
    /// The client is logged in and in the presence store.
    Established,
    /// The session is over.
    Closed,
}

/// What happened on a session's connection or queue.
pub enum Event {
    /// A message arrived from the client.
    Received(MumblePacket),
    /// The client's stream ended or could not be decoded.
    ReceiveFailed,
    /// The login was accepted and the session set up.
    Admitted,
    /// The login was refused.
    Refused(Reject),
    /// The outbound queue yielded a message.
    Queued(MumblePacket),
    /// The outbound queue was closed.
    QueueClosed,
    /// A write to the client failed.
    WriteFailed,
}

/// What is to be done next.
pub enum Action {
    /// Wait for the next event.
    Continue,
    /// Judge these credentials, and report `Admitted` or `Refused`.
    Authenticate(Authenticate),
    /// Dispatch this message.
    Dispatch(MumblePacket),
    /// Write this message to the client.
    Write(MumblePacket),
    /// Write this refusal to the client, then tear the session down.
    Refuse(Reject),
    /// Tear the session down.
    Close,
}

/// What an event is, mathematically.
pub enum EventView {
    Received(PacketView),
    ReceiveFailed,
    Admitted,
    Refused(crate::messages::RejectView),
    Queued(PacketView),
    QueueClosed,
    WriteFailed,
}

/// What an action is, mathematically.
pub enum ActionView {
    Continue,
    Authenticate(crate::messages::AuthenticateView),
    Dispatch(PacketView),
    Write(PacketView),
    Refuse(crate::messages::RejectView),
    Close,
}

impl View for Event {
    type V = EventView;

    open spec fn view(&self) -> EventView {
        match *self {
            Event::Received(p) => EventView::Received(p@),
            Event::ReceiveFailed => EventView::ReceiveFailed,
            Event::Admitted => EventView::Admitted,
            Event::Refused(r) => EventView::Refused(r@),
            Event::Queued(p) => EventView::Queued(p@),
            Event::QueueClosed => EventView::QueueClosed,
            Event::WriteFailed => EventView::WriteFailed,
        }
    }
}

impl View for Action {
    type V = ActionView;

    open spec fn view(&self) -> ActionView {
        match *self {
            Action::Continue => ActionView::Continue,
            Action::Authenticate(a) => ActionView::Authenticate(a@),
            Action::Dispatch(p) => ActionView::Dispatch(p@),
            Action::Write(p) => ActionView::Write(p@),
            Action::Refuse(r) => ActionView::Refuse(r@),
            Action::Close => ActionView::Close,
        }
    }
}

/// The phase after an event, and what the event calls for.
///
/// In each phase one thing is expected. The first message must be a
/// version, the second the credentials; the judgement of the credentials
/// admits or refuses; an established session dispatches what it receives
/// and writes what its queue yields. Everything else closes the session: a
/// message out of turn, a stream that ends or fails, a closed queue, a
/// failed write. A closed session stays closed and asks for nothing more.
pub open spec fn step(phase: Phase, event: EventView) -> (Phase, ActionView) {
    match (phase, event) {
        (Phase::Closed, _) => (Phase::Closed, ActionView::Continue),
        (Phase::AwaitingVersion, EventView::Received(PacketView::Version(_))) => (
            Phase::AwaitingAuthenticate,
            ActionView::Continue,
        ),
        (Phase::AwaitingAuthenticate, EventView::Received(PacketView::Authenticate(auth))) => (
            Phase::Authenticating,
            ActionView::Authenticate(auth),
        ),
        (Phase::Authenticating, EventView::Admitted) => (Phase::Established, ActionView::Continue),
        (Phase::Authenticating, EventView::Refused(reject)) => (
            Phase::Closed,
            ActionView::Refuse(reject),
        ),
        (Phase::Established, EventView::Received(packet)) => (
            Phase::Established,
            ActionView::Dispatch(packet),
        ),
        (Phase::Established, EventView::Queued(packet)) => (
            Phase::Established,
            ActionView::Write(packet),
        ),
        _ => (Phase::Closed, ActionView::Close),
    }
}

/// Says what an event calls for and which phase the session is in after
/// it.
pub fn next_action(phase: Phase, event: Event) -> (next: (Phase, Action))
    ensures
        (next.0, next.1@) == step(phase, event@),
{
    match phase {
        Phase::Closed => (Phase::Closed, Action::Continue),
        Phase::AwaitingVersion => match event {
            Event::Received(MumblePacket::Version(_)) => (
                Phase::AwaitingAuthenticate,
                Action::Continue,
            ),
            _ => (Phase::Closed, Action::Close),
        },
        Phase::AwaitingAuthenticate => match event {
            Event::Received(MumblePacket::Authenticate(auth)) => (
                Phase::Authenticating,
                Action::Authenticate(auth),
            ),
            _ => (Phase::Closed, Action::Close),
        },
        Phase::Authenticating => match event {
            Event::Admitted => (Phase::Established, Action::Continue),
            Event::Refused(reject) => (Phase::Closed, Action::Refuse(reject)),
            _ => (Phase::Closed, Action::Close),
        },
        Phase::Established => match event {
            Event::Received(packet) => (Phase::Established, Action::Dispatch(packet)),
            Event::Queued(packet) => (Phase::Established, Action::Write(packet)),
            _ => (Phase::Closed, Action::Close),
        },
    }
}

/// A session is established only by way of the handshake: from the start,
/// no two events lead there, and three do only if they are a version, the
/// credentials and an admission, in this order.
pub proof fn lemma_handshake_is_the_only_way_in(first: EventView, second: EventView, third: EventView)
    ensures
        step(Phase::AwaitingVersion, first).0 != Phase::Established,
        step(step(Phase::AwaitingVersion, first).0, second).0 != Phase::Established,
        step(step(step(Phase::AwaitingVersion, first).0, second).0, third).0 == Phase::Established
            <==> first is Received && first->Received_0 is Version && second is Received
            && second->Received_0 is Authenticate && third is Admitted,
{
}

/// A closed session stays closed, whatever happens.
pub proof fn lemma_closed_is_final(event: EventView)
    ensures
        step(Phase::Closed, event) == (Phase::Closed, ActionView::Continue),
{
}

/// The store after a session has ended.
pub open spec fn state_after_teardown(state: StateView, session_id: u32) -> StateView {
    state.without_peer(session_id)
}

/// Ends a session: takes it out of the presence store and offers every
/// remaining peer the notice that it has gone. Returns the notice and its
/// recipients.
///
/// The record leaves the store before anything else happens, and its
/// queue's sending end goes with it, so nothing is enqueued to a session
/// after its teardown. For a session that is not in the store nothing
/// happens and nobody is told, so a second teardown is harmless.
pub fn end_session(state: &mut SharedState, session_id: u32) -> (notice: Option<Outbound>)
    requires
        old(state).wf(),
    ensures
        final(state).wf(),
        final(state)@ == state_after_teardown(old(state)@, session_id),
        match notice {
            Some(notice) => old(state)@.peers.contains_key(session_id) && notice.carries(
                PacketView::UserRemove(session_id),
                final(state)@.peers.dom(),
            ),
            None => !old(state)@.peers.contains_key(session_id),
        },
{
    match state.remove_peer(session_id) {
        Some(_departed) => {
            let notice = Outbound {
                packet: MumblePacket::UserRemove(UserRemove { session: session_id }),
                recipients: state.list_peers(),
            };
            let _queued = deliver(state, &notice);
            Some(notice)
        },
        None => None,
    }
}

/// Teardown is idempotent: ending a session a second time changes nothing.
pub proof fn lemma_teardown_twice_is_once(state: StateView, session_id: u32)
    ensures
        state_after_teardown(state_after_teardown(state, session_id), session_id)
            == state_after_teardown(state, session_id),
        !state_after_teardown(state, session_id).peers.contains_key(session_id),
{
    let once = state_after_teardown(state, session_id);
    assert(once.peers.remove(session_id) =~= once.peers);
}

} // verus!

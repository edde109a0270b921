//! Session bootstrap: what happens between a successful login and the
//! steady state.
//!
//! The newcomer is given a session and a queue, is told of everybody
//! already there, and everybody already there is told of the newcomer. Then
//! the newcomer is sent the server's version, the channels, its own state,
//! the synchronisation message, and the recent lines of the root channel.

use crate::db::{DbChannel, DbChannelView, DbMessage, DbMessageView};
use crate::messages::{
    copy_opt_text, packet_views, ChannelState, ChannelStateView, MumblePacket, PacketView, ServerSync,
    ServerSyncView, TextMessage, TextMessageView, UserState, UserStateView, Version, VersionView,
};
use crate::delivery::{deliver, Outbound};
use crate::queue::{queue_channel, queue_try_send, Rx, OUTBOUND_CAPACITY};
use crate::state::{channel_views, Peer, PeerView, SharedState, StateView, ROOT_CHANNEL};
use vstd::prelude::*;
use vstd::string::StringExecFns;

verus! {

/// The version that the server announces: 1.3.0.
pub const SERVER_VERSION: u32 = 66304;

/// The bandwidth, in bits per second, that the server allows a client.
pub const MAX_BANDWIDTH: u32 = 128000;

/// A stored channel as clients are told of it. Identifiers are taken over
/// bit for bit.
pub open spec fn channel_record(row: DbChannelView) -> ChannelStateView {
    ChannelStateView {
        channel_id: Some(row.id as u32),
        parent: match row.parent_id {
            Some(parent) => Some(parent as u32),
            None => None,
        },
        name: Some(row.name),
        description: row.description,
    }
}

/// The store after the channels in `rows` have been put in, one after the
/// other: of two rows with one identifier, the later one stays.
pub open spec fn channels_loaded(state: StateView, rows: Seq<DbChannelView>) -> StateView
    decreases rows.len(),
{
    if rows.len() == 0 {
        state
    } else {
        channels_loaded(state, rows.drop_last()).with_channel(channel_record(rows.last()))
    }
}

/// The views of a list of stored channels.
pub open spec fn row_views(rows: Seq<DbChannel>) -> Seq<DbChannelView> {
    rows.map_values(|row: DbChannel| row@)
}

/// Puts the stored channels into the presence store and returns how many
/// channels the store then holds.
pub fn load_channels(channels: &Vec<DbChannel>, shared_state: &mut SharedState) -> (known: usize)
    requires
        old(shared_state).wf(),
    ensures
        final(shared_state).wf(),
        final(shared_state)@ == channels_loaded(old(shared_state)@, row_views(channels@)),
        known == final(shared_state)@.channels.len(),
{
    let mut loaded: usize = 0;
    assert(row_views(channels@).take(0) =~= Seq::<DbChannelView>::empty());
    while loaded < channels.len()
        invariant
            loaded <= channels@.len(),
            shared_state.wf(),
            shared_state@ == channels_loaded(
                old(shared_state)@,
                row_views(channels@).take(loaded as int),
            ),
        decreases channels@.len() - loaded,
    {
        let row = &channels[loaded];
        let record = ChannelState {
            channel_id: Some(#[verifier::truncate] (row.id as u32)),
            parent: match row.parent_id {
                Some(parent) => Some(#[verifier::truncate] (parent as u32)),
                None => None,
            },
            name: Some(row.name.clone()),
            description: copy_opt_text(&row.description),
        };
        assert(record@ == channel_record(row@));
        shared_state.insert_channel(record);
        proof {
            let rows = row_views(channels@);
            assert(rows.take(loaded + 1).drop_last() =~= rows.take(loaded as int));
            assert(rows.take(loaded + 1).last() == row@);
        }
        loaded += 1;
    }
    assert(row_views(channels@).take(loaded as int) =~= row_views(channels@));
    proof {
        vstd::std_specs::hash::axiom_spec_hash_map_len(&shared_state.channels);
        assert(shared_state@.channels.dom() =~= shared_state.channels@.dom());
    }
    shared_state.channels.len()
}

/// What a newcomer is told of a peer that is already there.
pub open spec fn describes(peer: PeerView) -> UserStateView {
    UserStateView {
        session: Some(peer.session_id),
        name: Some(peer.username),
        channel_id: Some(peer.channel_id),
        self_mute: Some(peer.self_mute),
        self_deaf: Some(peer.self_deaf),
        ..UserStateView::empty()
    }
}

/// What is told of a newcomer, to the others and to itself: its session,
/// its name, the session again as its user identifier, and the root
/// channel.
pub open spec fn introduces(session_id: u32, username: Seq<char>) -> UserStateView {
    UserStateView {
        session: Some(session_id),
        name: Some(username),
        user_id: Some(session_id),
        channel_id: Some(ROOT_CHANNEL),
        ..UserStateView::empty()
    }
}

fn introduction(session_id: u32, username: &str) -> (notice: UserState)
    ensures
        notice@ == introduces(session_id, username@),
{
    UserState {
        session: Some(session_id),
        name: Some(username.to_owned()),
        user_id: Some(session_id),
        channel_id: Some(ROOT_CHANNEL),
        self_mute: None,
        self_deaf: None,
    }
}

/// A newly admitted session.
pub struct Admission {
    /// The session that the newcomer was given.
    pub session_id: u32,
    /// The receiving end of the newcomer's outbound queue.
    pub rx: Rx,
    /// What the newcomer was told of the peers already there, one message
    /// for each, in the order of the announcement's recipients.
    pub roster: Vec<MumblePacket>,
    /// What the peers already there were told of the newcomer.
    pub announcement: Outbound,
}

/// Whether `admission` is what admitting `username` to the store `state`
/// leads to.
pub open spec fn admitted(state: StateView, username: Seq<char>, admission: Admission) -> bool {
    &&& admission.session_id == state.next_session_id
    &&& admission.announcement.carries(
        PacketView::UserState(introduces(admission.session_id, username)),
        state.peers.dom(),
    )
    &&& admission.roster@.len() == admission.announcement.recipients@.len()
    &&& forall|i: int|
        0 <= i < admission.roster@.len() ==> (#[trigger] admission.roster@[i])@
            == PacketView::UserState(
            describes(state.peers[admission.announcement.recipients@[i]]),
        )
}

/// The store after `username` has been admitted.
pub open spec fn state_after_admission(state: StateView, username: Seq<char>) -> StateView {
    state.with_counter_advanced().with_peer(PeerView::newcomer(state.next_session_id, username))
}

/// Admits a client that has logged in as `username`.
///
/// The newcomer is given the next session identifier and a fresh outbound
/// queue of [`OUTBOUND_CAPACITY`] slots. Its queue is offered one message for each peer already there;
/// each of those is offered the newcomer's introduction; then the newcomer
/// is put into the store. When no session identifier is left, nobody is
/// admitted and nothing changes.
pub fn admit_session(state: &mut SharedState, username: &str) -> (admission: Option<Admission>)
    requires
        old(state).wf(),
    ensures
        final(state).wf(),
        match admission {
            Some(admission) => {
                &&& old(state)@.next_session_id < u32::MAX
                &&& final(state)@ == state_after_admission(old(state)@, username@)
                &&& admitted(old(state)@, username@, admission)
            },
            None => old(state)@.next_session_id == u32::MAX && final(state)@ == old(state)@,
        },
{
    let session_id = match state.allocate_session_id() {
        Some(id) => id,
        None => {
            return None;
        },
    };
    let (tx, rx) = queue_channel(OUTBOUND_CAPACITY);
    let existing = state.list_peers();
    let mut roster: Vec<MumblePacket> = Vec::new();
    let mut told: usize = 0;
    while told < existing.len()
        invariant
            told <= existing@.len(),
            state@ == old(state)@.with_counter_advanced(),
            forall|id: u32| existing@.contains(id) <==> state@.peers.contains_key(id),
            roster@.len() == told,
            forall|i: int|
                0 <= i < told ==> (#[trigger] roster@[i])@ == PacketView::UserState(
                    describes(state@.peers[existing@[i]]),
                ),
        decreases existing@.len() - told,
    {
        assert(existing@.contains(existing@[told as int]));
        if let Some(peer) = state.get_peer(existing[told]) {
            let entry = MumblePacket::UserState(
                UserState {
                    session: Some(peer.session_id),
                    name: Some(peer.username.clone()),
                    user_id: None,
                    channel_id: Some(peer.channel_id),
                    self_mute: Some(peer.self_mute),
                    self_deaf: Some(peer.self_deaf),
                },
            );
            let _taken = queue_try_send(&tx, entry.clone());
            roster.push(entry);
        }
        told += 1;
    }
    let announcement = Outbound {
        packet: MumblePacket::UserState(introduction(session_id, username)),
        recipients: existing,
    };
    let _queued = deliver(state, &announcement);
    state.add_peer(session_id, Peer::new(tx, session_id, username.to_owned()));
    assert(old(state)@.with_counter_advanced().peers == old(state)@.peers);
    Some(Admission { session_id, rx, roster, announcement })
}

/// The server's version message.
pub open spec fn server_version() -> VersionView {
    VersionView { version: Some(SERVER_VERSION), ..VersionView::empty() }
}

/// The greeting that closes the handshake.
pub open spec fn welcome_text() -> Seq<char> {
    "Welcome to Vvoice Rust Server! Type /echo to toggle loopback."@
}

/// The synchronisation message for a session.
pub open spec fn server_sync(session_id: u32) -> ServerSyncView {
    ServerSyncView {
        session: Some(session_id),
        max_bandwidth: Some(MAX_BANDWIDTH),
        welcome_text: Some(welcome_text()),
        permissions: None,
    }
}

/// The channel that a packet tells of, if it tells of one.
pub open spec fn channel_told(packet: PacketView) -> ChannelStateView {
    match packet {
        PacketView::ChannelState(channel) => channel,
        _ => ChannelStateView::empty(),
    }
}

/// Whether `welcome` is what a newcomer is sent once it is admitted: the
/// server's version; every channel, in ascending order of identifiers; the
/// newcomer's own state; the synchronisation message.
pub open spec fn is_welcome(
    state: StateView,
    session_id: u32,
    username: Seq<char>,
    welcome: Seq<PacketView>,
) -> bool {
    let channels = state.channels.len() as int;
    &&& welcome.len() == channels + 3
    &&& welcome[0] == PacketView::Version(server_version())
    &&& forall|i: int| 1 <= i <= channels ==> #[trigger] welcome[i] is ChannelState
    &&& state.is_channel_listing(Seq::new(state.channels.len(), |i: int| channel_told(welcome[i + 1])))
    &&& welcome[channels + 1] == PacketView::UserState(introduces(session_id, username))
    &&& welcome[channels + 2] == PacketView::ServerSync(server_sync(session_id))
}

/// The messages that a newcomer is sent once it is admitted, in the order
/// in which they are to be written.
pub fn welcome_packets(state: &SharedState, session_id: u32, username: &str) -> (welcome: Vec<
    MumblePacket,
>)
    requires
        state.wf(),
    ensures
        is_welcome(state@, session_id, username@, packet_views(welcome@)),
{
    let mut welcome: Vec<MumblePacket> = Vec::new();
    let mut version = Version::default();
    version.version = Some(SERVER_VERSION);
    welcome.push(MumblePacket::Version(version));
    let channels = state.list_channels();
    let ghost listing = channel_views(channels@);
    let mut listed: usize = 0;
    while listed < channels.len()
        invariant
            listed <= channels@.len(),
            listing == channel_views(channels@),
            welcome@.len() == listed + 1,
            welcome@[0]@ == PacketView::Version(server_version()),
            forall|i: int|
                1 <= i <= listed ==> (#[trigger] welcome@[i])@ == PacketView::ChannelState(
                    listing[i - 1],
                ),
        decreases channels@.len() - listed,
    {
        welcome.push(MumblePacket::ChannelState(channels[listed].duplicate()));
        listed += 1;
    }
    welcome.push(MumblePacket::UserState(introduction(session_id, username)));
    let mut sync = ServerSync::default();
    sync.session = Some(session_id);
    sync.max_bandwidth = Some(MAX_BANDWIDTH);
    sync.welcome_text = Some(
        "Welcome to Vvoice Rust Server! Type /echo to toggle loopback.".to_owned(),
    );
    welcome.push(MumblePacket::ServerSync(sync));
    proof {
        let views = packet_views(welcome@);
        let told = Seq::new(state@.channels.len(), |i: int| channel_told(views[i + 1]));
        assert(told =~= listing) by {
            assert forall|i: int| 0 <= i < listing.len() implies told[i] == listing[i] by {
                assert(views[i + 1] == welcome@[i + 1]@);
            }
        }
        assert forall|i: int| 1 <= i <= state@.channels.len() implies #[trigger] views[i]
            is ChannelState by {
            assert(views[i] == welcome@[i]@);
        }
    }
    welcome
}

/// A stored line of chat as it is shown to the session that asked for it:
/// prefixed, with the name of whoever said it, and with the time it was
/// stored at, if that is known.
pub open spec fn history_line(session_id: u32, row: DbMessageView) -> TextMessageView {
    TextMessageView {
        session: seq![session_id],
        message: "[History] "@ + row.sender_name + ": "@ + row.content,
        timestamp: match row.created_at {
            Some(time) => Some(time as u64),
            None => None,
        },
        ..TextMessageView::empty()
    }
}

/// The recent lines of a channel as messages for `session_id`, in the
/// order of `rows`, which is the order they were written in.
pub fn history_packets(session_id: u32, rows: &Vec<DbMessage>) -> (history: Vec<MumblePacket>)
    ensures
        history@.len() == rows@.len(),
        forall|i: int|
            0 <= i < rows@.len() ==> (#[trigger] history@[i])@ == PacketView::TextMessage(
                history_line(session_id, rows@[i]@),
            ),
{
    let mut history: Vec<MumblePacket> = Vec::new();
    let mut shown: usize = 0;
    while shown < rows.len()
        invariant
            shown <= rows@.len(),
            history@.len() == shown,
            forall|i: int|
                0 <= i < shown ==> (#[trigger] history@[i])@ == PacketView::TextMessage(
                    history_line(session_id, rows@[i]@),
                ),
        decreases rows@.len() - shown,
    {
        let row = &rows[shown];
        let mut line = "[History] ".to_owned();
        line.append(row.sender_name.as_str());
        line.append(": ");
        line.append(row.content.as_str());
        let mut text = TextMessage::default();
        text.message = line;
        text.session = vec![session_id];
        text.timestamp = match row.created_at {
            Some(time) => Some(#[verifier::truncate] (time as u64)),
            None => None,
        };
        assert(text.session@ =~= seq![session_id]);
        history.push(MumblePacket::TextMessage(text));
        shown += 1;
    }
    history
}

} // verus!

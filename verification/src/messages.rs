//! The messages that the session engine reads and writes, as plain values.
//!
//! Each message holds the fields that the engine looks at or fills in. How a
//! message is laid out inside a frame's payload is fixed by the protocol
//! schema and is not this module's concern; kinds that the engine only
//! passes along are kept as the undecoded record.

use crate::kind::MessageKind;
use vstd::prelude::*;
use vstd::slice::slice_to_vec;

verus! {

/// An optional string as an optional sequence of characters.
pub open spec fn opt_text(s: Option<String>) -> Option<Seq<char>> {
    match s {
        Some(s) => Some(s@),
        None => None,
    }
}

/// A copy of an optional string.
pub fn copy_opt_text(s: &Option<String>) -> (copy: Option<String>)
    ensures
        opt_text(copy) == opt_text(*s),
{
    match s {
        Some(s) => Some(s.clone()),
        None => None,
    }
}

/// Protocol version announcement.
#[derive(Clone, Debug)]
pub struct Version {
    pub version: Option<u32>,
    pub release: Option<String>,
    pub os: Option<String>,
    pub os_version: Option<String>,
}

pub struct VersionView {
    pub version: Option<u32>,
    pub release: Option<Seq<char>>,
    pub os: Option<Seq<char>>,
    pub os_version: Option<Seq<char>>,
}

impl View for Version {
    type V = VersionView;

    open spec fn view(&self) -> VersionView {
        VersionView {
            version: self.version,
            release: opt_text(self.release),
            os: opt_text(self.os),
            os_version: opt_text(self.os_version),
        }
    }
}

impl VersionView {
    /// The message with no field set.
    pub open spec fn empty() -> VersionView {
        VersionView { version: None, release: None, os: None, os_version: None }
    }
}

impl Default for Version {
    fn default() -> (r: Version)
        ensures
            r@ == VersionView::empty(),
    {
        Version { version: None, release: None, os: None, os_version: None }
    }
}

/// Voice data on its way through the control channel. The bytes are never
/// looked at.
#[derive(Clone, Debug)]
pub struct UdpTunnel {
    pub packet: Vec<u8>,
}

impl View for UdpTunnel {
    type V = Seq<u8>;

    open spec fn view(&self) -> Seq<u8> {
        self.packet@
    }
}

/// The record of a message that the engine does not interpret.
#[derive(Clone, Debug)]
pub struct Record {
    pub bytes: Vec<u8>,
}

impl View for Record {
    type V = Seq<u8>;

    open spec fn view(&self) -> Seq<u8> {
        self.bytes@
    }
}

/// The credentials that a client presents.
#[derive(Clone, Debug)]
pub struct Authenticate {
    pub username: Option<String>,
    pub password: Option<String>,
}

pub struct AuthenticateView {
    pub username: Option<Seq<char>>,
    pub password: Option<Seq<char>>,
}

impl View for Authenticate {
    type V = AuthenticateView;

    open spec fn view(&self) -> AuthenticateView {
        AuthenticateView {
            username: opt_text(self.username),
            password: opt_text(self.password),
        }
    }
}

impl Default for Authenticate {
    fn default() -> (r: Authenticate)
        ensures
            r@ == (AuthenticateView { username: None, password: None }),
    {
        Authenticate { username: None, password: None }
    }
}

/// The rejection type that tells a client its password was wrong.
pub const REJECT_WRONG_PASSWORD: i32 = 1;

/// Refusal of a connection.
#[derive(Clone, Debug)]
pub struct Reject {
    pub reject_type: Option<i32>,
    pub reason: Option<String>,
}

pub struct RejectView {
    pub reject_type: Option<i32>,
    pub reason: Option<Seq<char>>,
}

impl View for Reject {
    type V = RejectView;

    open spec fn view(&self) -> RejectView {
        RejectView { reject_type: self.reject_type, reason: opt_text(self.reason) }
    }
}

impl Default for Reject {
    fn default() -> (r: Reject)
        ensures
            r@ == (RejectView { reject_type: None, reason: None }),
    {
        Reject { reject_type: None, reason: None }
    }
}

/// The end of the handshake: the session the client was given.
#[derive(Clone, Debug)]
pub struct ServerSync {
    pub session: Option<u32>,
    pub max_bandwidth: Option<u32>,
    pub welcome_text: Option<String>,
    pub permissions: Option<u64>,
}

pub struct ServerSyncView {
    pub session: Option<u32>,
    pub max_bandwidth: Option<u32>,
    pub welcome_text: Option<Seq<char>>,
    pub permissions: Option<u64>,
}

impl View for ServerSync {
    type V = ServerSyncView;

    open spec fn view(&self) -> ServerSyncView {
        ServerSyncView {
            session: self.session,
            max_bandwidth: self.max_bandwidth,
            welcome_text: opt_text(self.welcome_text),
            permissions: self.permissions,
        }
    }
}

impl Default for ServerSync {
    fn default() -> (r: ServerSync)
        ensures
            r@ == (ServerSyncView {
                session: None,
                max_bandwidth: None,
                welcome_text: None,
                permissions: None,
            }),
    {
        ServerSync { session: None, max_bandwidth: None, welcome_text: None, permissions: None }
    }
}

/// A channel as clients are told of it.
#[derive(Clone, Debug)]
pub struct ChannelState {
    pub channel_id: Option<u32>,
    pub parent: Option<u32>,
    pub name: Option<String>,
    pub description: Option<String>,
}

pub struct ChannelStateView {
    pub channel_id: Option<u32>,
    pub parent: Option<u32>,
    pub name: Option<Seq<char>>,
    pub description: Option<Seq<char>>,
}

impl View for ChannelState {
    type V = ChannelStateView;

    open spec fn view(&self) -> ChannelStateView {
        ChannelStateView {
            channel_id: self.channel_id,
            parent: self.parent,
            name: opt_text(self.name),
            description: opt_text(self.description),
        }
    }
}

impl ChannelStateView {
    /// The message with no field set.
    pub open spec fn empty() -> ChannelStateView {
        ChannelStateView { channel_id: None, parent: None, name: None, description: None }
    }
}

impl Default for ChannelState {
    fn default() -> (r: ChannelState)
        ensures
            r@ == ChannelStateView::empty(),
    {
        ChannelState { channel_id: None, parent: None, name: None, description: None }
    }
}

impl ChannelState {
    /// A copy with the same content.
    pub fn duplicate(&self) -> (copy: ChannelState)
        ensures
            copy@ == self@,
    {
        ChannelState {
            channel_id: self.channel_id,
            parent: self.parent,
            name: copy_opt_text(&self.name),
            description: copy_opt_text(&self.description),
        }
    }
}

/// Notice that a session has ended.
#[derive(Clone, Debug)]
pub struct UserRemove {
    pub session: u32,
}

impl View for UserRemove {
    type V = u32;

    open spec fn view(&self) -> u32 {
        self.session
    }
}

impl Default for UserRemove {
    fn default() -> (r: UserRemove)
        ensures
            r@ == 0,
    {
        UserRemove { session: 0 }
    }
}

/// What is told, or asked, of one user. Every field is optional: a message
/// speaks of the fields it sets and of no others.
#[derive(Clone, Debug)]
pub struct UserState {
    pub session: Option<u32>,
    pub name: Option<String>,
    pub user_id: Option<u32>,
    pub channel_id: Option<u32>,
    pub self_mute: Option<bool>,
    pub self_deaf: Option<bool>,
}

pub struct UserStateView {
    pub session: Option<u32>,
    pub name: Option<Seq<char>>,
    pub user_id: Option<u32>,
    pub channel_id: Option<u32>,
    pub self_mute: Option<bool>,
    pub self_deaf: Option<bool>,
}

impl View for UserState {
    type V = UserStateView;

    open spec fn view(&self) -> UserStateView {
        UserStateView {
            session: self.session,
            name: opt_text(self.name),
            user_id: self.user_id,
            channel_id: self.channel_id,
            self_mute: self.self_mute,
            self_deaf: self.self_deaf,
        }
    }
}

impl UserStateView {
    /// The message with no field set.
    pub open spec fn empty() -> UserStateView {
        UserStateView {
            session: None,
            name: None,
            user_id: None,
            channel_id: None,
            self_mute: None,
            self_deaf: None,
        }
    }
}

impl Default for UserState {
    fn default() -> (r: UserState)
        ensures
            r@ == UserStateView::empty(),
    {
        UserState {
            session: None,
            name: None,
            user_id: None,
            channel_id: None,
            self_mute: None,
            self_deaf: None,
        }
    }
}

/// A line of chat.
#[derive(Clone, Debug)]
pub struct TextMessage {
    pub actor: Option<u32>,
    pub session: Vec<u32>,
    pub channel_id: Vec<u32>,
    pub tree_id: Vec<u32>,
    pub message: String,
    pub timestamp: Option<u64>,
}

pub struct TextMessageView {
    pub actor: Option<u32>,
    pub session: Seq<u32>,
    pub channel_id: Seq<u32>,
    pub tree_id: Seq<u32>,
    pub message: Seq<char>,
    pub timestamp: Option<u64>,
}

impl View for TextMessage {
    type V = TextMessageView;

    open spec fn view(&self) -> TextMessageView {
        TextMessageView {
            actor: self.actor,
            session: self.session@,
            channel_id: self.channel_id@,
            tree_id: self.tree_id@,
            message: self.message@,
            timestamp: self.timestamp,
        }
    }
}

impl TextMessageView {
    /// The message with no field set and nothing said.
    pub open spec fn empty() -> TextMessageView {
        TextMessageView {
            actor: None,
            session: Seq::empty(),
            channel_id: Seq::empty(),
            tree_id: Seq::empty(),
            message: Seq::empty(),
            timestamp: None,
        }
    }
}

impl Default for TextMessage {
    fn default() -> (r: TextMessage)
        ensures
            r@ == TextMessageView::empty(),
    {
        TextMessage {
            actor: None,
            session: Vec::new(),
            channel_id: Vec::new(),
            tree_id: Vec::new(),
            message: String::new(),
            timestamp: None,
        }
    }
}

/// A message of the control channel, by kind.
#[derive(Clone, Debug)]
pub enum MumblePacket {
    Version(Version),
    UDPTunnel(UdpTunnel),
    Authenticate(Authenticate),
    Ping(Record),
    Reject(Reject),
    ServerSync(ServerSync),
    ChannelRemove(Record),
    ChannelState(ChannelState),
    UserRemove(UserRemove),
    UserState(UserState),
    BanList(Record),
    TextMessage(TextMessage),
    PermissionDenied(Record),
    ACL(Record),
    QueryUsers(Record),
    CryptSetup(Record),
    ContextActionModify(Record),
    ContextAction(Record),
    UserList(Record),
    VoiceTarget(Record),
    PermissionQuery(Record),
    CodecVersion(Record),
    UserStats(Record),
    RequestBlob(Record),
    ServerConfig(Record),
    SuggestConfig(Record),
}

/// What a packet is, mathematically: the interpreted messages by their
/// fields, the others by their kind and record.
pub enum PacketView {
    Version(VersionView),
    UDPTunnel(Seq<u8>),
    Authenticate(AuthenticateView),
    Reject(RejectView),
    ServerSync(ServerSyncView),
    ChannelState(ChannelStateView),
    UserRemove(u32),
    UserState(UserStateView),
    TextMessage(TextMessageView),
    Uninterpreted(MessageKind, Seq<u8>),
}

impl View for MumblePacket {
    type V = PacketView;

    open spec fn view(&self) -> PacketView {
        match *self {
            MumblePacket::Version(m) => PacketView::Version(m@),
            MumblePacket::UDPTunnel(m) => PacketView::UDPTunnel(m@),
            MumblePacket::Authenticate(m) => PacketView::Authenticate(m@),
            MumblePacket::Reject(m) => PacketView::Reject(m@),
            MumblePacket::ServerSync(m) => PacketView::ServerSync(m@),
            MumblePacket::ChannelState(m) => PacketView::ChannelState(m@),
            MumblePacket::UserRemove(m) => PacketView::UserRemove(m@),
            MumblePacket::UserState(m) => PacketView::UserState(m@),
            MumblePacket::TextMessage(m) => PacketView::TextMessage(m@),
            MumblePacket::Ping(r) => PacketView::Uninterpreted(MessageKind::Ping, r@),
            MumblePacket::ChannelRemove(r) => PacketView::Uninterpreted(
                MessageKind::ChannelRemove,
                r@,
            ),
            MumblePacket::BanList(r) => PacketView::Uninterpreted(MessageKind::BanList, r@),
            MumblePacket::PermissionDenied(r) => PacketView::Uninterpreted(
                MessageKind::PermissionDenied,
                r@,
            ),
            MumblePacket::ACL(r) => PacketView::Uninterpreted(MessageKind::ACL, r@),
            MumblePacket::QueryUsers(r) => PacketView::Uninterpreted(MessageKind::QueryUsers, r@),
            MumblePacket::CryptSetup(r) => PacketView::Uninterpreted(MessageKind::CryptSetup, r@),
            MumblePacket::ContextActionModify(r) => PacketView::Uninterpreted(
                MessageKind::ContextActionModify,
                r@,
            ),
            MumblePacket::ContextAction(r) => PacketView::Uninterpreted(
                MessageKind::ContextAction,
                r@,
            ),
            MumblePacket::UserList(r) => PacketView::Uninterpreted(MessageKind::UserList, r@),
            MumblePacket::VoiceTarget(r) => PacketView::Uninterpreted(MessageKind::VoiceTarget, r@),
            MumblePacket::PermissionQuery(r) => PacketView::Uninterpreted(
                MessageKind::PermissionQuery,
                r@,
            ),
            MumblePacket::CodecVersion(r) => PacketView::Uninterpreted(
                MessageKind::CodecVersion,
                r@,
            ),
            MumblePacket::UserStats(r) => PacketView::Uninterpreted(MessageKind::UserStats, r@),
            MumblePacket::RequestBlob(r) => PacketView::Uninterpreted(MessageKind::RequestBlob, r@),
            MumblePacket::ServerConfig(r) => PacketView::Uninterpreted(
                MessageKind::ServerConfig,
                r@,
            ),
            MumblePacket::SuggestConfig(r) => PacketView::Uninterpreted(
                MessageKind::SuggestConfig,
                r@,
            ),
        }
    }
}

/// The views of a list of packets.
pub open spec fn packet_views(packets: Seq<MumblePacket>) -> Seq<PacketView> {
    packets.map_values(|p: MumblePacket| p@)
}

/// The kind of a packet, read off its view.
pub open spec fn kind_of(packet: PacketView) -> MessageKind {
    match packet {
        PacketView::Version(_) => MessageKind::Version,
        PacketView::UDPTunnel(_) => MessageKind::UDPTunnel,
        PacketView::Authenticate(_) => MessageKind::Authenticate,
        PacketView::Reject(_) => MessageKind::Reject,
        PacketView::ServerSync(_) => MessageKind::ServerSync,
        PacketView::ChannelState(_) => MessageKind::ChannelState,
        PacketView::UserRemove(_) => MessageKind::UserRemove,
        PacketView::UserState(_) => MessageKind::UserState,
        PacketView::TextMessage(_) => MessageKind::TextMessage,
        PacketView::Uninterpreted(kind, _) => kind,
    }
}

impl MumblePacket {
    /// The kind of this packet, which is also its place in the type table.
    pub fn kind(&self) -> (kind: MessageKind)
        ensures
            kind == kind_of(self@),
    {
        match self {
            MumblePacket::Version(_) => MessageKind::Version,
            MumblePacket::UDPTunnel(_) => MessageKind::UDPTunnel,
            MumblePacket::Authenticate(_) => MessageKind::Authenticate,
            MumblePacket::Ping(_) => MessageKind::Ping,
            MumblePacket::Reject(_) => MessageKind::Reject,
            MumblePacket::ServerSync(_) => MessageKind::ServerSync,
            MumblePacket::ChannelRemove(_) => MessageKind::ChannelRemove,
            MumblePacket::ChannelState(_) => MessageKind::ChannelState,
            MumblePacket::UserRemove(_) => MessageKind::UserRemove,
            MumblePacket::UserState(_) => MessageKind::UserState,
            MumblePacket::BanList(_) => MessageKind::BanList,
            MumblePacket::TextMessage(_) => MessageKind::TextMessage,
            MumblePacket::PermissionDenied(_) => MessageKind::PermissionDenied,
            MumblePacket::ACL(_) => MessageKind::ACL,
            MumblePacket::QueryUsers(_) => MessageKind::QueryUsers,
            MumblePacket::CryptSetup(_) => MessageKind::CryptSetup,
            MumblePacket::ContextActionModify(_) => MessageKind::ContextActionModify,
            MumblePacket::ContextAction(_) => MessageKind::ContextAction,
            MumblePacket::UserList(_) => MessageKind::UserList,
            MumblePacket::VoiceTarget(_) => MessageKind::VoiceTarget,
            MumblePacket::PermissionQuery(_) => MessageKind::PermissionQuery,
            MumblePacket::CodecVersion(_) => MessageKind::CodecVersion,
            MumblePacket::UserStats(_) => MessageKind::UserStats,
            MumblePacket::RequestBlob(_) => MessageKind::RequestBlob,
            MumblePacket::ServerConfig(_) => MessageKind::ServerConfig,
            MumblePacket::SuggestConfig(_) => MessageKind::SuggestConfig,
        }
    }
}

/// A copy of a vector of numbers.
pub fn copy_ids(ids: &Vec<u32>) -> (copy: Vec<u32>)
    ensures
        copy@ == ids@,
{
    slice_to_vec(ids.as_slice())
}

} // verus!

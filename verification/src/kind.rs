//! The type table: the two-byte number that opens every frame and the
//! message kind it stands for.

use vstd::prelude::*;

verus! {

/// The kinds of message that travel over the control channel, in the order of
/// their wire numbers.
#[derive(Clone, Copy, Debug, PartialEq, Eq, Structural)]
pub enum MessageKind {
    Version,
    UDPTunnel,
    Authenticate,
    Ping,
    Reject,
    ServerSync,
    ChannelRemove,
    ChannelState,
    UserRemove,
    UserState,
    BanList,
    TextMessage,
    PermissionDenied,
    ACL,
    QueryUsers,
    CryptSetup,
    ContextActionModify,
    ContextAction,
    UserList,
    VoiceTarget,
    PermissionQuery,
    CodecVersion,
    UserStats,
    RequestBlob,
    ServerConfig,
    SuggestConfig,
}

/// The largest wire number that names a kind.
pub const LAST_WIRE_TYPE: u16 = 25;

/// The wire number of a kind.
pub open spec fn wire_type_of(kind: MessageKind) -> u16 {
    match kind {
        MessageKind::Version => 0,
        MessageKind::UDPTunnel => 1,
        MessageKind::Authenticate => 2,
        MessageKind::Ping => 3,
        MessageKind::Reject => 4,
        MessageKind::ServerSync => 5,
        MessageKind::ChannelRemove => 6,
        MessageKind::ChannelState => 7,
        MessageKind::UserRemove => 8,
        MessageKind::UserState => 9,
        MessageKind::BanList => 10,
        MessageKind::TextMessage => 11,
        MessageKind::PermissionDenied => 12,
        MessageKind::ACL => 13,
        MessageKind::QueryUsers => 14,
        MessageKind::CryptSetup => 15,
        MessageKind::ContextActionModify => 16,
        MessageKind::ContextAction => 17,
        MessageKind::UserList => 18,
        MessageKind::VoiceTarget => 19,
        MessageKind::PermissionQuery => 20,
        MessageKind::CodecVersion => 21,
        MessageKind::UserStats => 22,
        MessageKind::RequestBlob => 23,
        MessageKind::ServerConfig => 24,
        MessageKind::SuggestConfig => 25,
    }
}

/// The kind that a wire number names, if it names one.
pub open spec fn kind_of_wire_type(wire: u16) -> Option<MessageKind> {
    if wire == 0 {
        Some(MessageKind::Version)
    } else if wire == 1 {
        Some(MessageKind::UDPTunnel)
    } else if wire == 2 {
        Some(MessageKind::Authenticate)
    } else if wire == 3 {
        Some(MessageKind::Ping)
    } else if wire == 4 {
        Some(MessageKind::Reject)
    } else if wire == 5 {
        Some(MessageKind::ServerSync)
    } else if wire == 6 {
        Some(MessageKind::ChannelRemove)
    } else if wire == 7 {
        Some(MessageKind::ChannelState)
    } else if wire == 8 {
        Some(MessageKind::UserRemove)
    } else if wire == 9 {
        Some(MessageKind::UserState)
    } else if wire == 10 {
        Some(MessageKind::BanList)
    } else if wire == 11 {
        Some(MessageKind::TextMessage)
    } else if wire == 12 {
        Some(MessageKind::PermissionDenied)
    } else if wire == 13 {
        Some(MessageKind::ACL)
    } else if wire == 14 {
        Some(MessageKind::QueryUsers)
    } else if wire == 15 {
        Some(MessageKind::CryptSetup)
    } else if wire == 16 {
        Some(MessageKind::ContextActionModify)
    } else if wire == 17 {
        Some(MessageKind::ContextAction)
    } else if wire == 18 {
        Some(MessageKind::UserList)
    } else if wire == 19 {
        Some(MessageKind::VoiceTarget)
    } else if wire == 20 {
        Some(MessageKind::PermissionQuery)
    } else if wire == 21 {
        Some(MessageKind::CodecVersion)
    } else if wire == 22 {
        Some(MessageKind::UserStats)
    } else if wire == 23 {
        Some(MessageKind::RequestBlob)
    } else if wire == 24 {
        Some(MessageKind::ServerConfig)
    } else if wire == 25 {
        Some(MessageKind::SuggestConfig)
    } else {
        None
    }
}

impl MessageKind {
    /// The number that stands for this kind in a frame header.
    pub fn wire_type(self) -> (wire: u16)
        ensures
            wire == wire_type_of(self),
            wire <= LAST_WIRE_TYPE,
    {
        match self {
            MessageKind::Version => 0,
            MessageKind::UDPTunnel => 1,
            MessageKind::Authenticate => 2,
            MessageKind::Ping => 3,
            MessageKind::Reject => 4,
            MessageKind::ServerSync => 5,
            MessageKind::ChannelRemove => 6,
            MessageKind::ChannelState => 7,
            MessageKind::UserRemove => 8,
            MessageKind::UserState => 9,
            MessageKind::BanList => 10,
            MessageKind::TextMessage => 11,
            MessageKind::PermissionDenied => 12,
            MessageKind::ACL => 13,
            MessageKind::QueryUsers => 14,
            MessageKind::CryptSetup => 15,
            MessageKind::ContextActionModify => 16,
            MessageKind::ContextAction => 17,
            MessageKind::UserList => 18,
            MessageKind::VoiceTarget => 19,
            MessageKind::PermissionQuery => 20,
            MessageKind::CodecVersion => 21,
            MessageKind::UserStats => 22,
            MessageKind::RequestBlob => 23,
            MessageKind::ServerConfig => 24,
            MessageKind::SuggestConfig => 25,
        }
    }

    /// Looks a wire number up in the type table. Numbers above the last entry
    /// name nothing.
    pub fn from_wire_type(wire: u16) -> (kind: Option<MessageKind>)
        ensures
            kind == kind_of_wire_type(wire),
            kind is Some <==> wire <= LAST_WIRE_TYPE,
    {
        match wire {
            0 => Some(MessageKind::Version),
            1 => Some(MessageKind::UDPTunnel),
            2 => Some(MessageKind::Authenticate),
            3 => Some(MessageKind::Ping),
            4 => Some(MessageKind::Reject),
            5 => Some(MessageKind::ServerSync),
            6 => Some(MessageKind::ChannelRemove),
            7 => Some(MessageKind::ChannelState),
            8 => Some(MessageKind::UserRemove),
            9 => Some(MessageKind::UserState),
            10 => Some(MessageKind::BanList),
            11 => Some(MessageKind::TextMessage),
            12 => Some(MessageKind::PermissionDenied),
            13 => Some(MessageKind::ACL),
            14 => Some(MessageKind::QueryUsers),
            15 => Some(MessageKind::CryptSetup),
            16 => Some(MessageKind::ContextActionModify),
            17 => Some(MessageKind::ContextAction),
            18 => Some(MessageKind::UserList),
            19 => Some(MessageKind::VoiceTarget),
            20 => Some(MessageKind::PermissionQuery),
            21 => Some(MessageKind::CodecVersion),
            22 => Some(MessageKind::UserStats),
            23 => Some(MessageKind::RequestBlob),
            24 => Some(MessageKind::ServerConfig),
            25 => Some(MessageKind::SuggestConfig),
            _ => None,
        }
    }
}

/// Every kind is found again under its own wire number.
pub proof fn lemma_kind_survives_table(kind: MessageKind)
    ensures
        kind_of_wire_type(wire_type_of(kind)) == Some(kind),
        wire_type_of(kind) <= LAST_WIRE_TYPE,
{
}

/// Every wire number that names a kind is the number of that kind, and the
/// numbers that name one are exactly those up to the last entry.
pub proof fn lemma_wire_type_survives_table(wire: u16)
    ensures
        kind_of_wire_type(wire) is Some <==> wire <= LAST_WIRE_TYPE,
        kind_of_wire_type(wire) matches Some(kind) ==> wire_type_of(kind) == wire,
{
}

} // verus!

//! Packets whose payload travels as it is.
//!
//! Most kinds of message carry a record of the protocol schema. The engine
//! reads some of them and so needs them decoded, which is the schema's
//! business. The rest it only passes along or drops: those, and voice data,
//! go between frame and packet here, byte for byte. Whether such a record
//! is well formed is not looked at.

use crate::codec::{Frame, FrameView};
use crate::kind::MessageKind;
use crate::messages::{kind_of, MumblePacket, PacketView, Record, UdpTunnel};
use vstd::prelude::*;

verus! {

/// Whether the engine reads the fields of messages of this kind.
pub open spec fn is_interpreted(kind: MessageKind) -> bool {
    match kind {
        MessageKind::Version => true,
        MessageKind::Authenticate => true,
        MessageKind::Reject => true,
        MessageKind::ServerSync => true,
        MessageKind::ChannelState => true,
        MessageKind::UserRemove => true,
        MessageKind::UserState => true,
        MessageKind::TextMessage => true,
        _ => false,
    }
}

/// The packet that a frame of an uninterpreted kind is, payload untouched.
/// A frame of an interpreted kind is no packet until its record is decoded.
pub open spec fn packet_as_is(frame: FrameView) -> Option<PacketView> {
    if is_interpreted(frame.kind) {
        None
    } else if frame.kind == MessageKind::UDPTunnel {
        Some(PacketView::UDPTunnel(frame.payload))
    } else {
        Some(PacketView::Uninterpreted(frame.kind, frame.payload))
    }
}

/// The frame that a packet of an uninterpreted kind is, payload untouched.
/// A packet of an interpreted kind is no frame until its record is encoded.
pub open spec fn frame_as_is(packet: PacketView) -> Option<FrameView> {
    match packet {
        PacketView::UDPTunnel(bytes) => Some(
            FrameView { kind: MessageKind::UDPTunnel, payload: bytes },
        ),
        PacketView::Uninterpreted(kind, bytes) => Some(FrameView { kind, payload: bytes }),
        _ => None,
    }
}

/// Turns a frame of an uninterpreted kind into its packet. A frame of an
/// interpreted kind is handed back unchanged.
pub fn packet_from_frame(frame: Frame) -> (packet: Result<MumblePacket, Frame>)
    ensures
        match packet {
            Ok(packet) => packet_as_is(frame@) == Some(packet@),
            Err(back) => packet_as_is(frame@) is None && back@ == frame@,
        },
{
    let Frame { kind, payload } = frame;
    match kind {
        MessageKind::UDPTunnel => Ok(MumblePacket::UDPTunnel(UdpTunnel { packet: payload })),
        MessageKind::Ping => Ok(MumblePacket::Ping(Record { bytes: payload })),
        MessageKind::ChannelRemove => Ok(MumblePacket::ChannelRemove(Record { bytes: payload })),
        MessageKind::BanList => Ok(MumblePacket::BanList(Record { bytes: payload })),
        MessageKind::PermissionDenied => Ok(
            MumblePacket::PermissionDenied(Record { bytes: payload }),
        ),
        MessageKind::ACL => Ok(MumblePacket::ACL(Record { bytes: payload })),
        MessageKind::QueryUsers => Ok(MumblePacket::QueryUsers(Record { bytes: payload })),
        MessageKind::CryptSetup => Ok(MumblePacket::CryptSetup(Record { bytes: payload })),
        MessageKind::ContextActionModify => Ok(
            MumblePacket::ContextActionModify(Record { bytes: payload }),
        ),
        MessageKind::ContextAction => Ok(MumblePacket::ContextAction(Record { bytes: payload })),
        MessageKind::UserList => Ok(MumblePacket::UserList(Record { bytes: payload })),
        MessageKind::VoiceTarget => Ok(MumblePacket::VoiceTarget(Record { bytes: payload })),
        MessageKind::PermissionQuery => Ok(
            MumblePacket::PermissionQuery(Record { bytes: payload }),
        ),
        MessageKind::CodecVersion => Ok(MumblePacket::CodecVersion(Record { bytes: payload })),
        MessageKind::UserStats => Ok(MumblePacket::UserStats(Record { bytes: payload })),
        MessageKind::RequestBlob => Ok(MumblePacket::RequestBlob(Record { bytes: payload })),
        MessageKind::ServerConfig => Ok(MumblePacket::ServerConfig(Record { bytes: payload })),
        MessageKind::SuggestConfig => Ok(MumblePacket::SuggestConfig(Record { bytes: payload })),
        _ => Err(Frame { kind, payload }),
    }
}

/// Turns a packet of an uninterpreted kind into its frame. A packet of an
/// interpreted kind is handed back unchanged.
pub fn frame_from_packet(packet: MumblePacket) -> (frame: Result<Frame, MumblePacket>)
    ensures
        match frame {
            Ok(frame) => frame_as_is(packet@) == Some(frame@),
            Err(back) => frame_as_is(packet@) is None && back@ == packet@,
        },
{
    let kind = packet.kind();
    match packet {
        MumblePacket::UDPTunnel(voice) => Ok(Frame { kind, payload: voice.packet }),
        MumblePacket::Ping(record) => Ok(Frame { kind, payload: record.bytes }),
        MumblePacket::ChannelRemove(record) => Ok(Frame { kind, payload: record.bytes }),
        MumblePacket::BanList(record) => Ok(Frame { kind, payload: record.bytes }),
        MumblePacket::PermissionDenied(record) => Ok(Frame { kind, payload: record.bytes }),
        MumblePacket::ACL(record) => Ok(Frame { kind, payload: record.bytes }),
        MumblePacket::QueryUsers(record) => Ok(Frame { kind, payload: record.bytes }),
        MumblePacket::CryptSetup(record) => Ok(Frame { kind, payload: record.bytes }),
        MumblePacket::ContextActionModify(record) => Ok(Frame { kind, payload: record.bytes }),
        MumblePacket::ContextAction(record) => Ok(Frame { kind, payload: record.bytes }),
        MumblePacket::UserList(record) => Ok(Frame { kind, payload: record.bytes }),
        MumblePacket::VoiceTarget(record) => Ok(Frame { kind, payload: record.bytes }),
        MumblePacket::PermissionQuery(record) => Ok(Frame { kind, payload: record.bytes }),
        MumblePacket::CodecVersion(record) => Ok(Frame { kind, payload: record.bytes }),
        MumblePacket::UserStats(record) => Ok(Frame { kind, payload: record.bytes }),
        MumblePacket::RequestBlob(record) => Ok(Frame { kind, payload: record.bytes }),
        MumblePacket::ServerConfig(record) => Ok(Frame { kind, payload: record.bytes }),
        MumblePacket::SuggestConfig(record) => Ok(Frame { kind, payload: record.bytes }),
        other => Err(other),
    }
}

/// Voice data, and every record that the engine does not interpret, comes
/// back from its frame byte for byte.
pub proof fn lemma_packet_survives_its_frame(packet: MumblePacket)
    requires
        !is_interpreted(kind_of(packet@)),
    ensures
        frame_as_is(packet@) matches Some(frame) && packet_as_is(frame) == Some(packet@),
{
}

/// A frame of an uninterpreted kind comes back from its packet byte for
/// byte.
pub proof fn lemma_frame_survives_its_packet(frame: FrameView)
    requires
        !is_interpreted(frame.kind),
    ensures
        packet_as_is(frame) matches Some(packet) && frame_as_is(packet) == Some(frame),
{
}

} // verus!

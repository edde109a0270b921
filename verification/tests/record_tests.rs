use bytes::BytesMut;
use vvoice::codec::{Frame, MumbleCodec};
use vvoice::kind::MessageKind;
use vvoice::messages::{MumblePacket, Record, TextMessage, UdpTunnel, UserState};
use vvoice::records::{frame_from_packet, packet_from_frame};

#[test]
fn voice_goes_through_codec_and_back_verbatim() {
    let opaque = vec![0x20u8, 0, 1, 2, 0xfe, 0xff];
    let packet = MumblePacket::UDPTunnel(UdpTunnel { packet: opaque.clone() });
    let frame = frame_from_packet(packet).ok().unwrap();
    assert_eq!(frame.kind, MessageKind::UDPTunnel);
    let mut buf = BytesMut::new();
    MumbleCodec.encode(frame, &mut buf).unwrap();
    assert_eq!(&buf[..6], &[0, 1, 0, 0, 0, 6]);
    assert_eq!(&buf[6..], &opaque[..]);
    let frame = MumbleCodec.decode(&mut buf).unwrap().unwrap();
    match packet_from_frame(frame) {
        Ok(MumblePacket::UDPTunnel(t)) => assert_eq!(t.packet, opaque),
        _ => panic!("Expected UDPTunnel"),
    }
}

#[test]
fn uninterpreted_records_keep_kind_and_bytes() {
    let frame = Frame { kind: MessageKind::Ping, payload: vec![8, 42] };
    match packet_from_frame(frame) {
        Ok(MumblePacket::Ping(r)) => assert_eq!(r.bytes, vec![8, 42]),
        _ => panic!("Expected Ping"),
    }
    let frame = Frame { kind: MessageKind::SuggestConfig, payload: vec![] };
    assert!(matches!(packet_from_frame(frame), Ok(MumblePacket::SuggestConfig(_))));
    let packet = MumblePacket::BanList(Record { bytes: vec![1, 2, 3] });
    let frame = frame_from_packet(packet).ok().unwrap();
    assert_eq!(frame.kind, MessageKind::BanList);
    assert_eq!(frame.payload, vec![1, 2, 3]);
}

#[test]
fn interpreted_kinds_are_handed_back() {
    for kind in [
        MessageKind::Version,
        MessageKind::Authenticate,
        MessageKind::Reject,
        MessageKind::ServerSync,
        MessageKind::ChannelState,
        MessageKind::UserRemove,
        MessageKind::UserState,
        MessageKind::TextMessage,
    ] {
        match packet_from_frame(Frame { kind, payload: vec![1] }) {
            Err(back) => {
                assert_eq!(back.kind, kind);
                assert_eq!(back.payload, vec![1]);
            }
            Ok(_) => panic!("Expected the frame back"),
        }
    }
    let mut text = TextMessage::default();
    text.message = "x".to_string();
    match frame_from_packet(MumblePacket::TextMessage(text)) {
        Err(MumblePacket::TextMessage(t)) => assert_eq!(t.message, "x"),
        _ => panic!("Expected the packet back"),
    }
    assert!(frame_from_packet(MumblePacket::UserState(UserState::default())).is_err());
}

#[test]
fn packet_kind_matches_the_type_table() {
    assert_eq!(MumblePacket::Ping(Record { bytes: vec![] }).kind().wire_type(), 3);
    assert_eq!(MumblePacket::TextMessage(TextMessage::default()).kind().wire_type(), 11);
    assert_eq!(MumblePacket::UserState(UserState::default()).kind().wire_type(), 9);
    assert_eq!(MumblePacket::UDPTunnel(UdpTunnel { packet: vec![] }).kind().wire_type(), 1);
    assert_eq!(MumblePacket::SuggestConfig(Record { bytes: vec![] }).kind().wire_type(), 25);
}

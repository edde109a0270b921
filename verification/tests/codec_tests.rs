use bytes::BytesMut;
use vvoice::codec::{CodecError, Frame, MumbleCodec, HEADER_LEN, MAX_PAYLOAD_LEN};
use vvoice::kind::{MessageKind, LAST_WIRE_TYPE};

fn frame(kind: MessageKind, payload: &[u8]) -> Frame {
    Frame { kind, payload: payload.to_vec() }
}

fn encoded(kind: MessageKind, payload: &[u8]) -> Vec<u8> {
    let mut dst = BytesMut::new();
    MumbleCodec.encode(frame(kind, payload), &mut dst).unwrap();
    dst.to_vec()
}

#[test]
fn encodes_header_big_endian() {
    let mut codec = MumbleCodec;
    let mut dst = BytesMut::new();
    assert_eq!(codec.encode(frame(MessageKind::TextMessage, &[1, 2, 3]), &mut dst), Ok(()));
    assert_eq!(&dst[..], &[0, 11, 0, 0, 0, 3, 1, 2, 3]);
}

#[test]
fn encodes_long_length_in_four_bytes() {
    let payload = vec![7u8; 0x01_02_03];
    let bytes = encoded(MessageKind::UDPTunnel, &payload);
    assert_eq!(&bytes[..6], &[0, 1, 0x00, 0x01, 0x02, 0x03]);
    assert_eq!(bytes.len(), 6 + 0x01_02_03);
}

#[test]
fn encode_appends_to_what_is_there() {
    let mut dst = BytesMut::from(&[9u8, 9][..]);
    MumbleCodec.encode(frame(MessageKind::Version, &[]), &mut dst).unwrap();
    assert_eq!(&dst[..], &[9, 9, 0, 0, 0, 0, 0, 0]);
}

#[test]
fn encode_is_the_same_for_equal_inputs() {
    assert_eq!(encoded(MessageKind::Ping, &[1, 2]), encoded(MessageKind::Ping, &[1, 2]));
}

#[test]
fn every_kind_survives_the_round_trip() {
    for wire in 0..=LAST_WIRE_TYPE {
        let kind = MessageKind::from_wire_type(wire).unwrap();
        assert_eq!(kind.wire_type(), wire);
        let payload = vec![wire as u8, 0xff, 0x00, 0x80];
        let mut buf = BytesMut::from(&encoded(kind, &payload)[..]);
        let got = MumbleCodec.decode(&mut buf).unwrap().unwrap();
        assert_eq!(got.kind, kind);
        assert_eq!(got.payload, payload);
        assert!(buf.is_empty());
    }
}

#[test]
fn voice_payload_comes_back_byte_for_byte() {
    let opaque: Vec<u8> = (0..=255u8).collect();
    let mut buf = BytesMut::from(&encoded(MessageKind::UDPTunnel, &opaque)[..]);
    let got = MumbleCodec.decode(&mut buf).unwrap().unwrap();
    assert_eq!(got.kind, MessageKind::UDPTunnel);
    assert_eq!(got.payload, opaque);
}

#[test]
fn type_table_is_in_the_fixed_order() {
    assert_eq!(MessageKind::Version.wire_type(), 0);
    assert_eq!(MessageKind::UDPTunnel.wire_type(), 1);
    assert_eq!(MessageKind::Authenticate.wire_type(), 2);
    assert_eq!(MessageKind::Ping.wire_type(), 3);
    assert_eq!(MessageKind::Reject.wire_type(), 4);
    assert_eq!(MessageKind::ServerSync.wire_type(), 5);
    assert_eq!(MessageKind::ChannelRemove.wire_type(), 6);
    assert_eq!(MessageKind::ChannelState.wire_type(), 7);
    assert_eq!(MessageKind::UserRemove.wire_type(), 8);
    assert_eq!(MessageKind::UserState.wire_type(), 9);
    assert_eq!(MessageKind::BanList.wire_type(), 10);
    assert_eq!(MessageKind::TextMessage.wire_type(), 11);
    assert_eq!(MessageKind::SuggestConfig.wire_type(), 25);
    assert_eq!(MessageKind::from_wire_type(26), None);
    assert_eq!(MessageKind::from_wire_type(u16::MAX), None);
}

#[test]
fn short_buffer_needs_more_and_is_left_alone() {
    let mut buf = BytesMut::from(&[0u8, 3, 0, 0, 0][..]);
    assert!(MumbleCodec.decode(&mut buf).unwrap().is_none());
    assert_eq!(&buf[..], &[0, 3, 0, 0, 0]);
}

#[test]
fn incomplete_payload_needs_more_and_is_left_alone() {
    let mut buf = BytesMut::from(&[0u8, 3, 0, 0, 0, 4, 1, 2, 3][..]);
    assert!(MumbleCodec.decode(&mut buf).unwrap().is_none());
    assert_eq!(&buf[..], &[0, 3, 0, 0, 0, 4, 1, 2, 3]);
    buf.extend_from_slice(&[4]);
    let got = MumbleCodec.decode(&mut buf).unwrap().unwrap();
    assert_eq!(got.kind, MessageKind::Ping);
    assert_eq!(got.payload, vec![1, 2, 3, 4]);
    assert!(buf.is_empty());
}

#[test]
fn decode_consumes_exactly_one_frame() {
    let mut bytes = encoded(MessageKind::UserState, &[5, 6]);
    bytes.extend_from_slice(&encoded(MessageKind::Ping, &[7]));
    let mut buf = BytesMut::from(&bytes[..]);
    let first = MumbleCodec.decode(&mut buf).unwrap().unwrap();
    assert_eq!(first.kind, MessageKind::UserState);
    assert_eq!(first.payload, vec![5, 6]);
    assert_eq!(buf.len(), HEADER_LEN + 1);
    let second = MumbleCodec.decode(&mut buf).unwrap().unwrap();
    assert_eq!(second.kind, MessageKind::Ping);
    assert_eq!(second.payload, vec![7]);
    assert!(buf.is_empty());
}

#[test]
fn unknown_type_is_consumed_and_dropped() {
    let mut bytes = vec![0u8, 26, 0, 0, 0, 2, 0xaa, 0xbb];
    bytes.extend_from_slice(&encoded(MessageKind::Ping, &[1]));
    let mut buf = BytesMut::from(&bytes[..]);
    assert!(MumbleCodec.decode(&mut buf).unwrap().is_none());
    assert_eq!(buf.len(), HEADER_LEN + 1);
    let next = MumbleCodec.decode(&mut buf).unwrap().unwrap();
    assert_eq!(next.kind, MessageKind::Ping);
}

#[test]
fn oversize_announcement_is_an_error() {
    let mut src = BytesMut::from(&[0u8, 1, 0x00, 0x80, 0x00, 0x01][..]);
    let r = MumbleCodec.decode(&mut src);
    assert_eq!(r.err(), Some(CodecError::FrameTooLarge));
    assert_eq!(src.len(), 6);
}

#[test]
fn payload_at_the_limit_is_accepted() {
    assert_eq!(MAX_PAYLOAD_LEN, 8 * 1024 * 1024);
    let payload = vec![3u8; MAX_PAYLOAD_LEN];
    let mut buf = BytesMut::from(&encoded(MessageKind::UDPTunnel, &payload)[..]);
    assert_eq!(&buf[..6], &[0, 1, 0x00, 0x80, 0x00, 0x00]);
    let got = MumbleCodec.decode(&mut buf).unwrap().unwrap();
    assert_eq!(got.payload.len(), MAX_PAYLOAD_LEN);
}

#[test]
fn payload_over_the_limit_encodes_but_does_not_decode() {
    let payload = vec![3u8; MAX_PAYLOAD_LEN + 1];
    let mut buf = BytesMut::from(&encoded(MessageKind::UDPTunnel, &payload)[..]);
    assert_eq!(MumbleCodec.decode(&mut buf).err(), Some(CodecError::FrameTooLarge));
}

fn drain(buf: &mut BytesMut, out: &mut Vec<(MessageKind, Vec<u8>)>) {
    let mut before = buf.len() + 1;
    while buf.len() < before {
        before = buf.len();
        if let Some(frame) = MumbleCodec.decode(buf).unwrap() {
            out.push((frame.kind, frame.payload));
        }
    }
}

#[test]
fn chunking_makes_no_difference() {
    let frames: Vec<(MessageKind, Vec<u8>)> = vec![
        (MessageKind::Version, vec![1, 2, 3]),
        (MessageKind::UDPTunnel, vec![]),
        (MessageKind::TextMessage, vec![9; 40]),
        (MessageKind::Ping, vec![0, 0, 0, 0, 0, 0, 0]),
        (MessageKind::SuggestConfig, vec![0xff]),
    ];
    let mut stream = Vec::new();
    for (kind, payload) in &frames {
        stream.extend_from_slice(&encoded(*kind, payload));
    }
    for chunk in [1usize, 2, 3, 5, 6, 7, 13, 64, stream.len()] {
        let mut buf = BytesMut::new();
        let mut out = Vec::new();
        for piece in stream.chunks(chunk) {
            buf.extend_from_slice(piece);
            drain(&mut buf, &mut out);
        }
        assert_eq!(out, frames);
        assert!(buf.is_empty());
    }
}

#[test]
fn decode_next_passes_over_unknown_frames() {
    let mut bytes = vec![0u8, 26, 0, 0, 0, 2, 0xaa, 0xbb, 0xff, 0xff, 0, 0, 0, 0];
    bytes.extend_from_slice(&encoded(MessageKind::Ping, &[1]));
    bytes.extend_from_slice(&[0, 11, 0, 0]);
    let mut buf = BytesMut::from(&bytes[..]);
    let got = MumbleCodec.decode_next(&mut buf).unwrap().unwrap();
    assert_eq!(got.kind, MessageKind::Ping);
    assert_eq!(got.payload, vec![1]);
    assert_eq!(&buf[..], &[0, 11, 0, 0]);
    assert!(MumbleCodec.decode_next(&mut buf).unwrap().is_none());
    assert_eq!(&buf[..], &[0, 11, 0, 0]);
}

#[test]
fn decode_next_stops_at_an_oversize_announcement() {
    let mut bytes = vec![0u8, 99, 0, 0, 0, 0];
    bytes.extend_from_slice(&[0, 1, 0xff, 0xff, 0xff, 0xff, 7]);
    let mut buf = BytesMut::from(&bytes[..]);
    assert_eq!(MumbleCodec.decode_next(&mut buf).err(), Some(CodecError::FrameTooLarge));
    assert_eq!(buf.len(), 7);
}

#[test]
fn decode_next_on_only_unknown_frames_empties_the_buffer() {
    let mut buf = BytesMut::from(&[0u8, 26, 0, 0, 0, 1, 5, 1, 0, 0, 0, 0, 0][..]);
    assert!(MumbleCodec.decode_next(&mut buf).unwrap().is_none());
    assert!(buf.is_empty());
}

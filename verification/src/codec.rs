//! The framed wire codec.
//!
//! Every message on the wire is a frame: two bytes of type, four bytes of
//! length, both big-endian, then as many bytes of payload as the length says.
//! The codec turns frames into bytes and a growing buffer of bytes back into
//! frames. What a payload means is the schema's business, not the codec's.

use crate::buffer::{
    allocation_limit, buf_as_slice, buf_extend_from_slice, buf_reserve, buf_split_to, buffered,
};
use crate::kind::{kind_of_wire_type, wire_type_of, MessageKind};
use bytes::BytesMut;
use vstd::prelude::*;
use vstd::slice::slice_to_vec;

verus! {

/// Bytes in a frame header.
pub const HEADER_LEN: usize = 6;

/// The longest payload that the decoder accepts: 8 MiB.
pub const MAX_PAYLOAD_LEN: usize = 8388608;

/// One message as it travels: its kind and its undecoded payload.
#[derive(Debug)]
pub struct Frame {
    pub kind: MessageKind,
    pub payload: Vec<u8>,
}

/// What a frame is, mathematically.
pub struct FrameView {
    pub kind: MessageKind,
    pub payload: Seq<u8>,
}

impl View for Frame {
    type V = FrameView;

    open spec fn view(&self) -> FrameView {
        FrameView { kind: self.kind, payload: self.payload@ }
    }
}

/// Why the codec gave up.
#[derive(Clone, Copy, Debug, PartialEq, Eq, Structural)]
pub enum CodecError {
    /// A header announced a payload longer than [`MAX_PAYLOAD_LEN`].
    FrameTooLarge,
    /// A payload to be sent is longer than the length field can say.
    PayloadTooLarge,
    /// The output buffer cannot grow by the size of the frame.
    BufferExhausted,
}

/// The codec itself. It keeps no state: all that is pending lives in the
/// buffer it is handed.
#[derive(Clone, Copy, Debug)]
pub struct MumbleCodec;

/// Two bytes read as a big-endian number.
pub open spec fn be16(hi: u8, lo: u8) -> int {
    hi as int * 256 + lo as int
}

/// Four bytes read as a big-endian number.
pub open spec fn be32(b0: u8, b1: u8, b2: u8, b3: u8) -> int {
    b0 as int * 16777216 + b1 as int * 65536 + b2 as int * 256 + b3 as int
}

/// A sixteen-bit number written big-endian.
pub open spec fn be16_bytes(n: int) -> Seq<u8> {
    seq![(n / 256) as u8, (n % 256) as u8]
}

/// A thirty-two-bit number written big-endian.
pub open spec fn be32_bytes(n: int) -> Seq<u8> {
    seq![
        (n / 16777216) as u8,
        ((n / 65536) % 256) as u8,
        ((n / 256) % 256) as u8,
        (n % 256) as u8,
    ]
}

/// The bytes of a frame: type, length, payload.
pub open spec fn frame_bytes(frame: FrameView) -> Seq<u8> {
    be16_bytes(wire_type_of(frame.kind) as int) + be32_bytes(frame.payload.len() as int)
        + frame.payload
}

/// The wire type that the first six bytes of a buffer announce.
pub open spec fn announced_type(buf: Seq<u8>) -> int
    recommends
        buf.len() >= HEADER_LEN,
{
    be16(buf[0], buf[1])
}

/// The payload length that the first six bytes of a buffer announce.
pub open spec fn announced_len(buf: Seq<u8>) -> int
    recommends
        buf.len() >= HEADER_LEN,
{
    be32(buf[2], buf[3], buf[4], buf[5])
}

/// What one look at a buffer yields.
pub enum DecodeStep {
    /// The buffer does not yet hold a whole frame.
    NeedMore,
    /// The header announces more than the decoder accepts.
    TooLarge,
    /// A whole frame of no known kind: it is dropped.
    Skipped { consumed: int },
    /// A whole frame of a known kind.
    Complete { frame: FrameView, consumed: int },
}

/// One look at a buffer: the frame at its front, if there is a whole one.
pub open spec fn decode_step(buf: Seq<u8>) -> DecodeStep {
    if buf.len() < HEADER_LEN {
        DecodeStep::NeedMore
    } else if announced_len(buf) > MAX_PAYLOAD_LEN {
        DecodeStep::TooLarge
    } else if buf.len() < HEADER_LEN + announced_len(buf) {
        DecodeStep::NeedMore
    } else {
        let end = HEADER_LEN + announced_len(buf);
        match kind_of_wire_type(announced_type(buf) as u16) {
            Some(kind) => DecodeStep::Complete {
                frame: FrameView { kind, payload: buf.subrange(HEADER_LEN as int, end) },
                consumed: end,
            },
            None => DecodeStep::Skipped { consumed: end },
        }
    }
}

/// The bytes that a look at the buffer takes away.
pub open spec fn consumed_by(step: DecodeStep) -> int {
    match step {
        DecodeStep::NeedMore => 0,
        DecodeStep::TooLarge => 0,
        DecodeStep::Skipped { consumed } => consumed,
        DecodeStep::Complete { consumed, .. } => consumed,
    }
}

/// What looking for the next frame yields, and what is left in the buffer
/// afterwards: frames of unknown type at the front are consumed and
/// dropped, then comes the first frame of a known kind, if a whole one is
/// there.
pub open spec fn next_frame(buf: Seq<u8>) -> (Result<Option<FrameView>, CodecError>, Seq<u8>)
    decreases buf.len(),
{
    match decode_step(buf) {
        DecodeStep::NeedMore => (Ok(None), buf),
        DecodeStep::TooLarge => (Err(CodecError::FrameTooLarge), buf),
        DecodeStep::Skipped { consumed } => next_frame(buf.skip(consumed)),
        DecodeStep::Complete { frame, consumed } => (Ok(Some(frame)), buf.skip(consumed)),
    }
}

/// The outcome of a decoding by the view of the frame it holds.
pub open spec fn decoded_view(r: Result<Option<Frame>, CodecError>) -> Result<
    Option<FrameView>,
    CodecError,
> {
    match r {
        Ok(Some(frame)) => Ok(Some(frame@)),
        Ok(None) => Ok(None),
        Err(error) => Err(error),
    }
}

fn read_be16(bytes: &[u8]) -> (n: u16)
    requires
        bytes@.len() >= 2,
    ensures
        n == be16(bytes@[0], bytes@[1]),
{
    let hi: u16 = bytes[0] as u16;
    let lo: u16 = bytes[1] as u16;
    hi * 256 + lo
}

fn read_be32(bytes: &[u8]) -> (n: u32)
    requires
        bytes@.len() >= 6,
    ensures
        n == be32(bytes@[2], bytes@[3], bytes@[4], bytes@[5]),
{
    let b0: u32 = bytes[2] as u32;
    let b1: u32 = bytes[3] as u32;
    let b2: u32 = bytes[4] as u32;
    let b3: u32 = bytes[5] as u32;
    b0 * 16777216 + b1 * 65536 + b2 * 256 + b3
}

fn write_be16(n: u16) -> (bytes: Vec<u8>)
    ensures
        bytes@ == be16_bytes(n as int),
{
    let bytes = vec![(n / 256) as u8, (n % 256) as u8];
    assert(bytes@ =~= be16_bytes(n as int));
    bytes
}

fn write_be32(n: u32) -> (bytes: Vec<u8>)
    ensures
        bytes@ == be32_bytes(n as int),
{
    let bytes = vec![
        (n / 16777216) as u8,
        ((n / 65536) % 256) as u8,
        ((n / 256) % 256) as u8,
        (n % 256) as u8,
    ];
    assert(bytes@ =~= be32_bytes(n as int));
    bytes
}

impl MumbleCodec {
    /// Takes the frame at the front of `src`, if a whole one is there.
    ///
    /// Nothing is consumed until a frame is complete; a complete frame is
    /// consumed whole, header and payload. A frame whose type is not in the
    /// table is consumed and dropped. A header that announces more than
    /// [`MAX_PAYLOAD_LEN`] bytes is an error, and the buffer is left alone.
    pub fn decode(&mut self, src: &mut BytesMut) -> (r: Result<Option<Frame>, CodecError>)
        ensures
            match decode_step(buffered(*old(src))) {
                DecodeStep::NeedMore => r == Ok::<Option<Frame>, CodecError>(None) && buffered(
                    *final(src),
                ) == buffered(*old(src)),
                DecodeStep::TooLarge => r == Err::<Option<Frame>, CodecError>(
                    CodecError::FrameTooLarge,
                ) && buffered(*final(src)) == buffered(*old(src)),
                DecodeStep::Skipped { consumed } => r == Ok::<Option<Frame>, CodecError>(None)
                    && buffered(*final(src)) == buffered(*old(src)).skip(consumed),
                DecodeStep::Complete { frame, consumed } => {
                    &&& r matches Ok(Some(got))
                    &&& got@ == frame
                    &&& buffered(*final(src)) == buffered(*old(src)).skip(consumed)
                },
            },
    {
        let bytes = buf_as_slice(src);
        let available = bytes.len();
        if available < HEADER_LEN {
            return Ok(None);
        }
        let wire = read_be16(bytes);
        let announced = read_be32(bytes);
        if announced > MAX_PAYLOAD_LEN as u32 {
            return Err(CodecError::FrameTooLarge);
        }
        let length = announced as usize;
        if available < HEADER_LEN + length {
            buf_reserve(src, HEADER_LEN + length - available);
            return Ok(None);
        }
        let ghost before = buffered(*src);
        let _header = buf_split_to(src, HEADER_LEN);
        let body = buf_split_to(src, length);
        let payload = slice_to_vec(buf_as_slice(&body));
        proof {
            let end = HEADER_LEN + length;
            assert(payload@ =~= before.subrange(HEADER_LEN as int, end as int));
            assert(buffered(*src) =~= before.skip(end as int));
        }
        match MessageKind::from_wire_type(wire) {
            Some(kind) => Ok(Some(Frame { kind, payload })),
            None => Ok(None),
        }
    }

    /// Takes the next frame of a known kind from `src`, dropping any frames
    /// of unknown type that stand before it.
    ///
    /// `Ok(None)` means that more bytes are needed: what is left in `src`
    /// then holds no whole frame.
    pub fn decode_next(&mut self, src: &mut BytesMut) -> (r: Result<Option<Frame>, CodecError>)
        ensures
            (decoded_view(r), buffered(*final(src))) == next_frame(buffered(*old(src))),
    {
        let ghost start = buffered(*src);
        loop
            invariant
                start == buffered(*old(src)),
                next_frame(buffered(*src)) == next_frame(start),
            decreases buffered(*src).len(),
        {
            let held = buf_as_slice(src).len();
            match self.decode(src) {
                Err(error) => {
                    return Err(error);
                },
                Ok(Some(frame)) => {
                    return Ok(Some(frame));
                },
                Ok(None) => {
                    if buf_as_slice(src).len() == held {
                        return Ok(None);
                    }
                },
            }
        }
    }

    /// Appends the bytes of `item` to `dst`.
    ///
    /// Fails, and leaves `dst` alone, when the payload is longer than the
    /// length field can say or when `dst` cannot grow by the frame's size.
    pub fn encode(&mut self, item: Frame, dst: &mut BytesMut) -> (r: Result<(), CodecError>)
        ensures
            match r {
                Ok(_) => {
                    &&& item.payload@.len() <= u32::MAX
                    &&& buffered(*old(dst)).len() + HEADER_LEN + item.payload@.len()
                        <= allocation_limit()
                    &&& buffered(*final(dst)) == buffered(*old(dst)) + frame_bytes(item@)
                },
                Err(CodecError::PayloadTooLarge) => {
                    &&& item.payload@.len() > u32::MAX
                    &&& buffered(*final(dst)) == buffered(*old(dst))
                },
                Err(CodecError::BufferExhausted) => {
                    &&& item.payload@.len() <= u32::MAX
                    &&& buffered(*old(dst)).len() + HEADER_LEN + item.payload@.len()
                        > allocation_limit()
                    &&& buffered(*final(dst)) == buffered(*old(dst))
                },
                Err(CodecError::FrameTooLarge) => false,
            },
    {
        let length = item.payload.len();
        if length > u32::MAX as usize {
            return Err(CodecError::PayloadTooLarge);
        }
        let held = buf_as_slice(dst).len();
        let limit = isize::MAX as usize;
        if held > limit || length > limit - held || HEADER_LEN > limit - held - length {
            return Err(CodecError::BufferExhausted);
        }
        let ghost before = buffered(*dst);
        let type_bytes = write_be16(item.kind.wire_type());
        let length_bytes = write_be32(length as u32);
        buf_reserve(dst, HEADER_LEN + length);
        buf_extend_from_slice(dst, type_bytes.as_slice());
        buf_extend_from_slice(dst, length_bytes.as_slice());
        buf_extend_from_slice(dst, item.payload.as_slice());
        assert(buffered(*dst) =~= before + frame_bytes(item@));
        Ok(())
    }
}

} // verus!

//! What the codec yields over a whole stream, and the laws that hold of it:
//! a frame comes back as it went in, and the way the bytes are cut into
//! chunks on arrival makes no difference.

use crate::codec::{
    announced_len, announced_type, be16_bytes, be32_bytes, consumed_by, decode_step, frame_bytes,
    next_frame, DecodeStep, FrameView, HEADER_LEN, MAX_PAYLOAD_LEN,
};
use crate::kind::{lemma_kind_survives_table, wire_type_of};
use vstd::prelude::*;

verus! {

/// The outcome of decoding for as long as whole frames are at hand: the
/// frames found, in order, and the bytes left over.
pub struct Drained {
    pub frames: Seq<FrameView>,
    pub rest: Seq<u8>,
}

/// Decodes from the front of `buf` until no whole frame is left (or the
/// front announces too much). Frames of unknown type are dropped.
pub open spec fn drain(buf: Seq<u8>) -> Drained
    decreases buf.len(),
{
    match decode_step(buf) {
        DecodeStep::NeedMore => Drained { frames: Seq::empty(), rest: buf },
        DecodeStep::TooLarge => Drained { frames: Seq::empty(), rest: buf },
        DecodeStep::Skipped { consumed } => drain(buf.skip(consumed)),
        DecodeStep::Complete { frame, consumed } => {
            let later = drain(buf.skip(consumed));
            Drained { frames: seq![frame] + later.frames, rest: later.rest }
        },
    }
}

/// The bytes of several frames, one after the other.
pub open spec fn stream_bytes(frames: Seq<FrameView>) -> Seq<u8>
    decreases frames.len(),
{
    if frames.len() == 0 {
        Seq::empty()
    } else {
        frame_bytes(frames[0]) + stream_bytes(frames.skip(1))
    }
}

/// Chunks of bytes laid end to end.
pub open spec fn joined(chunks: Seq<Seq<u8>>) -> Seq<u8>
    decreases chunks.len(),
{
    if chunks.len() == 0 {
        Seq::empty()
    } else {
        chunks[0] + joined(chunks.skip(1))
    }
}

/// A decoder that is fed chunk after chunk: each chunk is appended to what
/// was left over, and every whole frame then at hand is taken out.
pub open spec fn feed(pending: Seq<u8>, chunks: Seq<Seq<u8>>) -> Drained
    decreases chunks.len(),
{
    if chunks.len() == 0 {
        Drained { frames: Seq::empty(), rest: pending }
    } else {
        let now = drain(pending + chunks[0]);
        let later = feed(now.rest, chunks.skip(1));
        Drained { frames: now.frames + later.frames, rest: later.rest }
    }
}

/// Whether the decoder accepts the payload of every frame in the sequence.
pub open spec fn all_within_limit(frames: Seq<FrameView>) -> bool {
    forall|i: int| 0 <= i < frames.len() ==> (#[trigger] frames[i]).payload.len() <= MAX_PAYLOAD_LEN
}

/// A header says what was written into it.
pub proof fn lemma_header_reads_back(wire: u16, len: int, tail: Seq<u8>)
    requires
        0 <= len <= u32::MAX,
    ensures
        announced_type(be16_bytes(wire as int) + be32_bytes(len) + tail) == wire,
        announced_len(be16_bytes(wire as int) + be32_bytes(len) + tail) == len,
{
    let buf = be16_bytes(wire as int) + be32_bytes(len) + tail;
    assert(buf[0] == (wire as int / 256) as u8);
    assert(buf[1] == (wire as int % 256) as u8);
    assert(buf[2] == (len / 16777216) as u8);
    assert(buf[3] == ((len / 65536) % 256) as u8);
    assert(buf[4] == ((len / 256) % 256) as u8);
    assert(buf[5] == (len % 256) as u8);
}

/// Round trip: a frame whose payload is within the limit, encoded and put
/// before any other bytes, decodes to itself, and exactly its own bytes are
/// consumed.
pub proof fn lemma_decode_inverts_encode(frame: FrameView, tail: Seq<u8>)
    requires
        frame.payload.len() <= MAX_PAYLOAD_LEN,
    ensures
        decode_step(frame_bytes(frame) + tail) == (DecodeStep::Complete {
            frame,
            consumed: frame_bytes(frame).len() as int,
        }),
        frame_bytes(frame).len() == HEADER_LEN + frame.payload.len(),
        (frame_bytes(frame) + tail).skip(frame_bytes(frame).len() as int) == tail,
{
    let wire = wire_type_of(frame.kind);
    let len = frame.payload.len() as int;
    let buf = frame_bytes(frame) + tail;
    lemma_kind_survives_table(frame.kind);
    lemma_header_reads_back(wire, len, frame.payload + tail);
    assert(buf =~= be16_bytes(wire as int) + be32_bytes(len) + (frame.payload + tail));
    assert(buf.subrange(HEADER_LEN as int, HEADER_LEN + len) =~= frame.payload);
    assert(buf.skip(frame_bytes(frame).len() as int) =~= tail);
}

/// What one look at a buffer yields depends only on the bytes it consumes:
/// once a step has consumed something, bytes that arrive later do not
/// change it.
pub proof fn lemma_step_ignores_later_bytes(buf: Seq<u8>, more: Seq<u8>)
    requires
        consumed_by(decode_step(buf)) > 0 || decode_step(buf) is TooLarge,
    ensures
        decode_step(buf + more) == decode_step(buf),
{
    let longer = buf + more;
    assert(longer[0] == buf[0] && longer[1] == buf[1] && longer[2] == buf[2] && longer[3] == buf[3]
        && longer[4] == buf[4] && longer[5] == buf[5]);
    if !(decode_step(buf) is TooLarge) {
        let end = HEADER_LEN + announced_len(buf);
        assert(longer.subrange(HEADER_LEN as int, end) =~= buf.subrange(HEADER_LEN as int, end));
    }
}

/// The decoder never consumes part of a frame: a step takes nothing, or a
/// whole frame of at least a header's length that the buffer holds.
pub proof fn lemma_step_consumes_whole_frames(buf: Seq<u8>)
    ensures
        consumed_by(decode_step(buf)) == 0 || (HEADER_LEN <= consumed_by(decode_step(buf))
            <= buf.len() && consumed_by(decode_step(buf)) == HEADER_LEN + announced_len(buf)),
        decode_step(buf) is NeedMore || decode_step(buf) is TooLarge <==> consumed_by(
            decode_step(buf),
        ) == 0,
{
}

/// Draining what was drained, with more bytes behind it, is draining the
/// whole at once.
pub proof fn lemma_drain_resumes(buf: Seq<u8>, more: Seq<u8>)
    ensures
        drain(buf + more).frames == drain(buf).frames + drain(drain(buf).rest + more).frames,
        drain(buf + more).rest == drain(drain(buf).rest + more).rest,
    decreases buf.len(),
{
    let step = decode_step(buf);
    lemma_step_consumes_whole_frames(buf);
    match step {
        DecodeStep::NeedMore => {
            assert(drain(buf).frames + drain(buf + more).frames =~= drain(buf + more).frames);
        },
        DecodeStep::TooLarge => {
            assert(drain(buf).frames + drain(buf + more).frames =~= drain(buf + more).frames);
        },
        DecodeStep::Skipped { consumed } => {
            lemma_step_ignores_later_bytes(buf, more);
            assert((buf + more).skip(consumed) =~= buf.skip(consumed) + more);
            lemma_drain_resumes(buf.skip(consumed), more);
        },
        DecodeStep::Complete { frame, consumed } => {
            lemma_step_ignores_later_bytes(buf, more);
            assert((buf + more).skip(consumed) =~= buf.skip(consumed) + more);
            lemma_drain_resumes(buf.skip(consumed), more);
            let later = drain(buf.skip(consumed));
            let resumed = drain(later.rest + more);
            assert(seq![frame] + (later.frames + resumed.frames) =~= (seq![frame] + later.frames)
                + resumed.frames);
        },
    }
}

/// Draining the encodings of frames within the limit yields those frames
/// and leaves nothing.
pub proof fn lemma_drain_inverts_stream(frames: Seq<FrameView>)
    requires
        all_within_limit(frames),
    ensures
        drain(stream_bytes(frames)).frames == frames,
        drain(stream_bytes(frames)).rest == Seq::<u8>::empty(),
    decreases frames.len(),
{
    if frames.len() == 0 {
        assert(drain(stream_bytes(frames)).frames =~= frames);
    } else {
        let first = frames[0];
        let others = frames.skip(1);
        assert(all_within_limit(others)) by {
            assert forall|i: int| 0 <= i < others.len() implies (#[trigger] others[i]).payload.len()
                <= MAX_PAYLOAD_LEN by {
                assert(others[i] == frames[i + 1]);
            }
        }
        lemma_decode_inverts_encode(first, stream_bytes(others));
        lemma_drain_inverts_stream(others);
        assert(seq![first] + others =~= frames);
    }
}

/// Feeding chunk after chunk is the same as draining all the bytes at once.
pub proof fn lemma_feed_is_drain(pending: Seq<u8>, chunks: Seq<Seq<u8>>)
    ensures
        feed(drain(pending).rest, chunks).frames == drain(drain(pending).rest + joined(
            chunks,
        )).frames,
        feed(drain(pending).rest, chunks).rest == drain(drain(pending).rest + joined(chunks)).rest,
    decreases chunks.len(),
{
    let held = drain(pending).rest;
    lemma_drain_settles(pending);
    if chunks.len() == 0 {
        assert(held + joined(chunks) =~= held);
    } else {
        let first = chunks[0];
        let others = chunks.skip(1);
        let now = drain(held + first);
        lemma_feed_is_drain(held + first, others);
        lemma_drain_resumes(held + first, joined(others));
        assert((held + first) + joined(others) =~= held + joined(chunks));
    }
}

/// What draining leaves over holds no further whole frame: draining it
/// again finds nothing and leaves it as it is.
pub proof fn lemma_drain_settles(buf: Seq<u8>)
    ensures
        drain(drain(buf).rest).frames == Seq::<FrameView>::empty(),
        drain(drain(buf).rest).rest == drain(buf).rest,
    decreases buf.len(),
{
    lemma_step_consumes_whole_frames(buf);
    match decode_step(buf) {
        DecodeStep::NeedMore => {},
        DecodeStep::TooLarge => {},
        DecodeStep::Skipped { consumed } => {
            lemma_drain_settles(buf.skip(consumed));
        },
        DecodeStep::Complete { frame, consumed } => {
            lemma_drain_settles(buf.skip(consumed));
        },
    }
}

/// Draining is taking the next frame for as long as there is one: a frame
/// taken is the first that draining yields, and draining what is left
/// yields the others; when none is taken, draining yields none and leaves
/// the same bytes.
pub proof fn lemma_drain_takes_frame_after_frame(buf: Seq<u8>)
    ensures
        match next_frame(buf).0 {
            Ok(Some(frame)) => drain(buf).frames == seq![frame] + drain(next_frame(buf).1).frames
                && drain(buf).rest == drain(next_frame(buf).1).rest,
            _ => drain(buf).frames == Seq::<FrameView>::empty() && drain(buf).rest == next_frame(
                buf,
            ).1,
        },
    decreases buf.len(),
{
    lemma_step_consumes_whole_frames(buf);
    match decode_step(buf) {
        DecodeStep::Skipped { consumed } => {
            lemma_drain_takes_frame_after_frame(buf.skip(consumed));
        },
        _ => {},
    }
}

/// Streaming decode: the encodings of frames within the limit, laid end to
/// end and delivered to an idle decoder in any chunking whatever, come out
/// as exactly those frames, in order, and nothing is left over.
pub proof fn lemma_chunking_is_immaterial(frames: Seq<FrameView>, chunks: Seq<Seq<u8>>)
    requires
        all_within_limit(frames),
        joined(chunks) == stream_bytes(frames),
    ensures
        feed(Seq::<u8>::empty(), chunks).frames == frames,
        feed(Seq::<u8>::empty(), chunks).rest == Seq::<u8>::empty(),
{
    let idle = Seq::<u8>::empty();
    assert(drain(idle).rest == idle);
    lemma_feed_is_drain(idle, chunks);
    assert(idle + joined(chunks) =~= joined(chunks));
    lemma_drain_inverts_stream(frames);
}

} // verus!

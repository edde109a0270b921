//! The byte buffer that the codec reads from and writes to.
//!
//! The buffer is `bytes::BytesMut`. Verus does not look inside it: what it
//! holds is named by [`buffered`], and the few methods that the codec calls
//! are reached through the functions below, whose contracts are taken on
//! trust from the buffer's documentation.

use bytes::BytesMut;
use vstd::prelude::*;

verus! {

#[verifier::external_type_specification]
#[verifier::external_body]
pub struct ExBytesMut(bytes::BytesMut);

/// The bytes that a buffer holds, first to last.
pub uninterp spec fn buffered(buf: BytesMut) -> Seq<u8>;

/// The most bytes that one allocation can hold.
pub open spec fn allocation_limit() -> int {
    isize::MAX as int
}

/// `BytesMut`'s `Deref` to `[u8]`: the slice is the buffer's content.
#[verifier::external_body]
pub(crate) fn buf_as_slice(buf: &BytesMut) -> (bytes: &[u8])
    ensures
        bytes@ == buffered(*buf),
{
    &buf[..]
}

/// `BytesMut::split_to`: the first `at` bytes leave the buffer and are
/// returned, the rest stay. The method panics when `at` is beyond the end,
/// so such a call is excluded.
#[verifier::external_body]
pub(crate) fn buf_split_to(buf: &mut BytesMut, at: usize) -> (head: BytesMut)
    requires
        at <= buffered(*old(buf)).len(),
    ensures
        buffered(head) == buffered(*old(buf)).subrange(0, at as int),
        buffered(*final(buf)) == buffered(*old(buf)).subrange(
            at as int,
            buffered(*old(buf)).len() as int,
        ),
{
    buf.split_to(at)
}

/// `BytesMut::reserve`: makes room and leaves the content as it is. The
/// method panics when the capacity asked for overflows, so such a call is
/// excluded.
#[verifier::external_body]
pub(crate) fn buf_reserve(buf: &mut BytesMut, additional: usize)
    requires
        buffered(*old(buf)).len() + additional <= allocation_limit(),
    ensures
        buffered(*final(buf)) == buffered(*old(buf)),
{
    buf.reserve(additional)
}

/// `BytesMut::extend_from_slice`: the bytes given are appended. It reserves
/// first, so a call that would overflow the capacity is excluded.
#[verifier::external_body]
pub(crate) fn buf_extend_from_slice(buf: &mut BytesMut, bytes: &[u8])
    requires
        buffered(*old(buf)).len() + bytes@.len() <= allocation_limit(),
    ensures
        buffered(*final(buf)) == buffered(*old(buf)) + bytes@,
{
    buf.extend_from_slice(bytes)
}

} // verus!

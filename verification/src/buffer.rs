//! The byte buffer that the codec reads from and writes to: `bytes::BytesMut`,
//! modelled by the sequence of bytes it holds.

use bytes::Buf;
use bytes::BytesMut;
use vstd::prelude::*;

verus! {

/// Declares `bytes::BytesMut`; what it holds is known only through
/// [`buffer_bytes`].
#[verifier::external_type_specification]
#[verifier::external_body]
pub struct ExBytesMut(bytes::BytesMut);

/// The bytes that a buffer holds, oldest first.
pub uninterp spec fn buffer_bytes(buf: BytesMut) -> Seq<u8>;

/// Calls `<BytesMut as AsRef<[u8]>>::as_ref`, which hands out the held bytes
/// as one slice.
#[verifier::external_body]
pub(crate) fn buffer_slice(buf: &BytesMut) -> (bytes: &[u8])
    ensures
        bytes@ == buffer_bytes(*buf),
{
    buf.as_ref()
}

/// Calls `<BytesMut as Buf>::advance`, which drops the first `cnt` bytes; the
/// crate panics when `cnt` exceeds the length, which `requires` rules out.
#[verifier::external_body]
pub(crate) fn buffer_advance(buf: &mut BytesMut, cnt: usize)
    requires
        cnt <= buffer_bytes(*old(buf)).len(),
    ensures
        buffer_bytes(*final(buf)) == buffer_bytes(*old(buf)).skip(cnt as int),
{
    buf.advance(cnt)
}

/// Calls `BytesMut::split_to`, which hands out the first `at` bytes as a
/// buffer of their own and keeps the rest; the crate panics when `at`
/// exceeds the length, which `requires` rules out.
#[verifier::external_body]
pub(crate) fn buffer_split_to(buf: &mut BytesMut, at: usize) -> (head: BytesMut)
    requires
        at <= buffer_bytes(*old(buf)).len(),
    ensures
        buffer_bytes(head) == buffer_bytes(*old(buf)).take(at as int),
        buffer_bytes(*final(buf)) == buffer_bytes(*old(buf)).skip(at as int),
{
    buf.split_to(at)
}

/// Calls `BytesMut::reserve`, which makes room for `additional` more bytes
/// and keeps the held bytes.
///
/// The crate panics ("capacity overflow") when the vector behind the buffer
/// would grow past `isize::MAX` bytes. That vector holds, besides the held
/// bytes and the room asked for, the bytes already read off its front, and
/// it may double its capacity when it grows. `requires` keeps the held and
/// the added bytes under `isize::MAX / 2`; a panic is then left only where
/// the buffer already sits in an allocation of more than `isize::MAX / 2`
/// bytes, which no 64-bit address space maps; `requires` asks for a 64-bit
/// `usize`, since on narrower targets such an allocation can exist.
/// Allocation failure is not stated.
#[verifier::external_body]
pub(crate) fn buffer_reserve(buf: &mut BytesMut, additional: usize)
    requires
        usize::BITS == 64,
        buffer_bytes(*old(buf)).len() + additional <= isize::MAX / 2,
    ensures
        buffer_bytes(*final(buf)) == buffer_bytes(*old(buf)),
{
    buf.reserve(additional)
}

/// Calls `BytesMut::extend_from_slice`, which appends the given bytes; it
/// calls `reserve` first, and `requires` sets the same bound as
/// `buffer_reserve`, for the same reasons.
#[verifier::external_body]
pub(crate) fn buffer_extend_from_slice(buf: &mut BytesMut, extend: &[u8])
    requires
        usize::BITS == 64,
        buffer_bytes(*old(buf)).len() + extend@.len() <= isize::MAX / 2,
    ensures
        buffer_bytes(*final(buf)) == buffer_bytes(*old(buf)) + extend@,
{
    buf.extend_from_slice(extend)
}

} // verus!

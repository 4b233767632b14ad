//! The growable byte buffer of the `bytes` crate, as seen by the verifier.
//!
//! A `BytesMut` is opaque to Verus; its contents are named by
//! [`buffer_bytes`], and every operation the library performs on it goes
//! through one of the trusted wrappers below, whose contracts state what the
//! `bytes` source does to those contents.

use vstd::prelude::*;

verus! {

/// `bytes::BytesMut`, opaque: what it holds is named by [`buffer_bytes`].
#[verifier::external_type_specification]
#[verifier::external_body]
pub struct ExBytesMut(bytes::BytesMut);

/// The bytes a `BytesMut` holds, from its start to its length.
pub uninterp spec fn buffer_bytes(b: bytes::BytesMut) -> Seq<u8>;

/// The largest length a `BytesMut` can reach: its storage is a `Vec<u8>`,
/// which cannot grow past `isize::MAX` bytes.
pub open spec fn max_buffer_len() -> int {
    isize::MAX as int
}

/// Trusted: `BytesMut::extend_from_slice` reserves room for `src` and copies
/// it after the current contents. It panics only when the new length would
/// pass the allocation limit, which `requires` leaves out.
#[verifier::external_body]
pub fn extend_from_slice(buf: &mut bytes::BytesMut, src: &[u8])
    requires
        buffer_bytes(*old(buf)).len() + src@.len() <= max_buffer_len(),
    ensures
        buffer_bytes(*final(buf)) == buffer_bytes(*old(buf)) + src@,
{
    buf.extend_from_slice(src)
}

/// Trusted: `BytesMut::reserve` only changes the capacity, never the bytes
/// held. It panics when the requested capacity passes the allocation limit,
/// which `requires` leaves out.
#[verifier::external_body]
pub fn reserve(buf: &mut bytes::BytesMut, additional: usize)
    requires
        buffer_bytes(*old(buf)).len() + additional <= max_buffer_len(),
    ensures
        buffer_bytes(*final(buf)) == buffer_bytes(*old(buf)),
{
    buf.reserve(additional)
}

/// Trusted: `BufMut::put_u8` on a `BytesMut` appends one byte (it forwards
/// to `put_slice`, which is `extend_from_slice`).
#[verifier::external_body]
pub fn put_u8(buf: &mut bytes::BytesMut, byte: u8)
    requires
        buffer_bytes(*old(buf)).len() + 1 <= max_buffer_len(),
    ensures
        buffer_bytes(*final(buf)) == buffer_bytes(*old(buf)).push(byte),
{
    bytes::BufMut::put_u8(buf, byte)
}

/// Trusted: `BufMut::put` on a `BytesMut`, with a byte slice as the source,
/// appends the slice: an empty source changes nothing, a buffer without
/// capacity takes a copy of the source (its length is then zero), and any
/// other buffer reserves and extends.
#[verifier::external_body]
pub fn put(buf: &mut bytes::BytesMut, src: &[u8])
    requires
        buffer_bytes(*old(buf)).len() + src@.len() <= max_buffer_len(),
    ensures
        buffer_bytes(*final(buf)) == buffer_bytes(*old(buf)) + src@,
{
    bytes::BufMut::put(buf, src)
}

} // verus!

//! The byte buffer that messages are framed in, and the operations on it that
//! the framing code relies on.

use bytes::BytesMut;
use vstd::prelude::*;

verus! {

/// `bytes::BytesMut`, a growable buffer of bytes. Nothing of its inside is
/// read here: what it holds goes by the name `contents`.
#[verifier::external_type_specification]
#[verifier::external_body]
pub struct ExBytesMut(BytesMut);

/// The bytes that a buffer holds, in order.
pub uninterp spec fn contents(buf: BytesMut) -> Seq<u8>;

/// `BytesMut::new`: a buffer that holds nothing.
#[verifier::external_body]
pub(crate) fn new_buffer() -> (buf: BytesMut)
    ensures
        contents(buf) == Seq::<u8>::empty(),
{
    BytesMut::new()
}

/// `BytesMut::from(&[u8])`: a buffer that holds a copy of the slice.
#[verifier::external_body]
pub(crate) fn buffer_from(src: &[u8]) -> (buf: BytesMut)
    ensures
        contents(buf) == src@,
{
    BytesMut::from(src)
}

/// `BytesMut::as_ref`: the held bytes as a slice.
#[verifier::external_body]
pub(crate) fn bytes_of(buf: &BytesMut) -> (s: &[u8])
    ensures
        s@ == contents(*buf),
{
    buf.as_ref()
}

/// `BytesMut::extend_from_slice`: the bytes of `extend` are appended.
#[verifier::external_body]
pub(crate) fn append(buf: &mut BytesMut, extend: &[u8])
    ensures
        contents(*final(buf)) == contents(*old(buf)) + extend@,
{
    buf.extend_from_slice(extend)
}

/// `BytesMut::split_to`: the first `at` bytes are handed out, the rest stay.
#[verifier::external_body]
pub(crate) fn split_head(buf: &mut BytesMut, at: usize) -> (head: BytesMut)
    requires
        at <= contents(*old(buf)).len(),
    ensures
        contents(head) == contents(*old(buf)).subrange(0, at as int),
        contents(*final(buf)) == contents(*old(buf)).subrange(at as int, contents(*old(buf)).len() as int),
{
    buf.split_to(at)
}

/// `BytesMut::len`: the number of bytes held.
#[verifier::external_body]
pub(crate) fn buffer_len(buf: &BytesMut) -> (n: usize)
    ensures
        n == contents(*buf).len(),
{
    buf.len()
}

/// `BytesMut::clone`: a buffer of its own that holds the same bytes.
pub assume_specification[ <BytesMut as Clone>::clone ](buf: &BytesMut) -> (copy: BytesMut)
    ensures
        contents(copy) == contents(*buf),
;

} // verus!

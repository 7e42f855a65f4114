//! The byte buffers that frames are written to and read from.

use bytes::{Buf, BufMut, BytesMut};
use vstd::prelude::*;

use crate::big_endian::be_bytes;

verus! {

/// A buffer of the `bytes` crate.
#[verifier::external_type_specification]
#[verifier::external_body]
pub struct ExBytesMut(bytes::BytesMut);

/// The bytes that a buffer holds and that were not yet taken out of it.
pub uninterp spec fn contents(buffer: BytesMut) -> Seq<u8>;

/// Calls `BytesMut::len`: the number of bytes that the buffer holds.
#[verifier::external_body]
pub(crate) fn buffer_len(buffer: &BytesMut) -> (len: usize)
    ensures
        len == contents(*buffer).len(),
{
    buffer.len()
}

/// Borrows the bytes of the buffer through its `Deref` impl: all of them, in order.
#[verifier::external_body]
pub(crate) fn buffer_bytes(buffer: &BytesMut) -> (bytes: &[u8])
    ensures
        bytes@ == contents(*buffer),
{
    buffer
}

/// Calls `BytesMut::reserve`, which makes room and leaves the bytes as they are. The call panics
/// where the buffer would outgrow the largest allocation, for which bytes that were taken out of
/// the buffer may still count; running out of memory is not stated.
#[verifier::external_body]
pub(crate) fn buffer_reserve(buffer: &mut BytesMut, additional: usize)
    requires
        contents(*old(buffer)).len() + additional <= isize::MAX,
    ensures
        contents(*final(buffer)) == contents(*old(buffer)),
{
    buffer.reserve(additional)
}

/// Calls `BufMut::put_u16`, which appends the two bytes of the number, most significant first, and
/// makes room as `BytesMut::reserve` does.
#[verifier::external_body]
pub(crate) fn buffer_put_u16(buffer: &mut BytesMut, number: u16)
    requires
        contents(*old(buffer)).len() + 2 <= isize::MAX,
    ensures
        contents(*final(buffer)) == contents(*old(buffer)) + be_bytes(number as nat, 2),
{
    buffer.put_u16(number)
}

/// Calls `BufMut::put_slice`, which appends the bytes and makes room as `BytesMut::reserve` does.
#[verifier::external_body]
pub(crate) fn buffer_put_slice(buffer: &mut BytesMut, bytes: &[u8])
    requires
        contents(*old(buffer)).len() + bytes@.len() <= isize::MAX,
    ensures
        contents(*final(buffer)) == contents(*old(buffer)) + bytes@,
{
    buffer.put_slice(bytes)
}

/// Calls `Buf::advance`, which drops bytes from the front and panics where there are too few.
#[verifier::external_body]
pub(crate) fn buffer_advance(buffer: &mut BytesMut, count: usize)
    requires
        count <= contents(*old(buffer)).len(),
    ensures
        contents(*final(buffer)) == contents(*old(buffer)).skip(count as int),
{
    buffer.advance(count)
}

/// Calls `BytesMut::split_to`, which moves bytes from the front into a buffer of their own and
/// panics where there are too few.
#[verifier::external_body]
pub(crate) fn buffer_split_to(buffer: &mut BytesMut, at: usize) -> (front: BytesMut)
    requires
        at <= contents(*old(buffer)).len(),
    ensures
        contents(front) == contents(*old(buffer)).take(at as int),
        contents(*final(buffer)) == contents(*old(buffer)).skip(at as int),
{
    buffer.split_to(at)
}

} // verus!

//! Byte buffers of the `bytes` crate, as the message format reads and fills
//! them. Nothing here is proved: each contract restates what the crate does.

use bytes::{Buf, BufMut, Bytes, BytesMut};
use vstd::bytes::{
    spec_u16_from_le_bytes, spec_u16_to_le_bytes, spec_u32_from_le_bytes, spec_u32_to_le_bytes,
    spec_u64_from_le_bytes, spec_u64_to_le_bytes,
};
use vstd::prelude::*;

verus! {

/// `bytes::Bytes`: a buffer to read from. Nothing is known of what is inside
/// but what [`unread`] names.
#[verifier::external_type_specification]
#[verifier::external_body]
pub struct ExBytes(Bytes);

/// `bytes::BytesMut`: a buffer to write to. Nothing is known of what is
/// inside but what [`written`] names.
#[verifier::external_type_specification]
#[verifier::external_body]
pub struct ExBytesMut(BytesMut);

/// The bytes that are left to read in a [`Bytes`], the next one first.
pub uninterp spec fn unread(data: Bytes) -> Seq<u8>;

/// The bytes that a [`BytesMut`] holds, in the order in which they were written.
pub uninterp spec fn written(data: BytesMut) -> Seq<u8>;

/// `Buf::remaining` of a `Bytes`: the number of bytes that are left to read.
#[verifier::external_body]
pub(crate) fn remaining(data: &Bytes) -> (count: usize)
    ensures
        count == unread(*data).len(),
{
    data.remaining()
}

/// `Buf::get_u64_le` of a `Bytes`: takes the next 8 bytes and reads them as
/// a little-endian number. It panics where fewer than 8 bytes are left.
#[verifier::external_body]
pub(crate) fn get_u64_le(data: &mut Bytes) -> (value: u64)
    requires
        unread(*old(data)).len() >= 8,
    ensures
        value == spec_u64_from_le_bytes(unread(*old(data)).subrange(0, 8)),
        unread(*final(data)) == unread(*old(data)).skip(8),
{
    data.get_u64_le()
}

/// `Buf::get_u32_le` of a `Bytes`: takes the next 4 bytes and reads them as
/// a little-endian number. It panics where fewer than 4 bytes are left.
#[verifier::external_body]
pub(crate) fn get_u32_le(data: &mut Bytes) -> (value: u32)
    requires
        unread(*old(data)).len() >= 4,
    ensures
        value == spec_u32_from_le_bytes(unread(*old(data)).subrange(0, 4)),
        unread(*final(data)) == unread(*old(data)).skip(4),
{
    data.get_u32_le()
}

/// `Buf::get_u16_le` of a `Bytes`: takes the next 2 bytes and reads them as
/// a little-endian number. It panics where fewer than 2 bytes are left.
#[verifier::external_body]
pub(crate) fn get_u16_le(data: &mut Bytes) -> (value: u16)
    requires
        unread(*old(data)).len() >= 2,
    ensures
        value == spec_u16_from_le_bytes(unread(*old(data)).subrange(0, 2)),
        unread(*final(data)) == unread(*old(data)).skip(2),
{
    data.get_u16_le()
}

/// `BytesMut::clear`: empties the buffer.
#[verifier::external_body]
pub(crate) fn clear(data: &mut BytesMut)
    ensures
        written(*final(data)) == Seq::<u8>::empty(),
{
    data.clear()
}

/// `BytesMut::len`: the number of bytes in the buffer.
#[verifier::external_body]
pub(crate) fn len(data: &BytesMut) -> (count: usize)
    ensures
        count == written(*data).len(),
{
    data.len()
}

/// `BufMut::put_u64_le` of a `BytesMut`: appends the number's 8 bytes,
/// the lowest first. The buffer grows as needed.
#[verifier::external_body]
pub(crate) fn put_u64_le(data: &mut BytesMut, value: u64)
    ensures
        written(*final(data)) == written(*old(data)) + spec_u64_to_le_bytes(value),
{
    data.put_u64_le(value)
}

/// `BufMut::put_u32_le` of a `BytesMut`: appends the number's 4 bytes,
/// the lowest first. The buffer grows as needed.
#[verifier::external_body]
pub(crate) fn put_u32_le(data: &mut BytesMut, value: u32)
    ensures
        written(*final(data)) == written(*old(data)) + spec_u32_to_le_bytes(value),
{
    data.put_u32_le(value)
}

/// `BufMut::put_u16_le` of a `BytesMut`: appends the number's 2 bytes,
/// the lowest first. The buffer grows as needed.
#[verifier::external_body]
pub(crate) fn put_u16_le(data: &mut BytesMut, value: u16)
    ensures
        written(*final(data)) == written(*old(data)) + spec_u16_to_le_bytes(value),
{
    data.put_u16_le(value)
}

} // verus!

//! The byte buffers that frames are written to, and the MessagePack writers on them.

use bytes::{BufMut, Bytes, BytesMut};
use vstd::prelude::*;

verus! {

/// `bytes::BytesMut`, a growable byte buffer.
#[verifier::external_type_specification]
#[verifier::external_body]
pub struct ExBytesMut(bytes::BytesMut);

/// `bytes::Bytes`, an immutable byte buffer.
#[verifier::external_type_specification]
#[verifier::external_body]
pub struct ExBytes(bytes::Bytes);

/// The bytes that a growable buffer holds.
pub uninterp spec fn buffer_bytes(buffer: BytesMut) -> Seq<u8>;

/// The bytes that an immutable buffer holds.
pub uninterp spec fn shared_bytes(buffer: Bytes) -> Seq<u8>;

/// What every writer below does: `encoding` is appended, and the writer reports success, exactly
/// where the longer buffer stays within `isize::MAX` bytes, the most that a buffer can hold;
/// otherwise it fails, and what the buffer held before is still in front. That memory can be had
/// for a longer buffer is taken for granted, as it is for a `Vec`.
pub open spec fn appended(before: Seq<u8>, after: Seq<u8>, encoding: Seq<u8>, ok: bool) -> bool {
    &&& ok <==> before.len() + encoding.len() <= isize::MAX
    &&& ok ==> after == before + encoding
    &&& before.is_prefix_of(after)
}

/// `BytesMut::len`: the number of bytes that the buffer holds.
pub assume_specification[ BytesMut::len ](buffer: &BytesMut) -> (len: usize)
    ensures
        len == buffer_bytes(*buffer).len(),
;

/// `BytesMut::truncate`: keeps the first `len` bytes; a `len` past the end changes nothing.
pub assume_specification[ BytesMut::truncate ](buffer: &mut BytesMut, len: usize)
    ensures
        buffer_bytes(*final(buffer)) == if len <= buffer_bytes(*old(buffer)).len() {
            buffer_bytes(*old(buffer)).take(len as int)
        } else {
            buffer_bytes(*old(buffer))
        },
;

/// `Bytes::from` on a `Vec<u8>`: the buffer holds the bytes of the vector.
#[verifier::external_body]
pub(crate) fn freeze(bytes: Vec<u8>) -> (buffer: Bytes)
    ensures
        shared_bytes(buffer) == bytes@,
{
    Bytes::from(bytes)
}

/// `rmp::encode::write_map_len` on the buffer's `io::Write` adapter: appends the header of a map.
#[verifier::external_body]
pub(crate) fn put_map_len(out: &mut BytesMut, len: u32) -> (ok: bool)
    ensures
        appended(buffer_bytes(*old(out)), buffer_bytes(*final(out)), crate::msgpack::map_len_bytes(len), ok),
{
    rmp::encode::write_map_len(&mut out.writer(), len).is_ok()
}

/// `rmp::encode::write_array_len` on the buffer's `io::Write` adapter: appends the header of an
/// array.
#[verifier::external_body]
pub(crate) fn put_array_len(out: &mut BytesMut, len: u32) -> (ok: bool)
    ensures
        appended(buffer_bytes(*old(out)), buffer_bytes(*final(out)), crate::msgpack::array_len_bytes(len), ok),
{
    rmp::encode::write_array_len(&mut out.writer(), len).is_ok()
}

/// `rmp::encode::write_uint` on the buffer's `io::Write` adapter: appends the shortest encoding of
/// an unsigned integer.
#[verifier::external_body]
pub(crate) fn put_uint(out: &mut BytesMut, value: u64) -> (ok: bool)
    ensures
        appended(buffer_bytes(*old(out)), buffer_bytes(*final(out)), crate::msgpack::uint_bytes(value), ok),
{
    rmp::encode::write_uint(&mut out.writer(), value).is_ok()
}

/// `rmp::encode::write_str` on the buffer's `io::Write` adapter: appends a string. The writer
/// keeps 32 bits of the length, so a longer text is left out.
#[verifier::external_body]
pub(crate) fn put_str(out: &mut BytesMut, text: &str) -> (ok: bool)
    requires
        vstd::utf8::encode_utf8(text@).len() <= u32::MAX,
    ensures
        appended(buffer_bytes(*old(out)), buffer_bytes(*final(out)), crate::msgpack::str_bytes(text@), ok),
{
    rmp::encode::write_str(&mut out.writer(), text).is_ok()
}

/// `rmp::encode::write_bool` on the buffer's `io::Write` adapter: appends a boolean.
#[verifier::external_body]
pub(crate) fn put_bool(out: &mut BytesMut, value: bool) -> (ok: bool)
    ensures
        appended(buffer_bytes(*old(out)), buffer_bytes(*final(out)), crate::msgpack::bool_bytes(value), ok),
{
    rmp::encode::write_bool(&mut out.writer(), value).is_ok()
}

} // verus!

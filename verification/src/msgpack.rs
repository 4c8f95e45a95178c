//! The MessagePack byte format, as far as response frames use it.

use vstd::prelude::*;

verus! {

/// The `width` low-order bytes of `v`, most significant first.
pub open spec fn be_bytes(v: int, width: nat) -> Seq<u8>
    decreases width,
{
    if width == 0 {
        Seq::empty()
    } else {
        be_bytes(v / 256, (width - 1) as nat).push((v % 256) as u8)
    }
}

/// The shortest encoding of an unsigned integer.
pub open spec fn uint_bytes(v: u64) -> Seq<u8> {
    if v < 0x80 {
        seq![v as u8]
    } else if v < 0x100 {
        seq![0xccu8] + be_bytes(v as int, 1)
    } else if v < 0x1_0000 {
        seq![0xcdu8] + be_bytes(v as int, 2)
    } else if v < 0x1_0000_0000 {
        seq![0xceu8] + be_bytes(v as int, 4)
    } else {
        seq![0xcfu8] + be_bytes(v as int, 8)
    }
}

/// The header of a map of `len` entries.
pub open spec fn map_len_bytes(len: u32) -> Seq<u8> {
    if len < 16 {
        seq![(0x80 + len) as u8]
    } else if len < 0x1_0000 {
        seq![0xdeu8] + be_bytes(len as int, 2)
    } else {
        seq![0xdfu8] + be_bytes(len as int, 4)
    }
}

/// The header of an array of `len` items.
pub open spec fn array_len_bytes(len: u32) -> Seq<u8> {
    if len < 16 {
        seq![(0x90 + len) as u8]
    } else if len < 0x1_0000 {
        seq![0xdcu8] + be_bytes(len as int, 2)
    } else {
        seq![0xddu8] + be_bytes(len as int, 4)
    }
}

/// The header of a string whose text takes `len` bytes.
pub open spec fn str_len_bytes(len: u32) -> Seq<u8> {
    if len < 32 {
        seq![(0xa0 + len) as u8]
    } else if len < 0x100 {
        seq![0xd9u8] + be_bytes(len as int, 1)
    } else if len < 0x1_0000 {
        seq![0xdau8] + be_bytes(len as int, 2)
    } else {
        seq![0xdbu8] + be_bytes(len as int, 4)
    }
}

/// A string: its header, then its text in UTF-8.
pub open spec fn str_bytes(text: Seq<char>) -> Seq<u8> {
    str_len_bytes(vstd::utf8::encode_utf8(text).len() as u32) + vstd::utf8::encode_utf8(text)
}

/// A boolean.
pub open spec fn bool_bytes(b: bool) -> Seq<u8> {
    if b {
        seq![0xc3u8]
    } else {
        seq![0xc2u8]
    }
}

/// The number that `bytes` spell, most significant first.
pub open spec fn be_value(bytes: Seq<u8>) -> int
    decreases bytes.len(),
{
    if bytes.len() == 0 {
        0
    } else {
        be_value(bytes.drop_last()) * 256 + bytes.last()
    }
}

/// How many numbers `width` bytes can spell.
pub open spec fn be_limit(width: nat) -> int
    decreases width,
{
    if width == 0 {
        1
    } else {
        256 * be_limit((width - 1) as nat)
    }
}

/// A number of `width` bytes at the front of `bytes`, and what follows it.
pub open spec fn take_be(bytes: Seq<u8>, width: nat) -> Option<(int, Seq<u8>)> {
    if width <= bytes.len() {
        Some((be_value(bytes.take(width as int)), bytes.skip(width as int)))
    } else {
        None
    }
}

/// A number that `width` bytes can spell is read back from the bytes that spell it.
pub proof fn lemma_be_roundtrip(v: int, width: nat)
    requires
        0 <= v < be_limit(width),
    ensures
        be_bytes(v, width).len() == width,
        be_value(be_bytes(v, width)) == v,
    decreases width,
{
    if width > 0 {
        lemma_be_roundtrip(v / 256, (width - 1) as nat);
        let front = be_bytes(v / 256, (width - 1) as nat);
        assert(front.push((v % 256) as u8).drop_last() =~= front);
    }
}

/// A number at the front of a byte sequence is read back together with what follows it.
pub proof fn lemma_take_be(v: int, width: nat, rest: Seq<u8>)
    requires
        0 <= v < be_limit(width),
    ensures
        take_be(be_bytes(v, width) + rest, width) == Some((v, rest)),
{
    lemma_be_roundtrip(v, width);
    let bytes = be_bytes(v, width) + rest;
    assert(bytes.take(width as int) =~= be_bytes(v, width));
    assert(bytes.skip(width as int) =~= rest);
}

} // verus!

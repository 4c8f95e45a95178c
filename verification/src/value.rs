//! MessagePack value trees: what a frame says, apart from its bytes.

use vstd::prelude::*;

verus! {

/// A value that a response frame can carry.
#[verifier::ext_equal]
pub ghost enum Value {
    Boolean(bool),
    Unsigned(u64),
    Text(Seq<char>),
    Items(Seq<Value>),
    Entries(Seq<(Seq<char>, Value)>),
}

/// The bytes of a value, as the generic encoder writes them: every length and every integer in its
/// shortest form, and entries in their order.
pub open spec fn encode_value(value: Value) -> Seq<u8>
    decreases value,
{
    match value {
        Value::Boolean(b) => crate::msgpack::bool_bytes(b),
        Value::Unsigned(n) => crate::msgpack::uint_bytes(n),
        Value::Text(text) => crate::msgpack::str_bytes(text),
        Value::Items(items) => crate::msgpack::array_len_bytes(items.len() as u32) + encode_items(
            items,
        ),
        Value::Entries(entries) => crate::msgpack::map_len_bytes(entries.len() as u32)
            + encode_entries(entries),
    }
}

/// The bytes of `items`, one behind the other.
pub open spec fn encode_items(items: Seq<Value>) -> Seq<u8>
    decreases items,
{
    if items.len() == 0 {
        Seq::empty()
    } else {
        encode_value(items[0]) + encode_items(items.drop_first())
    }
}

/// The bytes of `entries`, each a key and its value, one behind the other.
pub open spec fn encode_entries(entries: Seq<(Seq<char>, Value)>) -> Seq<u8>
    decreases entries,
{
    if entries.len() == 0 {
        Seq::empty()
    } else {
        crate::msgpack::str_bytes(entries[0].0) + encode_value(entries[0].1) + encode_entries(
            entries.drop_first(),
        )
    }
}

/// Whether every length in the value fits the 32 bits that the format has for one.
pub open spec fn encodable(value: Value) -> bool
    decreases value,
{
    match value {
        Value::Boolean(_) => true,
        Value::Unsigned(_) => true,
        Value::Text(text) => vstd::utf8::encode_utf8(text).len() <= u32::MAX,
        Value::Items(items) => items.len() <= u32::MAX && encodable_items(items),
        Value::Entries(entries) => entries.len() <= u32::MAX && encodable_entries(entries),
    }
}

/// Whether each of `items` is encodable.
pub open spec fn encodable_items(items: Seq<Value>) -> bool
    decreases items,
{
    items.len() == 0 || (encodable(items[0]) && encodable_items(items.drop_first()))
}

/// Whether the key and the value of each of `entries` is encodable.
pub open spec fn encodable_entries(entries: Seq<(Seq<char>, Value)>) -> bool
    decreases entries,
{
    entries.len() == 0 || (vstd::utf8::encode_utf8(entries[0].0).len() <= u32::MAX && encodable(
        entries[0].1,
    ) && encodable_entries(entries.drop_first()))
}

/// A text of `len` bytes at the front of `bytes`, and what follows it.
pub open spec fn take_text(bytes: Seq<u8>, len: int) -> Option<(Seq<char>, Seq<u8>)> {
    if 0 <= len <= bytes.len() && vstd::utf8::valid_utf8(bytes.take(len)) {
        Some((vstd::utf8::decode_utf8(bytes.take(len)), bytes.skip(len)))
    } else {
        None
    }
}

/// The string at the front of `bytes`, and what follows it.
pub open spec fn decode_text(bytes: Seq<u8>) -> Option<(Seq<char>, Seq<u8>)> {
    if bytes.len() == 0 {
        None
    } else if 0xa0 <= bytes[0] < 0xc0 {
        take_text(bytes.skip(1), bytes[0] - 0xa0)
    } else if 0xd9 <= bytes[0] <= 0xdb {
        let width: nat = if bytes[0] == 0xd9 {
            1
        } else if bytes[0] == 0xda {
            2
        } else {
            4
        };
        match crate::msgpack::take_be(bytes.skip(1), width) {
            Some((len, rest)) => take_text(rest, len),
            None => None,
        }
    } else {
        None
    }
}

/// The unsigned integer at the front of `bytes`, and what follows it.
pub open spec fn decode_uint(bytes: Seq<u8>) -> Option<(u64, Seq<u8>)> {
    if bytes.len() == 0 {
        None
    } else if bytes[0] < 0x80 {
        Some((bytes[0] as u64, bytes.skip(1)))
    } else if 0xcc <= bytes[0] <= 0xcf {
        let width: nat = if bytes[0] == 0xcc {
            1
        } else if bytes[0] == 0xcd {
            2
        } else if bytes[0] == 0xce {
            4
        } else {
            8
        };
        match crate::msgpack::take_be(bytes.skip(1), width) {
            Some((n, rest)) => Some((n as u64, rest)),
            None => None,
        }
    } else {
        None
    }
}

/// A length at the front of `bytes`, in the form that arrays (`short` 0x90, `long` 0xdc) and maps
/// (`short` 0x80, `long` 0xde) have for it, and what follows it.
pub open spec fn decode_len(bytes: Seq<u8>, short: u8, long: u8) -> Option<(int, Seq<u8>)> {
    if bytes.len() == 0 {
        None
    } else if short <= bytes[0] < short + 16 {
        Some((bytes[0] - short, bytes.skip(1)))
    } else if bytes[0] == long {
        crate::msgpack::take_be(bytes.skip(1), 2)
    } else if bytes[0] == long + 1 {
        crate::msgpack::take_be(bytes.skip(1), 4)
    } else {
        None
    }
}

/// The value at the front of `bytes`, and what follows it.
#[verifier::opaque]
pub open spec fn decode_value(bytes: Seq<u8>) -> Option<(Value, Seq<u8>)>
    decreases bytes.len(), 0int,
{
    if bytes.len() == 0 {
        None
    } else if bytes[0] == 0xc2 || bytes[0] == 0xc3 {
        Some((Value::Boolean(bytes[0] == 0xc3), bytes.skip(1)))
    } else if let Some((n, rest)) = decode_uint(bytes) {
        Some((Value::Unsigned(n), rest))
    } else if let Some((text, rest)) = decode_text(bytes) {
        Some((Value::Text(text), rest))
    } else if let Some((len, rest)) = decode_len(bytes, 0x90, 0xdc) {
        match decode_items(len as nat, rest) {
            Some((items, rest)) => Some((Value::Items(items), rest)),
            None => None,
        }
    } else if let Some((len, rest)) = decode_len(bytes, 0x80, 0xde) {
        match decode_entries(len as nat, rest) {
            Some((entries, rest)) => Some((Value::Entries(entries), rest)),
            None => None,
        }
    } else {
        None
    }
}

/// `len` values at the front of `bytes`, and what follows them.
pub open spec fn decode_items(len: nat, bytes: Seq<u8>) -> Option<(Seq<Value>, Seq<u8>)>
    decreases bytes.len(), 1int,
{
    if len == 0 {
        Some((Seq::empty(), bytes))
    } else {
        match decode_value(bytes) {
            Some((first, rest)) => if rest.len() < bytes.len() {
                match decode_items((len - 1) as nat, rest) {
                    Some((others, rest)) => Some((seq![first] + others, rest)),
                    None => None,
                }
            } else {
                None
            },
            None => None,
        }
    }
}

/// `len` entries at the front of `bytes`, and what follows them.
pub open spec fn decode_entries(len: nat, bytes: Seq<u8>) -> Option<
    (Seq<(Seq<char>, Value)>, Seq<u8>),
>
    decreases bytes.len(), 1int,
{
    if len == 0 {
        Some((Seq::empty(), bytes))
    } else {
        match decode_text(bytes) {
            Some((key, behind)) => if behind.len() < bytes.len() {
                match decode_value(behind) {
                    Some((first, rest)) => if rest.len() < behind.len() {
                        match decode_entries((len - 1) as nat, rest) {
                            Some((others, rest)) => Some((seq![(key, first)] + others, rest)),
                            None => None,
                        }
                    } else {
                        None
                    },
                    None => None,
                }
            } else {
                None
            },
            None => None,
        }
    }
}

proof fn lemma_be_limits()
    ensures
        crate::msgpack::be_limit(1) == 0x100,
        crate::msgpack::be_limit(2) == 0x1_0000,
        crate::msgpack::be_limit(4) == 0x1_0000_0000,
        crate::msgpack::be_limit(8) == 0x1_0000_0000_0000_0000,
{
    reveal_with_fuel(crate::msgpack::be_limit, 9);
}

proof fn lemma_decode_uint(n: u64, rest: Seq<u8>)
    ensures
        decode_uint(crate::msgpack::uint_bytes(n) + rest) == Some((n, rest)),
        decode_value(crate::msgpack::uint_bytes(n) + rest) == Some((Value::Unsigned(n), rest)),
        crate::msgpack::uint_bytes(n).len() > 0,
{
    reveal(decode_value);
    lemma_be_limits();
    let bytes = crate::msgpack::uint_bytes(n) + rest;
    if n < 0x80 {
        assert(bytes.skip(1) =~= rest);
    } else {
        let width: nat = if n < 0x100 {
            1
        } else if n < 0x1_0000 {
            2
        } else if n < 0x1_0000_0000 {
            4
        } else {
            8
        };
        crate::msgpack::lemma_take_be(n as int, width, rest);
        assert(bytes.skip(1) =~= crate::msgpack::be_bytes(n as int, width) + rest);
    }
}

proof fn lemma_take_text(text: Seq<char>, rest: Seq<u8>)
    ensures
        take_text(
            vstd::utf8::encode_utf8(text) + rest,
            vstd::utf8::encode_utf8(text).len() as int,
        ) == Some((text, rest)),
{
    let encoded = vstd::utf8::encode_utf8(text);
    vstd::utf8::encode_utf8_valid_utf8(text);
    vstd::utf8::encode_utf8_decode_utf8(text);
    assert((encoded + rest).take(encoded.len() as int) =~= encoded);
    assert((encoded + rest).skip(encoded.len() as int) =~= rest);
}

proof fn lemma_decode_text(text: Seq<char>, rest: Seq<u8>)
    requires
        vstd::utf8::encode_utf8(text).len() <= u32::MAX,
    ensures
        decode_text(crate::msgpack::str_bytes(text) + rest) == Some((text, rest)),
        decode_value(crate::msgpack::str_bytes(text) + rest) == Some((Value::Text(text), rest)),
        crate::msgpack::str_bytes(text).len() > 0,
{
    reveal(decode_value);
    lemma_be_limits();
    lemma_take_text(text, rest);
    let encoded = vstd::utf8::encode_utf8(text);
    let len = encoded.len() as u32;
    let bytes = crate::msgpack::str_bytes(text) + rest;
    if len < 32 {
        assert(bytes.skip(1) =~= encoded + rest);
    } else {
        let width: nat = if len < 0x100 {
            1
        } else if len < 0x1_0000 {
            2
        } else {
            4
        };
        crate::msgpack::lemma_take_be(len as int, width, encoded + rest);
        assert(bytes.skip(1) =~= crate::msgpack::be_bytes(len as int, width) + (encoded + rest));
    }
}

proof fn lemma_decode_len(len: u32, rest: Seq<u8>)
    ensures
        decode_len(crate::msgpack::array_len_bytes(len) + rest, 0x90, 0xdc) == Some(
            (len as int, rest),
        ),
        decode_len(crate::msgpack::map_len_bytes(len) + rest, 0x80, 0xde) == Some(
            (len as int, rest),
        ),
{
    lemma_be_limits();
    let array = crate::msgpack::array_len_bytes(len) + rest;
    let map = crate::msgpack::map_len_bytes(len) + rest;
    if len < 16 {
        assert(array.skip(1) =~= rest);
        assert(map.skip(1) =~= rest);
    } else {
        let width: nat = if len < 0x1_0000 {
            2
        } else {
            4
        };
        crate::msgpack::lemma_take_be(len as int, width, rest);
        assert(array.skip(1) =~= crate::msgpack::be_bytes(len as int, width) + rest);
        assert(map.skip(1) =~= crate::msgpack::be_bytes(len as int, width) + rest);
    }
}

proof fn lemma_decode_bool(b: bool, rest: Seq<u8>)
    ensures
        decode_value(crate::msgpack::bool_bytes(b) + rest) == Some((Value::Boolean(b), rest)),
{
    reveal(decode_value);
    assert((crate::msgpack::bool_bytes(b) + rest).skip(1) =~= rest);
}

proof fn lemma_decode_value_items(len: u32, behind: Seq<u8>)
    ensures
        decode_value(crate::msgpack::array_len_bytes(len) + behind) == match decode_items(
            len as nat,
            behind,
        ) {
            Some((items, rest)) => Some((Value::Items(items), rest)),
            None => None,
        },
{
    reveal(decode_value);
    lemma_decode_len(len, behind);
    let bytes = crate::msgpack::array_len_bytes(len) + behind;
    assert(0x90 <= bytes[0] < 0xa0 || bytes[0] == 0xdc || bytes[0] == 0xdd);
    assert(decode_uint(bytes) is None);
    assert(decode_text(bytes) is None);
}

proof fn lemma_decode_value_entries(len: u32, behind: Seq<u8>)
    ensures
        decode_value(crate::msgpack::map_len_bytes(len) + behind) == match decode_entries(
            len as nat,
            behind,
        ) {
            Some((entries, rest)) => Some((Value::Entries(entries), rest)),
            None => None,
        },
{
    reveal(decode_value);
    lemma_decode_len(len, behind);
    let bytes = crate::msgpack::map_len_bytes(len) + behind;
    assert(0x80 <= bytes[0] < 0x90 || bytes[0] == 0xde || bytes[0] == 0xdf);
    assert(decode_uint(bytes) is None);
    assert(decode_text(bytes) is None);
    assert(decode_len(bytes, 0x90, 0xdc) is None);
}

proof fn lemma_decode_entries_step(
    len: nat,
    bytes: Seq<u8>,
    key: Seq<char>,
    behind: Seq<u8>,
    first: Value,
    rest: Seq<u8>,
)
    requires
        len > 0,
        decode_text(bytes) == Some((key, behind)),
        decode_value(behind) == Some((first, rest)),
        rest.len() < behind.len() < bytes.len(),
    ensures
        decode_entries(len, bytes) == match decode_entries((len - 1) as nat, rest) {
            Some((others, end)) => Some((seq![(key, first)] + others, end)),
            None => None,
        },
{
    reveal(decode_value);
}

pub(crate) proof fn lemma_decode_items_step(len: nat, bytes: Seq<u8>, first: Value, rest: Seq<u8>)
    requires
        len > 0,
        decode_value(bytes) == Some((first, rest)),
        rest.len() < bytes.len(),
    ensures
        decode_items(len, bytes) == match decode_items((len - 1) as nat, rest) {
            Some((others, end)) => Some((seq![first] + others, end)),
            None => None,
        },
{
    reveal(decode_value);
}

/// Decoding gives back what was encoded, and leaves what follows: the encoding of a value marks
/// its own end.
pub proof fn law_decode_encoded(value: Value, rest: Seq<u8>)
    requires
        encodable(value),
    ensures
        decode_value(encode_value(value) + rest) == Some((value, rest)),
    decreases value,
{
    match value {
        Value::Boolean(b) => {
            lemma_decode_bool(b, rest);
        },
        Value::Unsigned(n) => {
            lemma_decode_uint(n, rest);
        },
        Value::Text(text) => {
            lemma_decode_text(text, rest);
        },
        Value::Items(items) => {
            let len = items.len() as u32;
            let behind = encode_items(items) + rest;
            lemma_decode_value_items(len, behind);
            lemma_decode_items(items, rest);
            assert(encode_value(value) + rest =~= crate::msgpack::array_len_bytes(len) + behind);
        },
        Value::Entries(entries) => {
            let len = entries.len() as u32;
            let behind = encode_entries(entries) + rest;
            lemma_decode_value_entries(len, behind);
            lemma_decode_entries(entries, rest);
            assert(encode_value(value) + rest =~= crate::msgpack::map_len_bytes(len) + behind);
        },
    }
}

proof fn lemma_encoded_not_empty(value: Value)
    ensures
        encode_value(value).len() > 0,
{
    reveal_with_fuel(encode_value, 1);
    match value {
        Value::Unsigned(n) => {
            lemma_decode_uint(n, Seq::empty());
        },
        _ => {},
    }
}

proof fn lemma_decode_items(items: Seq<Value>, rest: Seq<u8>)
    requires
        encodable_items(items),
    ensures
        decode_items(items.len(), encode_items(items) + rest) == Some((items, rest)),
    decreases items,
{
    if items.len() == 0 {
        assert(encode_items(items) + rest =~= rest);
        assert(items =~= Seq::empty());
    } else {
        let others = items.drop_first();
        let behind = encode_items(others) + rest;
        law_decode_encoded(items[0], behind);
        lemma_encoded_not_empty(items[0]);
        lemma_decode_items(others, rest);
        assert(encode_items(items) + rest =~= encode_value(items[0]) + behind);
        lemma_decode_items_step(items.len(), encode_items(items) + rest, items[0], behind);
        assert(seq![items[0]] + others =~= items);
    }
}

proof fn lemma_decode_entries(entries: Seq<(Seq<char>, Value)>, rest: Seq<u8>)
    requires
        encodable_entries(entries),
    ensures
        decode_entries(entries.len(), encode_entries(entries) + rest) == Some((entries, rest)),
    decreases entries,
{
    if entries.len() == 0 {
        assert(encode_entries(entries) + rest =~= rest);
        assert(entries =~= Seq::empty());
    } else {
        let others = entries.drop_first();
        let (key, first) = entries[0];
        let behind = encode_entries(others) + rest;
        let from_value = encode_value(first) + behind;
        lemma_decode_text(key, from_value);
        law_decode_encoded(first, behind);
        lemma_encoded_not_empty(first);
        lemma_decode_entries(others, rest);
        assert(encode_entries(entries) + rest =~= crate::msgpack::str_bytes(key) + from_value);
        lemma_decode_entries_step(
            entries.len(),
            encode_entries(entries) + rest,
            key,
            from_value,
            first,
            behind,
        );
        assert(seq![(key, first)] + others =~= entries);
    }
}

} // verus!

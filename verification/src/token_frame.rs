//! The steady-state token frame.

use bytes::BytesMut;
use vstd::prelude::*;

use crate::annotated::KEY_DATA;
use crate::buffer::{put_array_len, put_bool, put_map_len, put_str, put_uint};
use crate::python::{exact_uint, key_is, PyDict, PyValue};

verus! {

/// The key of the end-of-stream flag.
pub const KEY_COMPLETE_FINAL: &'static str = "complete_final";

/// The key of a frame's token list.
pub const KEY_TOKEN_IDS: &'static str = "token_ids";

/// The key of a frame's choice index.
pub const KEY_INDEX: &'static str = "index";

/// The encodings of `ids`, one behind the other.
pub open spec fn uint_list_bytes(ids: Seq<u64>) -> Seq<u8>
    decreases ids.len(),
{
    if ids.len() == 0 {
        Seq::empty()
    } else {
        uint_list_bytes(ids.drop_last()) + crate::msgpack::uint_bytes(ids.last())
    }
}

/// The bytes of a frame in front of its tokens: the stream envelope, the annotation envelope and
/// the payload map are opened, and the token list is announced with its length.
pub open spec fn frame_head(token_count: u32) -> Seq<u8> {
    crate::msgpack::map_len_bytes(2) + crate::msgpack::str_bytes(KEY_DATA@)
        + crate::msgpack::map_len_bytes(1) + crate::msgpack::str_bytes(KEY_DATA@)
        + crate::msgpack::map_len_bytes(2) + crate::msgpack::str_bytes(KEY_TOKEN_IDS@)
        + crate::msgpack::array_len_bytes(token_count)
}

/// The bytes of a frame behind its tokens: the index, and the flag that more frames follow.
pub open spec fn frame_tail(index: u64) -> Seq<u8> {
    crate::msgpack::str_bytes(KEY_INDEX@) + crate::msgpack::uint_bytes(index)
        + crate::msgpack::str_bytes(KEY_COMPLETE_FINAL@) + crate::msgpack::bool_bytes(false)
}

/// A whole token frame.
pub open spec fn token_frame_bytes(ids: Seq<u64>, index: u64) -> Seq<u8> {
    frame_head(ids.len() as u32) + uint_list_bytes(ids) + frame_tail(index)
}

/// Whether every token could be converted and their number is the one announced.
pub open spec fn tokens_complete(token_ids: Seq<Option<u64>>, token_count: u32) -> bool {
    &&& token_ids.len() == token_count
    &&& forall|i: int| 0 <= i < token_ids.len() ==> (#[trigger] token_ids[i]) is Some
}

/// The tokens, where each could be converted.
pub open spec fn token_values(token_ids: Seq<Option<u64>>) -> Seq<u64> {
    token_ids.map_values(|id: Option<u64>| id->0)
}

/// The tokens in front of the first that could not be converted.
pub open spec fn leading_tokens(token_ids: Seq<Option<u64>>) -> Seq<u64>
    decreases token_ids.len(),
{
    if token_ids.len() == 0 {
        Seq::empty()
    } else if token_ids[0] is None {
        Seq::empty()
    } else {
        seq![token_ids[0]->0] + leading_tokens(token_ids.drop_first())
    }
}

/// What a writer puts into the buffer for these arguments: a whole frame, or, where a token could
/// not be converted or the announced number is wrong, what stands in front of that point.
pub open spec fn attempted_bytes(
    token_ids: Seq<Option<u64>>,
    token_count: u32,
    index: u64,
) -> Seq<u8> {
    if tokens_complete(token_ids, token_count) {
        token_frame_bytes(token_values(token_ids), index)
    } else {
        frame_head(token_count) + uint_list_bytes(leading_tokens(token_ids))
    }
}

/// How an attempt to write a frame leaves the buffer.
///
/// It succeeds exactly where the tokens are complete and the frame fits into the buffer. What was
/// there before stays in front in any case.
pub open spec fn frame_attempt(
    before: Seq<u8>,
    after: Seq<u8>,
    token_ids: Seq<Option<u64>>,
    token_count: u32,
    index: u64,
    ok: bool,
) -> bool {
    let attempted = attempted_bytes(token_ids, token_count, index);
    &&& ok <==> tokens_complete(token_ids, token_count) && before.len() + attempted.len()
        <= isize::MAX
    &&& before.len() + attempted.len() <= isize::MAX ==> after == before + attempted
    &&& before.is_prefix_of(after)
}

/// The token list and the index of `dict`, where it has the shape of a token frame: a `token_ids`
/// entry with a list, then an `index` entry with an unsigned integer, and no other entry. The
/// order counts, for a map on the wire records its entries in the order of the `dict`.
pub open spec fn frame_shape(dict: PyDict) -> Option<(Seq<Option<u64>>, u64)> {
    let entries = dict.entries@;
    if entries.len() == 2 && crate::python::is_key(entries[0].0, KEY_TOKEN_IDS@)
        && crate::python::is_key(entries[1].0, KEY_INDEX@) && entries[0].1 is List
        && entries[0].1->List_0@.len() <= u32::MAX && crate::python::uint_of(
        entries[1].1,
    ) is Some {
        Some(
            (
                entries[0].1->List_0@.map_values(|item: PyValue| crate::python::uint_of(item)),
                crate::python::uint_of(entries[1].1)->0,
            ),
        )
    } else {
        None
    }
}

/// The tokens and the index of `dict`, where it is a token frame: it has the shape of one, and
/// every token is an unsigned integer.
pub open spec fn token_frame_of(dict: PyDict) -> Option<(Seq<u64>, u64)> {
    match frame_shape(dict) {
        Some((ids, index)) => if tokens_complete(ids, ids.len() as u32) {
            Some((token_values(ids), index))
        } else {
            None
        },
        None => None,
    }
}

pub(crate) proof fn lemma_key_lengths()
    ensures
        vstd::utf8::encode_utf8(KEY_DATA@).len() == 4,
        vstd::utf8::encode_utf8(KEY_COMPLETE_FINAL@).len() == 14,
        vstd::utf8::encode_utf8(KEY_TOKEN_IDS@).len() == 9,
        vstd::utf8::encode_utf8(KEY_INDEX@).len() == 5,
{
    reveal_strlit("data");
    reveal_strlit("complete_final");
    reveal_strlit("token_ids");
    reveal_strlit("index");
    vstd::utf8::is_ascii_chars_encode_utf8(KEY_DATA@);
    vstd::utf8::is_ascii_chars_encode_utf8(KEY_COMPLETE_FINAL@);
    vstd::utf8::is_ascii_chars_encode_utf8(KEY_TOKEN_IDS@);
    vstd::utf8::is_ascii_chars_encode_utf8(KEY_INDEX@);
}

/// A successful write followed by another is one write of both encodings.
proof fn lemma_appended_both(
    before: Seq<u8>,
    middle: Seq<u8>,
    after: Seq<u8>,
    first: Seq<u8>,
    second: Seq<u8>,
    ok: bool,
)
    requires
        crate::buffer::appended(before, middle, first, true),
        crate::buffer::appended(middle, after, second, ok),
    ensures
        crate::buffer::appended(before, after, first + second, ok),
{
    assert(before + first + second =~= before + (first + second));
    assert(before.is_prefix_of(after)) by {
        assert(middle.take(before.len() as int) =~= before);
        assert(after.take(middle.len() as int) =~= middle);
        assert(after.take(before.len() as int) =~= middle.take(before.len() as int));
    }
}

/// Opens a frame: writes everything in front of its tokens.
fn put_frame_head(out: &mut BytesMut, token_count: u32) -> (ok: bool)
    ensures
        crate::buffer::appended(
            crate::buffer::buffer_bytes(*old(out)),
            crate::buffer::buffer_bytes(*final(out)),
            frame_head(token_count),
            ok,
        ),
{
    proof {
        lemma_key_lengths();
    }
    let ghost start = crate::buffer::buffer_bytes(*out);
    // The stream envelope, whose payload is the annotation envelope.
    if !put_map_len(out, 2) {
        return false;
    }
    if !put_str(out, KEY_DATA) {
        return false;
    }
    // The annotation envelope: its other fields are absent, so they are not written.
    if !put_map_len(out, 1) {
        return false;
    }
    if !put_str(out, KEY_DATA) {
        return false;
    }
    if !put_map_len(out, 2) {
        return false;
    }
    if !put_str(out, KEY_TOKEN_IDS) {
        return false;
    }
    if !put_array_len(out, token_count) {
        return false;
    }
    assert(crate::buffer::buffer_bytes(*out) =~= start + frame_head(token_count));
    true
}

/// Closes a frame: writes everything behind its tokens.
fn put_frame_tail(out: &mut BytesMut, index: u64) -> (ok: bool)
    ensures
        crate::buffer::appended(
            crate::buffer::buffer_bytes(*old(out)),
            crate::buffer::buffer_bytes(*final(out)),
            frame_tail(index),
            ok,
        ),
{
    proof {
        lemma_key_lengths();
    }
    let ghost start = crate::buffer::buffer_bytes(*out);
    if !put_str(out, KEY_INDEX) {
        return false;
    }
    if !put_uint(out, index) {
        return false;
    }
    if !put_str(out, KEY_COMPLETE_FINAL) {
        return false;
    }
    if !put_bool(out, false) {
        return false;
    }
    assert(crate::buffer::buffer_bytes(*out) =~= start + frame_tail(index));
    true
}

proof fn lemma_leading_tokens(token_ids: Seq<Option<u64>>)
    ensures
        leading_tokens(token_ids).len() <= token_ids.len(),
        forall|i: int|
            0 <= i < leading_tokens(token_ids).len() ==> token_ids[i] == Some(
                #[trigger] leading_tokens(token_ids)[i],
            ),
        leading_tokens(token_ids).len() < token_ids.len()
            ==> token_ids[leading_tokens(token_ids).len() as int] is None,
    decreases token_ids.len(),
{
    if token_ids.len() > 0 && token_ids[0] is Some {
        lemma_leading_tokens(token_ids.drop_first());
        let rest = leading_tokens(token_ids.drop_first());
        assert forall|i: int| 0 <= i < leading_tokens(token_ids).len() implies token_ids[i] == Some(
            #[trigger] leading_tokens(token_ids)[i],
        ) by {
            if i > 0 {
                assert(token_ids.drop_first()[i - 1] == Some(rest[i - 1]));
            }
        }
    }
}

proof fn lemma_uint_list_prefix(ids: Seq<u64>, n: int)
    requires
        0 <= n <= ids.len(),
    ensures
        uint_list_bytes(ids.take(n)).len() <= uint_list_bytes(ids).len(),
    decreases ids.len(),
{
    if n < ids.len() {
        assert(ids.drop_last().take(n) =~= ids.take(n));
        lemma_uint_list_prefix(ids.drop_last(), n);
    } else {
        assert(ids.take(n) =~= ids);
    }
}

/// Writes one token frame behind what `out` holds.
///
/// `token_count` is announced ahead of the tokens, so a number that disagrees with `token_ids`
/// would make a frame that cannot be decoded: such a frame is not finished. A token that could not
/// be converted aborts the frame too. On `None` part of a frame may be left in `out`, and the
/// caller rewinds it.
pub fn write_token_frame_bytes(
    token_ids: &[Option<u64>],
    token_count: u32,
    index: u64,
    out: &mut BytesMut,
) -> (res: Option<()>)
    ensures
        frame_attempt(
            crate::buffer::buffer_bytes(*old(out)),
            crate::buffer::buffer_bytes(*final(out)),
            token_ids@,
            token_count,
            index,
            res is Some,
        ),
{
    let ghost start = crate::buffer::buffer_bytes(*out);
    let ghost good = leading_tokens(token_ids@);
    proof {
        lemma_leading_tokens(token_ids@);
        if tokens_complete(token_ids@, token_count) {
            assert(good =~= token_values(token_ids@));
        }
    }
    if !put_frame_head(out, token_count) {
        return None;
    }
    let ghost mut written: Seq<u8> = frame_head(token_count);
    let ghost mut reached = crate::buffer::buffer_bytes(*out);
    assert(good.take(0) =~= Seq::<u64>::empty());
    assert(written =~= frame_head(token_count) + uint_list_bytes(good.take(0)));
    let mut i: usize = 0;
    while i < token_ids.len()
        invariant
            i <= token_ids@.len(),
            i <= good.len() <= token_ids@.len(),
            good == leading_tokens(token_ids@),
            forall|j: int|
                0 <= j < good.len() ==> token_ids@[j] == Some(#[trigger] good[j]),
            good.len() < token_ids@.len() ==> token_ids@[good.len() as int] is None,
            tokens_complete(token_ids@, token_count) ==> good == token_values(token_ids@),
            start == crate::buffer::buffer_bytes(*old(out)),
            reached == crate::buffer::buffer_bytes(*out),
            written == frame_head(token_count) + uint_list_bytes(good.take(i as int)),
            crate::buffer::appended(start, reached, written, true),
        decreases token_ids@.len() - i,
    {
        assert(i < good.len() ==> token_ids@[i as int] == Some(good[i as int]));
        match token_ids[i] {
            None => {
                assert(good.take(i as int) =~= good);
                return None;
            },
            Some(token_id) => {
                assert(i < good.len());
                let ghost next = crate::msgpack::uint_bytes(good[i as int]);
                assert(good.take(i + 1).drop_last() =~= good.take(i as int));
                assert(frame_head(token_count) + uint_list_bytes(good.take(i + 1)) =~= written
                    + next);
                proof {
                    lemma_uint_list_prefix(good, i + 1);
                }
                if !put_uint(out, token_id) {
                    return None;
                }
                proof {
                    let now = crate::buffer::buffer_bytes(*out);
                    lemma_appended_both(start, reached, now, written, next, true);
                    written = written + next;
                    reached = now;
                }
            },
        }
        i = i + 1;
    }
    assert(good.take(i as int) =~= good);
    if token_ids.len() != token_count as usize {
        return None;
    }
    assert forall|j: int| 0 <= j < token_ids@.len() implies (#[trigger] token_ids@[j]) is Some by {
        assert(token_ids@[j] == Some(good[j]));
    }
    if !put_frame_tail(out, index) {
        return None;
    }
    proof {
        let now = crate::buffer::buffer_bytes(*out);
        lemma_appended_both(start, reached, now, written, frame_tail(index), true);
    }
    Some(())
}

/// Whether a `dict` of so many entries can be a token frame.
pub fn has_frame_size(entries: usize) -> (res: bool)
    ensures
        res == (entries == 2),
{
    entries == 2
}

/// Writes `dict` as a token frame behind what `out` holds, where it has the shape of one.
///
/// A `dict` of another shape leaves `out` as it was. A list with an item that is no unsigned
/// integer aborts the frame, and leaves part of it in `out`.
pub fn parse_and_write_token_frame(dict: &PyDict, out: &mut BytesMut) -> (res: Option<()>)
    ensures
        match frame_shape(*dict) {
            Some((ids, index)) => frame_attempt(
                crate::buffer::buffer_bytes(*old(out)),
                crate::buffer::buffer_bytes(*final(out)),
                ids,
                ids.len() as u32,
                index,
                res is Some,
            ),
            None => res is None && crate::buffer::buffer_bytes(*final(out))
                == crate::buffer::buffer_bytes(*old(out)),
        },
{
    if !has_frame_size(dict.entries.len()) || !key_is(&dict.entries[0].0, KEY_TOKEN_IDS) || !key_is(
        &dict.entries[1].0,
        KEY_INDEX,
    ) {
        return None;
    }
    let items: &Vec<PyValue> = match &dict.entries[0].1 {
        PyValue::List(items) => items,
        _ => return None,
    };
    let index: u64 = match exact_uint(&dict.entries[1].1) {
        Some(index) => index,
        None => return None,
    };
    if items.len() > u32::MAX as usize {
        return None;
    }
    let mut token_ids: Vec<Option<u64>> = Vec::new();
    let mut i: usize = 0;
    while i < items.len()
        invariant
            i <= items@.len(),
            token_ids@.len() == i,
            forall|j: int|
                0 <= j < i ==> #[trigger] token_ids@[j] == crate::python::uint_of(items@[j]),
        decreases items@.len() - i,
    {
        token_ids.push(exact_uint(&items[i]));
        i = i + 1;
    }
    assert(token_ids@ =~= items@.map_values(|item: PyValue| crate::python::uint_of(item)));
    write_token_frame_bytes(&token_ids, items.len() as u32, index, out)
}

/// Writes `dict` as a token frame behind what `out` holds.
///
/// Returns `false`, and leaves `out` as it was, where `dict` is not exactly a token frame or the
/// frame does not fit: the caller then falls back to the generic encoder.
pub fn try_write_token_frame(dict: &PyDict, out: &mut BytesMut) -> (written: bool)
    ensures
        match token_frame_of(*dict) {
            Some((ids, index)) => {
                let frame = token_frame_bytes(ids, index);
                &&& written <==> crate::buffer::buffer_bytes(*old(out)).len() + frame.len()
                    <= isize::MAX
                &&& written ==> crate::buffer::buffer_bytes(*final(out))
                    == crate::buffer::buffer_bytes(*old(out)) + frame
            },
            None => !written,
        },
        !written ==> crate::buffer::buffer_bytes(*final(out)) == crate::buffer::buffer_bytes(
            *old(out),
        ),
{
    let rewind: usize = out.len();
    if parse_and_write_token_frame(dict, out).is_none() {
        out.truncate(rewind);
        assert(crate::buffer::buffer_bytes(*out) =~= crate::buffer::buffer_bytes(*old(out)));
        return false;
    }
    true
}

/// The encodings of a list of integers are the encodings of each, joined in order.
proof fn lemma_uint_list_flattened(ids: Seq<u64>)
    ensures
        uint_list_bytes(ids) == ids.map_values(
            |id: u64| crate::msgpack::uint_bytes(id),
        ).flatten(),
    decreases ids.len(),
{
    let encode = |id: u64| crate::msgpack::uint_bytes(id);
    if ids.len() == 0 {
        assert(ids.map_values(encode) =~= Seq::empty());
        assert(ids.map_values(encode).flatten() =~= Seq::<u8>::empty());
    } else {
        lemma_uint_list_flattened(ids.drop_last());
        let front = ids.drop_last().map_values(encode);
        assert(ids.map_values(encode) =~= front.push(encode(ids.last())));
        front.lemma_flatten_push(encode(ids.last()));
    }
}

/// The layout of a token frame, byte by byte.
///
/// It opens with a map of two whose `data` is a map of one whose `data` is a map of two, the first
/// of which is the list `token_ids`. The tokens follow in order, then `index`, and `complete_final`
/// with `false`. The part in front of the tokens depends on their number alone.
pub proof fn law_token_frame_layout(ids: Seq<u64>, index: u64, token_count: u32)
    ensures
        frame_head(token_count) == seq![
            0x82u8, 0xa4, 0x64, 0x61, 0x74, 0x61, 0x81, 0xa4, 0x64, 0x61, 0x74, 0x61, 0x82,
            0xa9, 0x74, 0x6f, 0x6b, 0x65, 0x6e, 0x5f, 0x69, 0x64, 0x73,
        ] + crate::msgpack::array_len_bytes(token_count),
        uint_list_bytes(ids) == ids.map_values(
            |id: u64| crate::msgpack::uint_bytes(id),
        ).flatten(),
        token_frame_bytes(ids, index) == frame_head(ids.len() as u32) + ids.map_values(
            |id: u64| crate::msgpack::uint_bytes(id),
        ).flatten() + seq![0xa5u8, 0x69, 0x6e, 0x64, 0x65, 0x78,]
            + crate::msgpack::uint_bytes(index) + seq![
            0xaeu8, 0x63, 0x6f, 0x6d, 0x70, 0x6c, 0x65, 0x74, 0x65, 0x5f, 0x66, 0x69, 0x6e,
            0x61, 0x6c, 0xc2,
        ],
{
    lemma_key_lengths();
    lemma_uint_list_flattened(ids);
    reveal_strlit("data");
    reveal_strlit("complete_final");
    reveal_strlit("token_ids");
    reveal_strlit("index");
    vstd::utf8::is_ascii_chars_encode_utf8("data"@);
    vstd::utf8::is_ascii_chars_encode_utf8("complete_final"@);
    vstd::utf8::is_ascii_chars_encode_utf8("token_ids"@);
    vstd::utf8::is_ascii_chars_encode_utf8("index"@);
    assert(frame_head(token_count) =~= seq![
        0x82u8, 0xa4, 0x64, 0x61, 0x74, 0x61, 0x81, 0xa4, 0x64, 0x61, 0x74, 0x61, 0x82,
        0xa9, 0x74, 0x6f, 0x6b, 0x65, 0x6e, 0x5f, 0x69, 0x64, 0x73,
    ] + crate::msgpack::array_len_bytes(token_count));
    assert(frame_tail(index) =~= seq![0xa5u8, 0x69, 0x6e, 0x64, 0x65, 0x78,] + crate::msgpack::uint_bytes(
        index,
    ) + seq![
        0xaeu8, 0x63, 0x6f, 0x6d, 0x70, 0x6c, 0x65, 0x74, 0x65, 0x5f, 0x66, 0x69, 0x6e,
        0x61, 0x6c, 0xc2,
    ]);
    assert(token_frame_bytes(ids, index) =~= frame_head(ids.len() as u32) + uint_list_bytes(ids)
        + seq![0xa5u8, 0x69, 0x6e, 0x64, 0x65, 0x78,] + crate::msgpack::uint_bytes(index) + seq![
        0xaeu8, 0x63, 0x6f, 0x6d, 0x70, 0x6c, 0x65, 0x74, 0x65, 0x5f, 0x66, 0x69, 0x6e,
        0x61, 0x6c, 0xc2,
    ]);
}

/// Tokens that could all be converted, and whose number is the one announced, are written as a
/// whole frame behind what the buffer holds, wherever that fits; the writer succeeds then, and then
/// only.
pub proof fn law_complete_frames_are_written(
    token_ids: &[Option<u64>],
    ids: Seq<u64>,
    token_count: u32,
    index: u64,
)
    requires
        token_ids@.len() == ids.len(),
        ids.len() == token_count,
        forall|i: int| 0 <= i < ids.len() ==> #[trigger] token_ids@[i] == Some(ids[i]),
    ensures
        forall|out: &mut BytesMut, res: Option<()>| #[trigger]
            call_ensures(write_token_frame_bytes, (token_ids, token_count, index, out), res) ==> {
                let before = crate::buffer::buffer_bytes(*out);
                let after = crate::buffer::buffer_bytes(*final(out));
                &&& res is Some <==> before.len() + token_frame_bytes(ids, index).len()
                    <= isize::MAX
                &&& res is Some ==> after == before + token_frame_bytes(ids, index)
                &&& before.is_prefix_of(after)
            },
{
    assert(token_values(token_ids@) =~= ids);
    assert(tokens_complete(token_ids@, token_count));
}

/// A frame is never finished where a token could not be converted or their number is not the one
/// announced. What stands in the buffer then, where it fits, is the opening and the tokens in front
/// of that point: the first `good` ones.
pub proof fn law_incomplete_frames_are_aborted(
    token_ids: &[Option<u64>],
    good: Seq<u64>,
    token_count: u32,
    index: u64,
)
    requires
        good.len() <= token_ids@.len(),
        forall|i: int| 0 <= i < good.len() ==> #[trigger] token_ids@[i] == Some(good[i]),
        if good.len() < token_ids@.len() {
            token_ids@[good.len() as int] is None
        } else {
            token_ids@.len() != token_count
        },
    ensures
        forall|out: &mut BytesMut, res: Option<()>| #[trigger]
            call_ensures(write_token_frame_bytes, (token_ids, token_count, index, out), res) ==> {
                let before = crate::buffer::buffer_bytes(*out);
                let after = crate::buffer::buffer_bytes(*final(out));
                let opened = frame_head(token_count) + good.map_values(
                    |id: u64| crate::msgpack::uint_bytes(id),
                ).flatten();
                &&& res is None
                &&& before.is_prefix_of(after)
                &&& before.len() + opened.len() <= isize::MAX ==> after == before + opened
            },
{
    lemma_uint_list_flattened(good);
    lemma_leading_tokens(token_ids@);
    let found = leading_tokens(token_ids@);
    assert(found.len() == good.len()) by {
        if good.len() < found.len() {
            assert(token_ids@[good.len() as int] == Some(found[good.len() as int]));
        }
        if found.len() < good.len() {
            assert(token_ids@[found.len() as int] == Some(good[found.len() as int]));
        }
    }
    assert forall|i: int| 0 <= i < good.len() implies found[i] == good[i] by {
        assert(token_ids@[i] == Some(good[i]));
        assert(token_ids@[i] == Some(found[i]));
    }
    assert(found =~= good);
}

/// A `dict` whose entries are a plain `str` `token_ids` with a list of up to `u32::MAX` plain `int`s
/// of 64 bits, then a plain `str` `index` with such an `int`, is written as the token frame of these
/// tokens and this index, behind what the buffer holds, wherever that fits.
pub proof fn law_token_dicts_are_written(
    dict: PyDict,
    token_ids_key: String,
    items: Vec<PyValue>,
    ids: Seq<u64>,
    index_key: String,
    index: u64,
)
    requires
        token_ids_key@ == "token_ids"@,
        index_key@ == "index"@,
        items@.len() == ids.len(),
        ids.len() <= u32::MAX,
        forall|i: int|
            0 <= i < ids.len() ==> #[trigger] items@[i] == (PyValue::Int {
                exact: true,
                value: Some(ids[i] as i128),
            }),
        dict.entries@ == seq![
            (PyValue::Str { exact: true, text: Some(token_ids_key) }, PyValue::List(items)),
            (
                PyValue::Str { exact: true, text: Some(index_key) },
                PyValue::Int { exact: true, value: Some(index as i128) },
            ),
        ],
    ensures
        forall|out: &mut BytesMut, written: bool| #[trigger]
            call_ensures(try_write_token_frame, (&dict, out), written) ==> {
                let before = crate::buffer::buffer_bytes(*out);
                let after = crate::buffer::buffer_bytes(*final(out));
                let frame = token_frame_bytes(ids, index);
                &&& written <==> before.len() + frame.len() <= isize::MAX
                &&& written ==> after == before + frame
                &&& !written ==> after == before
            },
        forall|out: &mut BytesMut, res: Option<()>| #[trigger]
            call_ensures(parse_and_write_token_frame, (&dict, out), res) ==> {
                let before = crate::buffer::buffer_bytes(*out);
                let after = crate::buffer::buffer_bytes(*final(out));
                let frame = token_frame_bytes(ids, index);
                &&& res is Some <==> before.len() + frame.len() <= isize::MAX
                &&& res is Some ==> after == before + frame
                &&& before.is_prefix_of(after)
            },
        token_frame_of(dict) == Some((ids, index)),
{
    let shape = items@.map_values(|item: PyValue| crate::python::uint_of(item));
    assert forall|i: int| 0 <= i < shape.len() implies (#[trigger] shape[i]) == Some(ids[i]) by {
        assert(items@[i] == (PyValue::Int { exact: true, value: Some(ids[i] as i128) }));
    }
    assert(dict.entries@[0].1 == PyValue::List(items));
    assert(frame_shape(dict) == Some((shape, index)));
    assert(token_values(shape) =~= ids);
    assert(tokens_complete(shape, ids.len() as u32));
}

/// Nothing but a token `dict` is written as a token frame: what was written has two entries, a plain
/// `str` `token_ids` with a list of plain `int`s of 64 bits and a plain `str` `index` with such an
/// `int`, in this order. Any other `dict` leaves the buffer as it was.
pub proof fn law_only_token_dicts_are_written(dict: PyDict)
    ensures
        forall|out: &mut BytesMut, written: bool| #[trigger]
            call_ensures(try_write_token_frame, (&dict, out), written) && written ==> {
                &&& dict.entries@.len() == 2
                &&& dict.entries@[0].0 matches PyValue::Str { exact: true, text: Some(text) }
                    && text@ == "token_ids"@
                &&& dict.entries@[1].0 matches PyValue::Str { exact: true, text: Some(text) }
                    && text@ == "index"@
                &&& dict.entries@[0].1 matches PyValue::List(items) && items@.len() <= u32::MAX
                    && forall|i: int|
                    0 <= i < items@.len() ==> (#[trigger] items@[i] matches PyValue::Int {
                        exact: true,
                        value: Some(n),
                    } && 0 <= n <= u64::MAX)
                &&& dict.entries@[1].1 matches PyValue::Int { exact: true, value: Some(n) } && 0
                    <= n <= u64::MAX
            },
        forall|out: &mut BytesMut, written: bool| #[trigger]
            call_ensures(try_write_token_frame, (&dict, out), written) && !written
                ==> crate::buffer::buffer_bytes(*final(out)) == crate::buffer::buffer_bytes(*out),
{
    if token_frame_of(dict) is Some {
        let items = dict.entries@[0].1->List_0@;
        let (shape, _) = frame_shape(dict)->0;
        assert forall|i: int| 0 <= i < items.len() implies (#[trigger] items[i] matches PyValue::Int {
            exact: true,
            value: Some(n),
        } && 0 <= n <= u64::MAX) by {
            assert(shape[i] is Some);
        }
    }
}

/// The writer that does not rewind and the one that does agree: where the one gives up, so does the
/// other, and where both succeed they leave the same bytes behind the same buffer.
pub proof fn law_rewinding_changes_no_success(dict: PyDict)
    ensures
        forall|
            out: &mut BytesMut,
            other: &mut BytesMut,
            written: bool,
            res: Option<()>,
        |
            #![trigger
                call_ensures(try_write_token_frame, (&dict, out), written),
                call_ensures(parse_and_write_token_frame, (&dict, other), res)]
            call_ensures(try_write_token_frame, (&dict, out), written) && call_ensures(
                parse_and_write_token_frame,
                (&dict, other),
                res,
            ) && crate::buffer::buffer_bytes(*out) == crate::buffer::buffer_bytes(*other) ==> {
                &&& written <==> res is Some
                &&& written ==> crate::buffer::buffer_bytes(*final(out))
                    == crate::buffer::buffer_bytes(*final(other))
                &&& crate::buffer::buffer_bytes(*other).is_prefix_of(
                    crate::buffer::buffer_bytes(*final(other)),
                )
            },
{
}

/// A `dict` has the size of a token frame exactly where it has two entries, and only a `dict` of
/// that size is ever written.
pub proof fn law_frame_sizes(dict: PyDict, entries: usize, res: bool)
    requires
        call_ensures(has_frame_size, (entries,), res),
        entries == dict.entries@.len(),
    ensures
        res <==> entries == 2,
        forall|out: &mut BytesMut| !res ==> !#[trigger] call_ensures(
            try_write_token_frame,
            (&dict, out),
            true,
        ),
{
}

/// A `dict` that does not open like a token frame is turned away before anything is written: it has
/// another number of entries, or another key, or no list of at most `u32::MAX` items, or an index
/// that is no plain `int` of 64 bits.
pub proof fn law_other_dicts_are_turned_away(dict: PyDict)
    requires
        ({
            ||| dict.entries@.len() != 2
            ||| !(dict.entries@[0].0 matches PyValue::Str { exact: true, text: Some(text) } && text@
                == "token_ids"@)
            ||| !(dict.entries@[1].0 matches PyValue::Str { exact: true, text: Some(text) } && text@
                == "index"@)
            ||| !(dict.entries@[0].1 matches PyValue::List(items) && items@.len() <= u32::MAX)
            ||| !(dict.entries@[1].1 matches PyValue::Int { exact: true, value: Some(n) } && 0 <= n
                <= u64::MAX)
        }),
    ensures
        forall|out: &mut BytesMut, res: Option<()>| #[trigger]
            call_ensures(parse_and_write_token_frame, (&dict, out), res) ==> res is None
                && crate::buffer::buffer_bytes(*final(out)) == crate::buffer::buffer_bytes(*out),
        token_frame_of(dict) is None,
{
}

/// A `dict` that opens like a token frame, and whose list holds an item that is no plain `int` of 64
/// bits behind `good` ones that are, is no token frame. What is left of it, where it fits, is the
/// opening and these first tokens.
pub proof fn law_dicts_with_another_item_are_aborted(
    dict: PyDict,
    token_ids_key: String,
    items: Vec<PyValue>,
    good: Seq<u64>,
    index_key: String,
    index: u64,
)
    requires
        token_ids_key@ == "token_ids"@,
        index_key@ == "index"@,
        good.len() < items@.len() <= u32::MAX,
        forall|i: int|
            0 <= i < good.len() ==> #[trigger] items@[i] == (PyValue::Int {
                exact: true,
                value: Some(good[i] as i128),
            }),
        !(items@[good.len() as int] matches PyValue::Int { exact: true, value: Some(n) } && 0 <= n
            <= u64::MAX),
        dict.entries@ == seq![
            (PyValue::Str { exact: true, text: Some(token_ids_key) }, PyValue::List(items)),
            (
                PyValue::Str { exact: true, text: Some(index_key) },
                PyValue::Int { exact: true, value: Some(index as i128) },
            ),
        ],
    ensures
        forall|out: &mut BytesMut, written: bool| #[trigger]
            call_ensures(try_write_token_frame, (&dict, out), written) ==> !written
                && crate::buffer::buffer_bytes(*final(out)) == crate::buffer::buffer_bytes(*out),
        forall|out: &mut BytesMut, res: Option<()>| #[trigger]
            call_ensures(parse_and_write_token_frame, (&dict, out), res) ==> {
                let before = crate::buffer::buffer_bytes(*out);
                let after = crate::buffer::buffer_bytes(*final(out));
                let opened = frame_head(items@.len() as u32) + good.map_values(
                    |id: u64| crate::msgpack::uint_bytes(id),
                ).flatten();
                &&& res is None
                &&& before.is_prefix_of(after)
                &&& before.len() + opened.len() <= isize::MAX ==> after == before + opened
            },
{
    let shape = items@.map_values(|item: PyValue| crate::python::uint_of(item));
    assert(dict.entries@[0].1 == PyValue::List(items));
    assert(frame_shape(dict) == Some((shape, index)));
    assert(shape[good.len() as int] is None);
    lemma_uint_list_flattened(good);
    lemma_leading_tokens(shape);
    let found = leading_tokens(shape);
    assert forall|i: int| 0 <= i < good.len() implies #[trigger] shape[i] == Some(good[i]) by {
        assert(items@[i] == (PyValue::Int { exact: true, value: Some(good[i] as i128) }));
    }
    assert(found.len() == good.len()) by {
        if good.len() < found.len() {
            assert(shape[good.len() as int] == Some(found[good.len() as int]));
        }
        if found.len() < good.len() {
            assert(shape[found.len() as int] == Some(good[found.len() as int]));
        }
    }
    assert forall|i: int| 0 <= i < good.len() implies found[i] == good[i] by {
        assert(shape[i] == Some(good[i]));
        assert(shape[i] == Some(found[i]));
    }
    assert(found =~= good);
}

} // verus!

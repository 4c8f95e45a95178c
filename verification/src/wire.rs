//! What frames say on the wire: responses as value trees, and the laws of token frames.
//!
//! The generic encoder is the MessagePack codec of the request plane, run over a response: a struct
//! becomes a map of its named fields in their order, an absent field is skipped, and a Python
//! `dict` becomes a map of its entries in their order.

use vstd::prelude::*;

use crate::annotated::{Annotated, AnnotatedView, NetworkStreamWrapper, KEY_DATA};
use crate::codec::RequestPlanePayloadCodec;
use crate::python::{PyDict, PyValue};
use crate::token_frame::{KEY_COMPLETE_FINAL, KEY_INDEX, KEY_TOKEN_IDS};
use crate::value::Value;

verus! {

/// The entry of an optional field: absent fields are not written.
pub open spec fn field_entry(name: Seq<char>, value: Option<Value>) -> Seq<(Seq<char>, Value)> {
    match value {
        Some(value) => seq![(name, value)],
        None => Seq::empty(),
    }
}

/// The value of an optional text.
pub open spec fn text_value(text: Option<Seq<char>>) -> Option<Value> {
    match text {
        Some(text) => Some(Value::Text(text)),
        None => None,
    }
}

/// The value of an optional list of texts.
pub open spec fn texts_value(texts: Option<Seq<Seq<char>>>) -> Option<Value> {
    match texts {
        Some(texts) => Some(Value::Items(texts.map_values(|text: Seq<char>| Value::Text(text)))),
        None => None,
    }
}

/// An annotated response as a value.
pub open spec fn annotated_value(annotated: AnnotatedView<Value, Value>) -> Value {
    Value::Entries(
        field_entry(KEY_DATA@, annotated.data) + field_entry("id"@, text_value(annotated.id))
            + field_entry("event"@, text_value(annotated.event)) + field_entry(
            "comment"@,
            texts_value(annotated.comment),
        ) + field_entry("error"@, annotated.error),
    )
}

/// A stream item that carries a response, as a value.
pub open spec fn item_value(
    annotated: AnnotatedView<Value, Value>,
    complete_final: bool,
) -> Value {
    Value::Entries(
        seq![
            (KEY_DATA@, annotated_value(annotated)),
            (KEY_COMPLETE_FINAL@, Value::Boolean(complete_final)),
        ],
    )
}

/// The bytes of a response that carries `payload` alone, written by the generic encoder as an item
/// that more items follow.
pub open spec fn generic_bytes(payload: Value) -> Seq<u8> {
    crate::value::encode_value(item_value(AnnotatedView::of_data(payload), false))
}

/// A list of tokens as a value.
pub open spec fn tokens_value(ids: Seq<u64>) -> Seq<Value> {
    ids.map_values(|id: u64| Value::Unsigned(id))
}

/// The payload of a token frame.
pub open spec fn token_payload(ids: Seq<u64>, index: u64) -> Value {
    Value::Entries(
        seq![
            (KEY_TOKEN_IDS@, Value::Items(tokens_value(ids))),
            (KEY_INDEX@, Value::Unsigned(index)),
        ],
    )
}

/// The value that the generic encoder makes of a Python value. `None` where it writes something
/// that no token frame holds: a float, a negative or longer integer, a nested `dict`.
pub open spec fn transcoded(value: PyValue) -> Option<Value>
    decreases value,
{
    match value {
        PyValue::Bool(b) => Some(Value::Boolean(b)),
        PyValue::Int { exact: _, value: Some(n) } => if 0 <= n <= u64::MAX {
            Some(Value::Unsigned(n as u64))
        } else {
            None
        },
        PyValue::Str { exact: _, text: Some(text) } => Some(Value::Text(text@)),
        PyValue::List(items) => match transcoded_items(items@) {
            Some(items) => Some(Value::Items(items)),
            None => None,
        },
        _ => None,
    }
}

/// The values that the generic encoder makes of a list's items.
pub open spec fn transcoded_items(items: Seq<PyValue>) -> Option<Seq<Value>>
    decreases items,
{
    if items.len() == 0 {
        Some(Seq::empty())
    } else {
        match (transcoded_items(items.drop_last()), transcoded(items.last())) {
            (Some(front), Some(last)) => Some(front.push(last)),
            _ => None,
        }
    }
}

/// The entries that the generic encoder makes of a `dict`'s entries, in their order.
pub open spec fn transcoded_entries(entries: Seq<(PyValue, PyValue)>) -> Option<
    Seq<(Seq<char>, Value)>,
>
    decreases entries.len(),
{
    if entries.len() == 0 {
        Some(Seq::empty())
    } else {
        match (
            transcoded_entries(entries.drop_last()),
            transcoded(entries.last().0),
            transcoded(entries.last().1),
        ) {
            (Some(front), Some(Value::Text(key)), Some(value)) => Some(front.push((key, value))),
            _ => None,
        }
    }
}

/// The value that the generic encoder makes of a `dict`.
pub open spec fn transcoded_dict(dict: PyDict) -> Option<Value> {
    match transcoded_entries(dict.entries@) {
        Some(entries) => Some(Value::Entries(entries)),
        None => None,
    }
}

proof fn lemma_uint_list_front(ids: Seq<u64>)
    requires
        ids.len() > 0,
    ensures
        crate::token_frame::uint_list_bytes(ids) == crate::msgpack::uint_bytes(ids[0])
            + crate::token_frame::uint_list_bytes(ids.drop_first()),
    decreases ids.len(),
{
    reveal_with_fuel(crate::token_frame::uint_list_bytes, 2);
    if ids.len() == 1 {
        assert(ids.drop_last() =~= Seq::<u64>::empty());
        assert(ids.drop_first() =~= Seq::<u64>::empty());
        assert(crate::token_frame::uint_list_bytes(ids) =~= crate::msgpack::uint_bytes(ids[0])
            + crate::token_frame::uint_list_bytes(ids.drop_first()));
    } else {
        lemma_uint_list_front(ids.drop_last());
        assert(ids.drop_first().drop_last() =~= ids.drop_last().drop_first());
        assert(crate::token_frame::uint_list_bytes(ids) =~= crate::msgpack::uint_bytes(ids[0])
            + crate::token_frame::uint_list_bytes(ids.drop_first()));
    }
}

proof fn lemma_tokens_encoding(ids: Seq<u64>)
    ensures
        crate::value::encode_items(tokens_value(ids)) == crate::token_frame::uint_list_bytes(ids),
        crate::value::encodable_items(tokens_value(ids)),
    decreases ids.len(),
{
    if ids.len() > 0 {
        lemma_uint_list_front(ids);
        lemma_tokens_encoding(ids.drop_first());
        assert(tokens_value(ids).drop_first() =~= tokens_value(ids.drop_first()));
        assert(tokens_value(ids)[0] == Value::Unsigned(ids[0]));
        assert(crate::value::encode_value(Value::Unsigned(ids[0])) == crate::msgpack::uint_bytes(
            ids[0],
        ));
        assert(crate::value::encodable(Value::Unsigned(ids[0])));
    }
}

/// The encoding of a map of one entry.
proof fn lemma_encode_one_entry(key: Seq<char>, value: Value)
    ensures
        crate::value::encode_value(Value::Entries(seq![(key, value)]))
            == crate::msgpack::map_len_bytes(1) + crate::msgpack::str_bytes(key)
            + crate::value::encode_value(value),
        vstd::utf8::encode_utf8(key).len() <= u32::MAX && crate::value::encodable(value)
            ==> crate::value::encodable(Value::Entries(seq![(key, value)])),
{
    let entries = seq![(key, value)];
    assert(entries.drop_first() =~= Seq::empty());
    assert(crate::value::encode_entries(Seq::empty()) =~= Seq::<u8>::empty());
    assert(crate::value::encodable_entries(Seq::empty()));
    assert(crate::value::encode_entries(entries) =~= crate::msgpack::str_bytes(key)
        + crate::value::encode_value(value));
    assert(crate::value::encode_value(Value::Entries(entries)) =~= crate::msgpack::map_len_bytes(1)
        + crate::msgpack::str_bytes(key) + crate::value::encode_value(value));
}

/// The encoding of a map of two entries.
proof fn lemma_encode_two_entries(
    first_key: Seq<char>,
    first: Value,
    second_key: Seq<char>,
    second: Value,
)
    ensures
        crate::value::encode_value(Value::Entries(seq![(first_key, first), (second_key, second)]))
            == crate::msgpack::map_len_bytes(2) + crate::msgpack::str_bytes(first_key)
            + crate::value::encode_value(first) + crate::msgpack::str_bytes(second_key)
            + crate::value::encode_value(second),
        vstd::utf8::encode_utf8(first_key).len() <= u32::MAX && vstd::utf8::encode_utf8(
            second_key,
        ).len() <= u32::MAX && crate::value::encodable(first) && crate::value::encodable(second)
            ==> crate::value::encodable(
            Value::Entries(seq![(first_key, first), (second_key, second)]),
        ),
{
    let entries = seq![(first_key, first), (second_key, second)];
    let others = seq![(second_key, second)];
    assert(entries.drop_first() =~= others);
    assert(others.drop_first() =~= Seq::empty());
    assert(crate::value::encode_entries(Seq::empty()) =~= Seq::<u8>::empty());
    assert(crate::value::encodable_entries(Seq::empty()));
    assert(crate::value::encode_entries(others) =~= crate::msgpack::str_bytes(second_key)
        + crate::value::encode_value(second));
    assert(crate::value::encodable_entries(others) == (vstd::utf8::encode_utf8(second_key).len()
        <= u32::MAX && crate::value::encodable(second)));
    assert(crate::value::encode_entries(entries) =~= crate::msgpack::str_bytes(first_key)
        + crate::value::encode_value(first) + (crate::msgpack::str_bytes(second_key)
        + crate::value::encode_value(second)));
    assert(crate::value::encode_value(Value::Entries(entries)) =~= crate::msgpack::map_len_bytes(2)
        + crate::msgpack::str_bytes(first_key) + crate::value::encode_value(first)
        + crate::msgpack::str_bytes(second_key) + crate::value::encode_value(second));
}

/// What a token frame says.
pub open spec fn token_frame_value(ids: Seq<u64>, index: u64) -> Value {
    item_value(AnnotatedView::of_data(token_payload(ids, index)), false)
}

proof fn lemma_token_frame_value(ids: Seq<u64>, index: u64)
    requires
        ids.len() <= u32::MAX,
    ensures
        crate::token_frame::token_frame_bytes(ids, index) == crate::value::encode_value(
            token_frame_value(ids, index),
        ),
        crate::value::encodable(token_frame_value(ids, index)),
{
    let payload = token_payload(ids, index);
    let tokens = Value::Items(tokens_value(ids));
    let annotated = annotated_value(AnnotatedView::of_data(payload));
    crate::token_frame::lemma_key_lengths();
    lemma_tokens_encoding(ids);
    lemma_encode_two_entries(KEY_TOKEN_IDS@, tokens, KEY_INDEX@, Value::Unsigned(index));
    lemma_encode_one_entry(KEY_DATA@, payload);
    lemma_encode_two_entries(KEY_DATA@, annotated, KEY_COMPLETE_FINAL@, Value::Boolean(false));
    assert(annotated == Value::Entries(seq![(KEY_DATA@, payload)])) by {
        assert(annotated->Entries_0 =~= seq![(KEY_DATA@, payload)]);
    }
    assert(crate::value::encode_value(tokens) == crate::msgpack::array_len_bytes(ids.len() as u32)
        + crate::token_frame::uint_list_bytes(ids));
    assert(crate::value::encodable(tokens));
    assert(crate::value::encodable(Value::Unsigned(index)));
    assert(crate::value::encodable(Value::Boolean(false)));
    assert(crate::token_frame::token_frame_bytes(ids, index) =~= crate::value::encode_value(
        token_frame_value(ids, index),
    ));
}

/// A token frame holds, byte for byte, what the generic encoder writes for the same tokens and
/// index.
pub proof fn law_token_frame_matches_generic_encoding(ids: Seq<u64>, index: u64)
    requires
        ids.len() <= u32::MAX,
    ensures
        crate::token_frame::token_frame_bytes(ids, index) == generic_bytes(
            token_payload(ids, index),
        ),
{
    lemma_token_frame_value(ids, index);
}

/// A token frame is decoded as a response that carries its tokens and its index, no error, and
/// that more items follow; what stands behind it is left.
pub proof fn law_token_frame_decodes(ids: Seq<u64>, index: u64, rest: Seq<u8>)
    requires
        ids.len() <= u32::MAX,
    ensures
        crate::value::decode_value(crate::token_frame::token_frame_bytes(ids, index) + rest)
            == Some((token_frame_value(ids, index), rest)),
{
    lemma_token_frame_value(ids, index);
    crate::value::law_decode_encoded(token_frame_value(ids, index), rest);
}

/// Two token frames with the same bytes say the same.
pub proof fn law_token_frames_differ(
    ids: Seq<u64>,
    index: u64,
    other_ids: Seq<u64>,
    other_index: u64,
)
    requires
        ids.len() <= u32::MAX,
        other_ids.len() <= u32::MAX,
        crate::token_frame::token_frame_bytes(ids, index) == crate::token_frame::token_frame_bytes(
            other_ids,
            other_index,
        ),
    ensures
        ids == other_ids,
        index == other_index,
{
    law_token_frame_decodes(ids, index, Seq::empty());
    law_token_frame_decodes(other_ids, other_index, Seq::empty());
    let value = token_frame_value(ids, index);
    let other = token_frame_value(other_ids, other_index);
    assert(value == other);
    assert(value->Entries_0[0].1 == other->Entries_0[0].1);
    let payload = token_payload(ids, index);
    let other_payload = token_payload(other_ids, other_index);
    assert(value->Entries_0[0].1->Entries_0[0] == (KEY_DATA@, payload));
    assert(other->Entries_0[0].1->Entries_0[0] == (KEY_DATA@, other_payload));
    assert(payload->Entries_0[0].1 == other_payload->Entries_0[0].1);
    assert(payload->Entries_0[1].1 == other_payload->Entries_0[1].1);
    assert(tokens_value(ids) == tokens_value(other_ids));
    assert(tokens_value(ids).len() == ids.len());
    assert(tokens_value(other_ids).len() == other_ids.len());
    assert forall|i: int| 0 <= i < ids.len() implies ids[i] == other_ids[i] by {
        assert(tokens_value(ids)[i] == Value::Unsigned(ids[i]));
        assert(tokens_value(other_ids)[i] == Value::Unsigned(other_ids[i]));
    }
    assert(ids =~= other_ids);
}

/// The bytes of token frames, each its tokens and its index, one behind the other.
pub open spec fn frames_bytes(frames: Seq<(Seq<u64>, u64)>) -> Seq<u8>
    decreases frames.len(),
{
    if frames.len() == 0 {
        Seq::empty()
    } else {
        crate::token_frame::token_frame_bytes(frames[0].0, frames[0].1) + frames_bytes(
            frames.drop_first(),
        )
    }
}

/// A buffer of token frames with one more frame written behind it is a buffer of token frames.
pub proof fn law_token_frames_extend(frames: Seq<(Seq<u64>, u64)>, ids: Seq<u64>, index: u64)
    ensures
        frames_bytes(frames.push((ids, index))) == frames_bytes(frames)
            + crate::token_frame::token_frame_bytes(ids, index),
    decreases frames.len(),
{
    let longer = frames.push((ids, index));
    if frames.len() == 0 {
        assert(longer.drop_first() =~= Seq::empty());
        assert(frames_bytes(longer.drop_first()) =~= Seq::<u8>::empty());
        assert(frames_bytes(longer) =~= frames_bytes(frames)
            + crate::token_frame::token_frame_bytes(ids, index));
    } else {
        law_token_frames_extend(frames.drop_first(), ids, index);
        assert(longer.drop_first() =~= frames.drop_first().push((ids, index)));
        assert(frames_bytes(longer) =~= frames_bytes(frames)
            + crate::token_frame::token_frame_bytes(ids, index));
    }
}

/// Token frames that were written one behind the other are decoded in that order, each as what it
/// was written for.
pub proof fn law_token_frames_in_sequence(frames: Seq<(Seq<u64>, u64)>, rest: Seq<u8>)
    requires
        forall|i: int| 0 <= i < frames.len() ==> (#[trigger] frames[i]).0.len() <= u32::MAX,
    ensures
        crate::value::decode_items(frames.len(), frames_bytes(frames) + rest) == Some(
            (
                frames.map_values(
                    |frame: (Seq<u64>, u64)| token_frame_value(frame.0, frame.1),
                ),
                rest,
            ),
        ),
    decreases frames.len(),
{
    let say = |frame: (Seq<u64>, u64)| token_frame_value(frame.0, frame.1);
    if frames.len() == 0 {
        assert(frames_bytes(frames) + rest =~= rest);
        assert(frames.map_values(say) =~= Seq::empty());
    } else {
        let others = frames.drop_first();
        let behind = frames_bytes(others) + rest;
        let first = frames[0];
        assert forall|i: int| 0 <= i < others.len() implies (#[trigger] others[i]).0.len()
            <= u32::MAX by {
            assert(others[i] == frames[i + 1]);
        }
        law_token_frames_in_sequence(others, rest);
        law_token_frame_decodes(first.0, first.1, behind);
        assert(frames_bytes(frames) + rest =~= crate::token_frame::token_frame_bytes(
            first.0,
            first.1,
        ) + behind);
        assert(crate::token_frame::token_frame_bytes(first.0, first.1).len() > 0);
        crate::value::lemma_decode_items_step(
            frames.len(),
            frames_bytes(frames) + rest,
            say(first),
            behind,
        );
        assert(frames.map_values(say) =~= seq![say(first)] + others.map_values(say));
    }
}

proof fn lemma_transcoded_items(items: Seq<PyValue>)
    requires
        forall|i: int|
            0 <= i < items.len() ==> crate::python::uint_of(#[trigger] items[i]) is Some,
    ensures
        transcoded_items(items) == Some(
            tokens_value(items.map_values(|item: PyValue| crate::python::uint_of(item)->0)),
        ),
    decreases items.len(),
{
    let read = |item: PyValue| crate::python::uint_of(item)->0;
    if items.len() == 0 {
        assert(tokens_value(items.map_values(read)) =~= Seq::empty());
    } else {
        lemma_transcoded_items(items.drop_last());
        assert(crate::python::uint_of(items[items.len() - 1]) is Some);
        assert(transcoded(items.last()) == Some(Value::Unsigned(read(items.last()))));
        assert(tokens_value(items.map_values(read)) =~= tokens_value(
            items.drop_last().map_values(read),
        ).push(Value::Unsigned(read(items.last()))));
    }
}

/// A `dict` that is written as a token frame gets, byte for byte, the frame that the generic
/// encoder writes for it.
pub proof fn law_token_dict_matches_generic_encoding(dict: PyDict)
    requires
        crate::token_frame::token_frame_of(dict) is Some,
    ensures
        ({
            let (ids, index) = crate::token_frame::token_frame_of(dict)->0;
            &&& transcoded_dict(dict) is Some
            &&& crate::token_frame::token_frame_bytes(ids, index) == generic_bytes(
                transcoded_dict(dict)->0,
            )
        }),
{
    let entries = dict.entries@;
    let items = entries[0].1->List_0@;
    let (shape, index) = crate::token_frame::frame_shape(dict)->0;
    let ids = crate::token_frame::token_values(shape);
    assert forall|i: int| 0 <= i < items.len() implies crate::python::uint_of(
        #[trigger] items[i],
    ) is Some by {
        assert(shape[i] is Some);
    }
    lemma_transcoded_items(items);
    assert(ids =~= items.map_values(|item: PyValue| crate::python::uint_of(item)->0));
    assert(entries.drop_last().drop_last() =~= Seq::empty());
    assert(transcoded_entries(Seq::empty()) == Some(Seq::<(Seq<char>, Value)>::empty()));
    let front = seq![(KEY_TOKEN_IDS@, Value::Items(tokens_value(ids)))];
    assert(entries.drop_last().last() == entries[0]);
    assert(transcoded(entries[0].0) == Some(Value::Text(KEY_TOKEN_IDS@)));
    assert(transcoded(entries[0].1) == Some(Value::Items(tokens_value(ids))));
    assert(transcoded(entries[1].0) == Some(Value::Text(KEY_INDEX@)));
    assert(transcoded(entries[1].1) == Some(Value::Unsigned(index)));
    assert(transcoded_entries(entries.drop_last())->0 =~= front);
    assert(transcoded_entries(entries)->0 =~= token_payload(ids, index)->Entries_0);
    law_token_frame_matches_generic_encoding(ids, index);
}

/// Encoding a token `dict` the generic way gives the token frame, byte for byte, and no error flag.
///
/// This holds of every encoder that succeeds on the response and appends to what a buffer holds
/// what the generic encoder writes for the `dict`. `annotated` stands for the `dict` as a response
/// without an event, and `encoded` is what [`crate::response::encode_annotated_response`] returned
/// for it.
pub proof fn law_token_dict_matches_encoded_response<T, E, F>(
    dict: PyDict,
    codec: RequestPlanePayloadCodec,
    annotated: Annotated<T, E>,
    encode_into: F,
    encoded: Result<(Vec<u8>, bool), String>,
) where
    F: FnOnce(
        RequestPlanePayloadCodec,
        &NetworkStreamWrapper<Annotated<T, E>>,
        &mut Vec<u8>,
    ) -> Result<(), String>,

    requires
        crate::token_frame::token_frame_of(dict) is Some,
        annotated.event is None,
        forall|target: &mut Vec<u8>, outcome: Result<(), String>| #[trigger]
            call_ensures(
                encode_into,
                (codec, &crate::response::response_item(annotated), target),
                outcome,
            ) ==> {
                &&& outcome is Ok
                &&& (*final(target))@ == (*target)@ + generic_bytes(transcoded_dict(dict)->0)
            },
        exists|target: &mut Vec<u8>, outcome: Result<(), String>|
            {
                &&& #[trigger] call_ensures(
                    encode_into,
                    (codec, &crate::response::response_item(annotated), target),
                    outcome,
                )
                &&& (*target)@ == Seq::<u8>::empty()
                &&& encoded == match outcome {
                    Ok(_) => Ok::<(Vec<u8>, bool), String>(
                        (*final(target), annotated@.is_error()),
                    ),
                    Err(cause) => Err(cause),
                }
            },
    ensures
        ({
            let (ids, index) = crate::token_frame::token_frame_of(dict)->0;
            &&& encoded is Ok
            &&& encoded->Ok_0.0@ == crate::token_frame::token_frame_bytes(ids, index)
            &&& !encoded->Ok_0.1
        }),
{
    law_token_dict_matches_generic_encoding(dict);
    let bytes = generic_bytes(transcoded_dict(dict)->0);
    assert(Seq::<u8>::empty() + bytes =~= bytes);
}

/// An envelope is never written as a token frame: no key of a token frame is the marker. So the
/// payload of a token frame is the whole `dict`.
pub proof fn law_token_dict_is_no_envelope(dict: PyDict, i: int)
    requires
        crate::token_frame::token_frame_of(dict) is Some,
        0 <= i < dict.entries@.len(),
    ensures
        !crate::python::is_key(dict.entries@[i].0, crate::envelope::KEY_MARKER@),
{
    reveal_strlit("_dynamo_annotated");
    reveal_strlit("token_ids");
    reveal_strlit("index");
    assert(crate::envelope::KEY_MARKER@.len() == 17);
    assert(KEY_TOKEN_IDS@.len() == 9);
    assert(KEY_INDEX@.len() == 5);
}

} // verus!

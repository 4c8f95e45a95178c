//! Reading a Python response object as an annotated response.

use vstd::prelude::*;

use crate::annotated::{Annotated, KEY_DATA};

verus! {

/// The key whose truth makes a `dict` an envelope.
pub const KEY_MARKER: &'static str = "_dynamo_annotated";

/// The envelope's key of the identifier.
pub const KEY_ID: &'static str = "id";

/// The envelope's key of the event.
pub const KEY_EVENT: &'static str = "event";

/// The envelope's key of the comments.
pub const KEY_COMMENT: &'static str = "comment";

/// The envelope's key of the structured error.
pub const KEY_ERROR: &'static str = "error";

/// What stands under a key: Python's `None`, or an object.
#[derive(Debug)]
pub enum PyItem<V> {
    PyNone,
    Object(V),
}

/// What looking up one key in a `dict` gave: the lookup raised, with this message, or the key is
/// absent, or this item stands under it.
pub type Lookup<V> = Result<Option<PyItem<V>>, String>;

/// What stands under a key, where it is present and not `None`.
pub open spec fn present<V>(found: Lookup<V>) -> Result<Option<V>, String> {
    match found {
        Ok(Some(PyItem::Object(object))) => Ok(Some(object)),
        Ok(_) => Ok(None),
        Err(message) => Err(message),
    }
}

/// What became of converting an object, as the value of a field.
pub open spec fn converted<X>(outcome: Result<X, String>) -> Result<Option<X>, String> {
    match outcome {
        Ok(value) => Ok(Some(value)),
        Err(message) => Err(message),
    }
}

/// Whether looking up `key` may give `res`: the object under it, where it is present and not
/// `None`, or the message of a lookup that raised.
pub open spec fn item_read<V, L>(
    look_up: L,
    key: &'static str,
    res: Result<Option<V>, String>,
) -> bool where L: Fn(&'static str) -> Lookup<V> {
    exists|found: Lookup<V>| #[trigger]
        call_ensures(look_up, (key,), found) && res == present(found)
}

/// Whether looking up `key` and converting what stands under it may give `res`. Only an object is
/// converted; a conversion that failed gives its message.
pub open spec fn field_read<V, X, L, C>(
    look_up: L,
    key: &'static str,
    convert: C,
    res: Result<Option<X>, String>,
) -> bool where L: Fn(&'static str) -> Lookup<V>, C: Fn(V) -> Result<X, String> {
    exists|item: Result<Option<V>, String>| #[trigger]
        item_read(look_up, key, item) && match item {
            Ok(Some(object)) => exists|outcome: Result<X, String>| #[trigger]
                call_ensures(convert, (object,), outcome) && res == converted(outcome),
            Ok(None) => res == Ok::<Option<X>, String>(None),
            Err(message) => res == Err::<Option<X>, String>(message),
        }
}

/// Whether reading an envelope may give `res`. Each field is read from its own key, in the order
/// data, id, event, comment, error, and the first failure is the result.
pub open spec fn envelope_read<V, E, L, S, C, D>(
    look_up: L,
    text: S,
    texts: C,
    error: D,
    res: Result<Annotated<V, E>, String>,
) -> bool where
    L: Fn(&'static str) -> Lookup<V>,
    S: Fn(V) -> Result<String, String>,
    C: Fn(V) -> Result<Vec<String>, String>,
    D: Fn(V) -> Result<E, String>,
 {
    exists|read_data: Result<Option<V>, String>| #[trigger]
        item_read(look_up, KEY_DATA, read_data) && match read_data {
            Err(message) => res == Err::<Annotated<V, E>, String>(message),
            Ok(data) => exists|read_id: Result<Option<String>, String>| #[trigger]
                field_read(look_up, KEY_ID, text, read_id) && match read_id {
                    Err(message) => res == Err::<Annotated<V, E>, String>(message),
                    Ok(id) => exists|read_event: Result<Option<String>, String>| #[trigger]
                        field_read(look_up, KEY_EVENT, text, read_event) && match read_event {
                            Err(message) => res == Err::<Annotated<V, E>, String>(message),
                            Ok(event) => annotations_read(
                                look_up,
                                texts,
                                error,
                                data,
                                id,
                                event,
                                res,
                            ),
                        },
                },
        }
}

/// Whether reading the comments and the structured error of an envelope may give `res`, where the
/// fields in front of them were read as `data`, `id` and `event`.
pub open spec fn annotations_read<V, E, L, C, D>(
    look_up: L,
    texts: C,
    error: D,
    data: Option<V>,
    id: Option<String>,
    event: Option<String>,
    res: Result<Annotated<V, E>, String>,
) -> bool where
    L: Fn(&'static str) -> Lookup<V>,
    C: Fn(V) -> Result<Vec<String>, String>,
    D: Fn(V) -> Result<E, String>,
 {
    exists|read_comment: Result<Option<Vec<String>>, String>| #[trigger]
        field_read(look_up, KEY_COMMENT, texts, read_comment) && match read_comment {
            Err(message) => res == Err::<Annotated<V, E>, String>(message),
            Ok(comment) => exists|read_error: Result<Option<E>, String>| #[trigger]
                field_read(look_up, KEY_ERROR, error, read_error) && res == match read_error {
                    Err(message) => Err::<Annotated<V, E>, String>(message),
                    Ok(error) => Ok(Annotated { data, id, event, comment, error }),
                },
        }
}

/// A response that is `item` and nothing else.
pub open spec fn payload_alone<V, E>(item: V) -> Annotated<V, E> {
    Annotated { data: Some(item), id: None, event: None, comment: None, error: None }
}

/// The object that a lookup gave, where the key is present and its item is not `None`.
pub fn present_item<V>(found: Lookup<V>) -> (res: Result<Option<V>, String>)
    ensures
        res == present(found),
{
    match found {
        Ok(Some(PyItem::Object(object))) => Ok(Some(object)),
        Ok(_) => Ok(None),
        Err(message) => Err(message),
    }
}

/// Looks up `key`: the object under it, where it is present and not `None`.
pub fn optional_item<V, L>(look_up: L, key: &'static str) -> (res: Result<Option<V>, String>) where
    L: Fn(&'static str) -> Lookup<V>,

    requires
        call_requires(look_up, (key,)),
    ensures
        item_read(look_up, key, res),
{
    present_item(look_up(key))
}

/// Looks up `key`, and converts the object under it, where it is present and not `None`.
pub fn extract_optional<V, X, L, C>(look_up: L, key: &'static str, convert: C) -> (res: Result<
    Option<X>,
    String,
>) where L: Fn(&'static str) -> Lookup<V>, C: Fn(V) -> Result<X, String>
    requires
        call_requires(look_up, (key,)),
        forall|object: V| call_requires(convert, (object,)),
    ensures
        field_read(look_up, key, convert, res),
{
    match optional_item(look_up, key) {
        Ok(Some(object)) => match convert(object) {
            Ok(value) => Ok(Some(value)),
            Err(message) => Err(message),
        },
        Ok(None) => Ok(None),
        Err(message) => Err(message),
    }
}

/// Reads an envelope as the annotated response that it stands for. The payload stays the object
/// that it is; `text`, `texts` and `error` convert the objects of the other fields. Reading stops at
/// the first failure.
pub fn parse_envelope<V, E, L, S, C, D>(look_up: L, text: S, texts: C, error: D) -> (res: Result<
    Annotated<V, E>,
    String,
>) where
    L: Fn(&'static str) -> Lookup<V> + Copy,
    S: Fn(V) -> Result<String, String> + Copy,
    C: Fn(V) -> Result<Vec<String>, String>,
    D: Fn(V) -> Result<E, String>,

    requires
        forall|key: &'static str| call_requires(look_up, (key,)),
        forall|object: V| call_requires(text, (object,)),
        forall|object: V| call_requires(texts, (object,)),
        forall|object: V| call_requires(error, (object,)),
    ensures
        envelope_read(look_up, text, texts, error, res),
{
    let data = match optional_item(look_up, KEY_DATA) {
        Ok(data) => data,
        Err(message) => return Err(message),
    };
    let id = match extract_optional(look_up, KEY_ID, text) {
        Ok(id) => id,
        Err(message) => return Err(message),
    };
    let event = match extract_optional(look_up, KEY_EVENT, text) {
        Ok(event) => event,
        Err(message) => return Err(message),
    };
    let comment = match extract_optional(look_up, KEY_COMMENT, texts) {
        Ok(comment) => comment,
        Err(message) => return Err(message),
    };
    match extract_optional(look_up, KEY_ERROR, error) {
        Ok(error) => Ok(Annotated { data, id, event, comment, error }),
        Err(message) => Err(message),
    }
}

/// Reads a Python response object as an annotated response.
///
/// An object that is no `dict`, and a `dict` whose marker is absent or not true, is the payload
/// itself; `is_truthy` gives `None` where asking for the truth raised, and that counts as false.
/// Of an envelope, and of nothing else, the fields are read.
pub fn parse_python_response<V, E, L, B, S, C, D>(
    item: V,
    is_dict: bool,
    look_up: L,
    is_truthy: B,
    text: S,
    texts: C,
    error: D,
) -> (res: Result<Annotated<V, E>, String>) where
    L: Fn(&'static str) -> Lookup<V> + Copy,
    B: Fn(V) -> Option<bool>,
    S: Fn(V) -> Result<String, String> + Copy,
    C: Fn(V) -> Result<Vec<String>, String>,
    D: Fn(V) -> Result<E, String>,

    requires
        forall|key: &'static str| call_requires(look_up, (key,)),
        forall|object: V| call_requires(is_truthy, (object,)),
        forall|object: V| call_requires(text, (object,)),
        forall|object: V| call_requires(texts, (object,)),
        forall|object: V| call_requires(error, (object,)),
    ensures
        !is_dict ==> res == Ok::<Annotated<V, E>, String>(payload_alone(item)),
        is_dict ==> exists|marker: Result<Option<V>, String>| #[trigger]
            item_read(look_up, KEY_MARKER, marker) && match marker {
                Err(message) => res == Err::<Annotated<V, E>, String>(message),
                Ok(None) => res == Ok::<Annotated<V, E>, String>(payload_alone(item)),
                Ok(Some(object)) => exists|truth: Option<bool>| #[trigger]
                    call_ensures(is_truthy, (object,), truth) && if truth == Some(true) {
                        envelope_read(look_up, text, texts, error, res)
                    } else {
                        res == Ok::<Annotated<V, E>, String>(payload_alone(item))
                    },
            },
{
    if !is_dict {
        return Ok(Annotated::from_data(item));
    }
    match optional_item(look_up, KEY_MARKER) {
        Err(message) => Err(message),
        Ok(None) => Ok(Annotated::from_data(item)),
        Ok(Some(object)) => match is_truthy(object) {
            Some(true) => parse_envelope(look_up, text, texts, error),
            _ => Ok(Annotated::from_data(item)),
        },
    }
}

/// A lookup gives the object under the key and nothing else: it gives none exactly where the key is
/// absent or `None` stands under it, and fails exactly where it raised, with that message.
pub proof fn law_lookups_give_the_object<V>(found: Lookup<V>, res: Result<Option<V>, String>)
    requires
        call_ensures(present_item::<V>, (found,), res),
    ensures
        found matches Err(message) ==> res == Err::<Option<V>, String>(message),
        found matches Ok(None) ==> res == Ok::<Option<V>, String>(None),
        found matches Ok(Some(PyItem::PyNone)) ==> res == Ok::<Option<V>, String>(None),
        found matches Ok(Some(PyItem::Object(object))) ==> res == Ok::<Option<V>, String>(
            Some(object),
        ),
{
}

/// Whether a lookup of `key` may find the value `item`: an object where it is one, and an absent key
/// or `None` where it is none.
pub open spec fn may_hold<V, L>(look_up: L, key: &'static str, item: Option<V>) -> bool where
    L: Fn(&'static str) -> Lookup<V>,
 {
    match item {
        Some(object) => call_ensures(look_up, (key,), Ok(Some(PyItem::Object(object)))),
        None => call_ensures(look_up, (key,), Ok(None)) || call_ensures(
            look_up,
            (key,),
            Ok(Some(PyItem::PyNone)),
        ),
    }
}

/// Whether a field may be read from `key` as `value`: as what `convert` makes of the object under the
/// key, and as none where there is no object.
pub open spec fn may_be_read_as<V, X, L, C>(
    look_up: L,
    key: &'static str,
    convert: C,
    value: Option<X>,
) -> bool where L: Fn(&'static str) -> Lookup<V>, C: Fn(V) -> Result<X, String> {
    match value {
        Some(value) => exists|object: V, outcome: Result<X, String>|
            {
                &&& may_hold(look_up, key, Some(object))
                &&& #[trigger] call_ensures(convert, (object,), outcome)
                &&& outcome == Ok::<X, String>(value)
            },
        None => may_hold(look_up, key, None::<V>),
    }
}

/// Whether reading a field from `key` may fail with `message`: the lookup raised it, or it is why the
/// object under the key could not be converted.
pub open spec fn may_fail_with<V, X, L, C>(
    look_up: L,
    key: &'static str,
    convert: C,
    message: String,
) -> bool where L: Fn(&'static str) -> Lookup<V>, C: Fn(V) -> Result<X, String> {
    ||| call_ensures(look_up, (key,), Err(message))
    ||| exists|object: V, outcome: Result<X, String>|
        {
            &&& may_hold(look_up, key, Some(object))
            &&& #[trigger] call_ensures(convert, (object,), outcome)
            &&& outcome == Err::<X, String>(message)
        }
}

/// Looking up a key asks for that key, and gives the object under it, or none, or the message of a
/// lookup that raised.
pub proof fn law_items_come_from_their_key<V, L>(
    look_up: L,
    key: &'static str,
    res: Result<Option<V>, String>,
) where L: Fn(&'static str) -> Lookup<V>
    requires
        call_ensures(optional_item::<V, L>, (look_up, key), res),
    ensures
        res matches Ok(item) ==> may_hold(look_up, key, item),
        res matches Err(message) ==> call_ensures(look_up, (key,), Err(message)),
{
    lemma_item_read(look_up, key, res);
}

/// Reading a field asks for its key, and gives what the object under it was converted to, or none,
/// or the message of the lookup or the conversion that failed.
pub proof fn law_fields_come_from_their_key<V, X, L, C>(
    look_up: L,
    key: &'static str,
    convert: C,
    res: Result<Option<X>, String>,
) where L: Fn(&'static str) -> Lookup<V>, C: Fn(V) -> Result<X, String>
    requires
        call_ensures(extract_optional::<V, X, L, C>, (look_up, key, convert), res),
    ensures
        res matches Ok(value) ==> may_be_read_as::<V, X, L, C>(look_up, key, convert, value),
        res matches Err(message) ==> may_fail_with::<V, X, L, C>(look_up, key, convert, message),
{
    lemma_field_read(look_up, key, convert, res);
}

/// Each field of an envelope that was read comes from its own key and from no other: the payload is
/// the very object under `data`, the identifier, the event and the comments are what the objects
/// under `id`, `event` and `comment` were converted to, and the error is what the object under
/// `error` was. A field is empty only where its own key is absent or holds `None`.
pub proof fn law_envelope_fields_come_from_their_keys<V, E, L, S, C, D>(
    look_up: L,
    text: S,
    texts: C,
    error: D,
    res: Result<Annotated<V, E>, String>,
) where
    L: Fn(&'static str) -> Lookup<V> + Copy,
    S: Fn(V) -> Result<String, String> + Copy,
    C: Fn(V) -> Result<Vec<String>, String>,
    D: Fn(V) -> Result<E, String>,

    requires
        call_ensures(parse_envelope::<V, E, L, S, C, D>, (look_up, text, texts, error), res),
    ensures
        res matches Ok(read) ==> {
            &&& may_hold(look_up, "data", read.data)
            &&& may_be_read_as::<V, String, L, S>(look_up, "id", text, read.id)
            &&& may_be_read_as::<V, String, L, S>(look_up, "event", text, read.event)
            &&& may_be_read_as::<V, Vec<String>, L, C>(look_up, "comment", texts, read.comment)
            &&& may_be_read_as::<V, E, L, D>(look_up, "error", error, read.error)
        },
{
    lemma_envelope_read(look_up, text, texts, error, res);
}

/// An envelope that cannot be read fails with the message of its first field that could not be:
/// every field in front of that one could be read, in the order data, id, event, comment, error.
pub proof fn law_envelopes_fail_with_their_first_failure<V, E, L, S, C, D>(
    look_up: L,
    text: S,
    texts: C,
    error: D,
    res: Result<Annotated<V, E>, String>,
) where
    L: Fn(&'static str) -> Lookup<V> + Copy,
    S: Fn(V) -> Result<String, String> + Copy,
    C: Fn(V) -> Result<Vec<String>, String>,
    D: Fn(V) -> Result<E, String>,

    requires
        call_ensures(parse_envelope::<V, E, L, S, C, D>, (look_up, text, texts, error), res),
    ensures
        res matches Err(message) ==> fails_first_with::<V, E, L, S, C, D>(
            look_up,
            text,
            texts,
            error,
            message,
        ),
{
    lemma_envelope_read(look_up, text, texts, error, res);
}

/// Whether an envelope's first failure may be `message`: one of its fields may fail with it, and each
/// field in front of that one may be read.
pub open spec fn fails_first_with<V, E, L, S, C, D>(
    look_up: L,
    text: S,
    texts: C,
    error: D,
    message: String,
) -> bool where
    L: Fn(&'static str) -> Lookup<V>,
    S: Fn(V) -> Result<String, String>,
    C: Fn(V) -> Result<Vec<String>, String>,
    D: Fn(V) -> Result<E, String>,
 {
    let data_read = exists|item: Option<V>| #[trigger] may_hold(look_up, "data", item);
    let id_read = data_read && exists|value: Option<String>| #[trigger]
        may_be_read_as::<V, String, L, S>(look_up, "id", text, value);
    let event_read = id_read && exists|value: Option<String>| #[trigger]
        may_be_read_as::<V, String, L, S>(look_up, "event", text, value);
    let comment_read = event_read && exists|value: Option<Vec<String>>| #[trigger]
        may_be_read_as::<V, Vec<String>, L, C>(look_up, "comment", texts, value);
    ||| call_ensures(look_up, ("data",), Err(message))
    ||| data_read && may_fail_with::<V, String, L, S>(look_up, "id", text, message)
    ||| id_read && may_fail_with::<V, String, L, S>(look_up, "event", text, message)
    ||| event_read && may_fail_with::<V, Vec<String>, L, C>(look_up, "comment", texts, message)
    ||| comment_read && may_fail_with::<V, E, L, D>(look_up, "error", error, message)
}

/// Two envelopes with the same object under `data` have the same payload, whatever their other
/// fields hold, and the same holds of an absent payload.
pub proof fn law_envelope_payloads_depend_on_nothing_else<V, E, L, S, C, D, M>(
    look_up: L,
    other: M,
    text: S,
    texts: C,
    error: D,
    found: Lookup<V>,
    res: Result<Annotated<V, E>, String>,
    other_res: Result<Annotated<V, E>, String>,
) where
    L: Fn(&'static str) -> Lookup<V> + Copy,
    M: Fn(&'static str) -> Lookup<V> + Copy,
    S: Fn(V) -> Result<String, String> + Copy,
    C: Fn(V) -> Result<Vec<String>, String>,
    D: Fn(V) -> Result<E, String>,

    requires
        forall|given: Lookup<V>| #[trigger] call_ensures(look_up, ("data",), given) ==> given == found,
        forall|given: Lookup<V>| #[trigger] call_ensures(other, ("data",), given) ==> given == found,
        call_ensures(parse_envelope::<V, E, L, S, C, D>, (look_up, text, texts, error), res),
        call_ensures(parse_envelope::<V, E, M, S, C, D>, (other, text, texts, error), other_res),
        res is Ok,
        other_res is Ok,
    ensures
        res->Ok_0.data == other_res->Ok_0.data,
        res->Ok_0.data is Some <==> found matches Ok(Some(PyItem::Object(_))),
{
    lemma_envelope_read(look_up, text, texts, error, res);
    lemma_envelope_read(other, text, texts, error, other_res);
}

/// An object that is no `dict` is the payload itself, and no other field is filled.
pub proof fn law_objects_are_their_own_payload<V, E, L, B, S, C, D>(
    item: V,
    look_up: L,
    is_truthy: B,
    text: S,
    texts: C,
    error: D,
    res: Result<Annotated<V, E>, String>,
) where
    L: Fn(&'static str) -> Lookup<V> + Copy,
    B: Fn(V) -> Option<bool>,
    S: Fn(V) -> Result<String, String> + Copy,
    C: Fn(V) -> Result<Vec<String>, String>,
    D: Fn(V) -> Result<E, String>,

    requires
        call_ensures(
            parse_python_response::<V, E, L, B, S, C, D>,
            (item, false, look_up, is_truthy, text, texts, error),
            res,
        ),
    ensures
        res matches Ok(read) && read.data == Some(item) && read.id is None && read.event is None
            && read.comment is None && read.error is None,
{
}

/// A `dict` is read by what stands under `_dynamo_annotated`. Where the lookup raises, that is the
/// failure. Where an object stands there that is true, the `dict` is an envelope: each field comes
/// from its own key, and the first failure is reported. In every other case the `dict` is the payload
/// itself, and no other field is filled.
pub proof fn law_dicts_are_read_by_their_marker<V, E, L, B, S, C, D>(
    item: V,
    look_up: L,
    is_truthy: B,
    text: S,
    texts: C,
    error: D,
    res: Result<Annotated<V, E>, String>,
) where
    L: Fn(&'static str) -> Lookup<V> + Copy,
    B: Fn(V) -> Option<bool>,
    S: Fn(V) -> Result<String, String> + Copy,
    C: Fn(V) -> Result<Vec<String>, String>,
    D: Fn(V) -> Result<E, String>,

    requires
        call_ensures(
            parse_python_response::<V, E, L, B, S, C, D>,
            (item, true, look_up, is_truthy, text, texts, error),
            res,
        ),
    ensures
        ({
            // The lookup of the marker raised.
            ||| res matches Err(message) && call_ensures(
                look_up,
                ("_dynamo_annotated",),
                Err(message),
            )
            // The marker is an object that is true.
            ||| (exists|marker: V| {
                &&& may_hold(look_up, "_dynamo_annotated", Some(marker))
                &&& #[trigger] call_ensures(is_truthy, (marker,), Some(true))
            }) && match res {
                Ok(read) => {
                    &&& may_hold(look_up, "data", read.data)
                    &&& may_be_read_as::<V, String, L, S>(look_up, "id", text, read.id)
                    &&& may_be_read_as::<V, String, L, S>(look_up, "event", text, read.event)
                    &&& may_be_read_as::<V, Vec<String>, L, C>(
                        look_up,
                        "comment",
                        texts,
                        read.comment,
                    )
                    &&& may_be_read_as::<V, E, L, D>(look_up, "error", error, read.error)
                },
                Err(message) => fails_first_with::<V, E, L, S, C, D>(
                    look_up,
                    text,
                    texts,
                    error,
                    message,
                ),
            }
            // The marker is absent, or `None`, or an object that is not true.
            ||| (may_hold(look_up, "_dynamo_annotated", None::<V>) || exists|
                marker: V,
                truth: Option<bool>,
            |
                {
                    &&& may_hold(look_up, "_dynamo_annotated", Some(marker))
                    &&& #[trigger] call_ensures(is_truthy, (marker,), truth)
                    &&& truth != Some(true)
                }) && (res matches Ok(read) && read.data == Some(item) && read.id is None
                && read.event is None && read.comment is None && read.error is None)
        }),
{
    let marker = choose|marker: Result<Option<V>, String>| #[trigger]
        item_read(look_up, KEY_MARKER, marker) && match marker {
            Err(message) => res == Err::<Annotated<V, E>, String>(message),
            Ok(None) => res == Ok::<Annotated<V, E>, String>(payload_alone(item)),
            Ok(Some(object)) => exists|truth: Option<bool>| #[trigger]
                call_ensures(is_truthy, (object,), truth) && if truth == Some(true) {
                    envelope_read(look_up, text, texts, error, res)
                } else {
                    res == Ok::<Annotated<V, E>, String>(payload_alone(item))
                },
        };
    lemma_item_read(look_up, KEY_MARKER, marker);
    if let Ok(Some(object)) = marker {
        let truth = choose|truth: Option<bool>| #[trigger]
            call_ensures(is_truthy, (object,), truth) && if truth == Some(true) {
                envelope_read(look_up, text, texts, error, res)
            } else {
                res == Ok::<Annotated<V, E>, String>(payload_alone(item))
            };
        assert(call_ensures(is_truthy, (object,), truth));
        if truth == Some(true) {
            lemma_envelope_read(look_up, text, texts, error, res);
        }
    }
}

proof fn lemma_item_read<V, L>(look_up: L, key: &'static str, res: Result<Option<V>, String>) where
    L: Fn(&'static str) -> Lookup<V>,

    requires
        item_read(look_up, key, res),
    ensures
        res matches Ok(item) ==> may_hold(look_up, key, item),
        res matches Err(message) ==> call_ensures(look_up, (key,), Err(message)),
{
    let found = choose|found: Lookup<V>| #[trigger]
        call_ensures(look_up, (key,), found) && res == present(found);
    assert(match found {
        Ok(Some(PyItem::Object(object))) => found == Ok::<Option<PyItem<V>>, String>(
            Some(PyItem::Object(object)),
        ),
        Ok(Some(PyItem::PyNone)) => found == Ok::<Option<PyItem<V>>, String>(Some(PyItem::PyNone)),
        Ok(None) => found == Ok::<Option<PyItem<V>>, String>(None),
        Err(message) => found == Err::<Option<PyItem<V>>, String>(message),
    });
}

proof fn lemma_field_read<V, X, L, C>(
    look_up: L,
    key: &'static str,
    convert: C,
    res: Result<Option<X>, String>,
) where L: Fn(&'static str) -> Lookup<V>, C: Fn(V) -> Result<X, String>
    requires
        field_read(look_up, key, convert, res),
    ensures
        res matches Ok(value) ==> may_be_read_as::<V, X, L, C>(look_up, key, convert, value),
        res matches Err(message) ==> may_fail_with::<V, X, L, C>(look_up, key, convert, message),
{
    let item = choose|item: Result<Option<V>, String>| #[trigger]
        item_read(look_up, key, item) && match item {
            Ok(Some(object)) => exists|outcome: Result<X, String>| #[trigger]
                call_ensures(convert, (object,), outcome) && res == converted(outcome),
            Ok(None) => res == Ok::<Option<X>, String>(None),
            Err(message) => res == Err::<Option<X>, String>(message),
        };
    lemma_item_read(look_up, key, item);
    match item {
        Ok(None) => {
            assert(may_be_read_as::<V, X, L, C>(look_up, key, convert, None));
        },
        Ok(Some(object)) => {
            let outcome = choose|outcome: Result<X, String>| #[trigger]
                call_ensures(convert, (object,), outcome) && res == converted(outcome);
            assert(may_hold(look_up, key, Some(object)));
            assert(call_ensures(convert, (object,), outcome));
        },
        Err(_) => {},
    }
}

proof fn lemma_envelope_read<V, E, L, S, C, D>(
    look_up: L,
    text: S,
    texts: C,
    error: D,
    res: Result<Annotated<V, E>, String>,
) where
    L: Fn(&'static str) -> Lookup<V>,
    S: Fn(V) -> Result<String, String>,
    C: Fn(V) -> Result<Vec<String>, String>,
    D: Fn(V) -> Result<E, String>,

    requires
        envelope_read(look_up, text, texts, error, res),
    ensures
        res matches Ok(read) ==> {
            &&& may_hold(look_up, "data", read.data)
            &&& may_be_read_as::<V, String, L, S>(look_up, "id", text, read.id)
            &&& may_be_read_as::<V, String, L, S>(look_up, "event", text, read.event)
            &&& may_be_read_as::<V, Vec<String>, L, C>(look_up, "comment", texts, read.comment)
            &&& may_be_read_as::<V, E, L, D>(look_up, "error", error, read.error)
        },
        res matches Err(message) ==> fails_first_with::<V, E, L, S, C, D>(
            look_up,
            text,
            texts,
            error,
            message,
        ),
{
    assert forall|item: Result<Option<V>, String>| #[trigger]
        item_read(look_up, KEY_DATA, item) implies match item {
        Ok(item) => may_hold(look_up, "data", item),
        Err(message) => call_ensures(look_up, ("data",), Err(message)),
    } by {
        lemma_item_read(look_up, KEY_DATA, item);
    }
    assert forall|read: Result<Option<String>, String>| #[trigger]
        field_read(look_up, KEY_ID, text, read) implies match read {
        Ok(value) => may_be_read_as::<V, String, L, S>(look_up, "id", text, value),
        Err(message) => may_fail_with::<V, String, L, S>(look_up, "id", text, message),
    } by {
        lemma_field_read::<V, String, L, S>(look_up, KEY_ID, text, read);
    }
    assert forall|read: Result<Option<String>, String>| #[trigger]
        field_read(look_up, KEY_EVENT, text, read) implies match read {
        Ok(value) => may_be_read_as::<V, String, L, S>(look_up, "event", text, value),
        Err(message) => may_fail_with::<V, String, L, S>(look_up, "event", text, message),
    } by {
        lemma_field_read::<V, String, L, S>(look_up, KEY_EVENT, text, read);
    }
    assert forall|read: Result<Option<Vec<String>>, String>| #[trigger]
        field_read(look_up, KEY_COMMENT, texts, read) implies match read {
        Ok(value) => may_be_read_as::<V, Vec<String>, L, C>(look_up, "comment", texts, value),
        Err(message) => may_fail_with::<V, Vec<String>, L, C>(look_up, "comment", texts, message),
    } by {
        lemma_field_read::<V, Vec<String>, L, C>(look_up, KEY_COMMENT, texts, read);
    }
    assert forall|read: Result<Option<E>, String>| #[trigger]
        field_read(look_up, KEY_ERROR, error, read) implies match read {
        Ok(value) => may_be_read_as::<V, E, L, D>(look_up, "error", error, value),
        Err(message) => may_fail_with::<V, E, L, D>(look_up, "error", error, message),
    } by {
        lemma_field_read::<V, E, L, D>(look_up, KEY_ERROR, error, read);
    }
}

} // verus!

use std::cell::RefCell;

use python_payload::annotated::{Annotated, NetworkStreamWrapper};
use python_payload::codec::{
    decode_payload, finish_decode_request, PipelineError, RequestPlanePayloadCodec,
};
use python_payload::egress::{
    encode_final_response, encode_pushed_response, encode_response, finish_final_frame,
    finish_offloaded_response, Egress, EncodeStep,
};
use python_payload::envelope::{
    extract_optional, optional_item, parse_envelope, parse_python_response, present_item, Lookup,
    PyItem,
};
use python_payload::response::{
    encode_annotated_response, encode_python_response, fallback_response, finish_fallback,
    interpret_response, write_annotated_response, EncodedResponseFrame, PythonResponseItem,
};
use serde::ser::{Serialize, SerializeStruct, Serializer};

const CODECS: [RequestPlanePayloadCodec; 2] =
    [RequestPlanePayloadCodec::Json, RequestPlanePayloadCodec::Msgpack];

/// An annotated response for a serde codec: absent fields are skipped.
struct WireAnnotated<'a, T>(&'a Annotated<T, String>);

impl<T: Serialize> Serialize for WireAnnotated<'_, T> {
    fn serialize<S: Serializer>(&self, serializer: S) -> Result<S::Ok, S::Error> {
        let a = self.0;
        let count = a.data.is_some() as usize
            + a.id.is_some() as usize
            + a.event.is_some() as usize
            + a.comment.is_some() as usize
            + a.error.is_some() as usize;
        let mut fields = serializer.serialize_struct("Annotated", count)?;
        if let Some(data) = &a.data {
            fields.serialize_field("data", data)?;
        }
        if let Some(id) = &a.id {
            fields.serialize_field("id", id)?;
        }
        if let Some(event) = &a.event {
            fields.serialize_field("event", event)?;
        }
        if let Some(comment) = &a.comment {
            fields.serialize_field("comment", comment)?;
        }
        if let Some(error) = &a.error {
            fields.serialize_field("error", error)?;
        }
        fields.end()
    }
}

struct WireItem<'a, T>(&'a NetworkStreamWrapper<Annotated<T, String>>);

impl<T: Serialize> Serialize for WireItem<'_, T> {
    fn serialize<S: Serializer>(&self, serializer: S) -> Result<S::Ok, S::Error> {
        let count = self.0.data.is_some() as usize + 1;
        let mut fields = serializer.serialize_struct("NetworkStreamWrapper", count)?;
        if let Some(data) = &self.0.data {
            fields.serialize_field("data", &WireAnnotated(data))?;
        }
        fields.serialize_field("complete_final", &self.0.complete_final)?;
        fields.end()
    }
}

fn encode_into<T: Serialize>(
    codec: RequestPlanePayloadCodec,
    item: &NetworkStreamWrapper<Annotated<T, String>>,
    out: &mut Vec<u8>,
) -> Result<(), String> {
    match codec {
        RequestPlanePayloadCodec::Json => {
            serde_json::to_writer(out, &WireItem(item)).map_err(|error| error.to_string())
        }
        RequestPlanePayloadCodec::Msgpack => rmp_serde::encode::write_named(out, &WireItem(item))
            .map_err(|error| error.to_string()),
    }
}

fn decode(codec: RequestPlanePayloadCodec, bytes: &[u8]) -> serde_json::Value {
    match codec {
        RequestPlanePayloadCodec::Json => serde_json::from_slice(bytes).unwrap(),
        RequestPlanePayloadCodec::Msgpack => rmp_serde::from_slice(bytes).unwrap(),
    }
}

fn encode<T: Serialize>(
    codec: RequestPlanePayloadCodec,
    annotated: Annotated<T, String>,
) -> Result<(Vec<u8>, bool), String> {
    encode_annotated_response(codec, annotated, encode_into)
}

fn object(entries: Vec<(&str, serde_json::Value)>) -> serde_json::Value {
    let mut map = serde_json::Map::new();
    for (key, value) in entries {
        map.insert(key.to_string(), value);
    }
    serde_json::Value::Object(map)
}

#[test]
fn encode_annotated_response_is_error_true_for_error_annotated() {
    let (_, is_error) = encode(
        RequestPlanePayloadCodec::Json,
        Annotated::<serde_json::Value, String>::from_error("oops".to_string()),
    )
    .unwrap();
    assert!(is_error);
}

#[test]
fn encode_annotated_response_is_error_false_for_data_annotated() {
    let (_, is_error) = encode(
        RequestPlanePayloadCodec::Json,
        Annotated::from_data(object(vec![("ok", serde_json::Value::Bool(true))])),
    )
    .unwrap();
    assert!(!is_error);
}

#[test]
fn encode_annotated_response_complete_final_is_always_false() {
    for codec in CODECS {
        let (bytes, _) = encode(codec, Annotated::from_data(serde_json::Value::Null)).unwrap();
        let wrapper = decode(codec, &bytes);
        assert_eq!(
            wrapper["complete_final"],
            serde_json::Value::Bool(false),
            "codec={}",
            codec.name()
        );
    }
}

#[test]
fn encode_annotated_response_data_survives_roundtrip() {
    let payload = object(vec![
        ("text", serde_json::Value::from("hello")),
        ("n", serde_json::Value::from(42)),
    ]);
    let (bytes, is_error) =
        encode(RequestPlanePayloadCodec::Json, Annotated::from_data(payload.clone())).unwrap();
    assert!(!is_error);
    let wrapper = decode(RequestPlanePayloadCodec::Json, &bytes);
    assert_eq!(wrapper["data"]["data"], payload);
}

#[test]
fn rmpv_value_carries_bytes_through_msgpack_request_plane() {
    let payload = rmpv::Value::Map(vec![
        (
            rmpv::Value::String("img".into()),
            rmpv::Value::Binary(vec![0xDE, 0xAD, 0xBE, 0xEF]),
        ),
        (rmpv::Value::String("n".into()), rmpv::Value::from(7i64)),
    ]);
    let (wire, _) =
        encode(RequestPlanePayloadCodec::Msgpack, Annotated::from_data(payload)).expect("encode");
    let back: rmpv::Value =
        rmp_serde::from_slice(&wire).expect("bytes field must not error on decode");
    let field = |map: &rmpv::Value, name: &str| {
        map.as_map()
            .expect("map")
            .iter()
            .find(|(k, _)| k.as_str() == Some(name))
            .map(|(_, v)| v.clone())
            .expect("field")
    };
    let data = field(&field(&back, "data"), "data");
    let img = field(&data, "img");
    assert!(
        matches!(&img, rmpv::Value::Binary(b) if b == &[0xDE, 0xAD, 0xBE, 0xEF]),
        "msgpack must preserve bytes as Binary, got {img:?}"
    );
}

#[test]
fn is_error_goes_by_the_event() {
    let mut annotated: Annotated<u8, String> = Annotated::from_data(1);
    assert!(!annotated.is_error());
    annotated.event = Some("token".to_string());
    assert!(!annotated.is_error());
    annotated.event = Some("error".to_string());
    assert!(annotated.is_error());
}

#[test]
fn annotated_constructors_fill_their_fields() {
    let data: Annotated<u8, String> = Annotated::from_data(1);
    assert_eq!(data.data, Some(1));
    assert!(data.id.is_none() && data.event.is_none());
    assert!(data.comment.is_none() && data.error.is_none());
    let message: Annotated<u8, String> = Annotated::from_error("oops".to_string());
    assert!(message.is_error() && message.data.is_none() && message.error.is_none());
    assert_eq!(message.comment, Some(vec!["oops".to_string()]));
    let error: Annotated<u8, String> = Annotated::from_err("boom".to_string());
    assert!(error.is_error() && error.data.is_none() && error.comment.is_none());
    assert_eq!(error.error, Some("boom".to_string()));
}

#[test]
fn write_annotated_response_keeps_what_the_buffer_holds() {
    let mut buffer = b"earlier".to_vec();
    let is_error = write_annotated_response(
        RequestPlanePayloadCodec::Json,
        Annotated::<u8, String>::from_err("boom".to_string()),
        &mut buffer,
        encode_into,
    )
    .unwrap();
    assert!(is_error);
    assert_eq!(
        String::from_utf8(buffer).unwrap(),
        "earlier{\"data\":{\"event\":\"error\",\"error\":\"boom\"},\"complete_final\":false}"
    );
}

#[test]
fn writing_appends_what_encoding_gives() {
    let responses: [fn() -> Annotated<u8, String>; 3] = [
        || Annotated::from_data(7),
        || Annotated::from_error("oops".to_string()),
        || Annotated::from_err("boom".to_string()),
    ];
    for codec in CODECS {
        let mut buffer = b"earlier".to_vec();
        let mut expected = buffer.clone();
        for response in responses {
            let (bytes, flag) = encode(codec, response()).unwrap();
            expected.extend(bytes);
            let is_error =
                write_annotated_response(codec, response(), &mut buffer, encode_into);
            assert_eq!(is_error, Ok(flag));
            assert_eq!(buffer, expected);
        }
    }
}

/// Writes one byte, and fails.
fn fail_late(
    _: RequestPlanePayloadCodec,
    _: &NetworkStreamWrapper<Annotated<u8, String>>,
    out: &mut Vec<u8>,
) -> Result<(), String> {
    out.push(0x82);
    Err("no".to_string())
}

#[test]
fn a_failed_write_keeps_what_the_buffer_holds() {
    let mut buffer = b"earlier".to_vec();
    let res = write_annotated_response(
        RequestPlanePayloadCodec::Msgpack,
        Annotated::<u8, String>::from_data(1),
        &mut buffer,
        fail_late,
    );
    assert_eq!(res, Err("no".to_string()));
    assert!(buffer.starts_with(b"earlier"));
}

#[test]
fn writing_and_encoding_fail_together() {
    for codec in CODECS {
        let mut buffer = b"earlier".to_vec();
        let written = write_annotated_response(
            codec,
            Annotated::<u8, String>::from_data(1),
            &mut buffer,
            fail_late,
        );
        let encoded =
            encode_annotated_response(codec, Annotated::<u8, String>::from_data(1), fail_late);
        assert_eq!(written, Err("no".to_string()));
        assert_eq!(encoded, Err("no".to_string()));
    }
}

#[test]
fn encoders_are_told_the_codec() {
    for codec in CODECS {
        let told = |codec: RequestPlanePayloadCodec,
                    _: &NetworkStreamWrapper<Annotated<u8, String>>,
                    out: &mut Vec<u8>| {
            out.extend_from_slice(codec.name().as_bytes());
            Ok(())
        };
        let name = codec.name().as_bytes();
        let mut buffer: Vec<u8> = vec![];
        write_annotated_response(codec, Annotated::from_data(1), &mut buffer, told).unwrap();
        assert_eq!(buffer, name);
        let (bytes, _) =
            encode_annotated_response(codec, Annotated::from_data(1), told).unwrap();
        assert_eq!(bytes, name);
        let item: Item = PythonResponseItem::new(Ok(1));
        let frame = encode_python_response(codec, item, read_number, map_raised, told).unwrap();
        assert_eq!(&frame.bytes[..], name);
        let frame = encode_final_response(Egress::Pull, codec, told).unwrap();
        assert_eq!(&frame.bytes[..], name);
        let decoded = decode_payload(codec, b"x", |codec: RequestPlanePayloadCodec, bytes: &[u8]| {
            Ok((codec, bytes.to_vec()))
        });
        assert_eq!(decoded.unwrap(), (codec, b"x".to_vec()));
    }
}

/// What a generator gives in these tests: a number, or the name of an exception.
type Item = PythonResponseItem<u8, &'static str>;

/// Reads a number as the response it stands for: `0` is no response, and `1` is an error.
fn read_number(number: u8) -> Result<Annotated<u8, String>, String> {
    let mut annotated = Annotated::from_data(number);
    match number {
        0 => Err("bad id".to_string()),
        1 => {
            annotated.event = Some("error".to_string());
            Ok(annotated)
        }
        _ => Ok(annotated),
    }
}

fn map_raised(name: &'static str) -> String {
    format!("{name} was raised")
}

fn encode_python(
    item: Result<u8, &'static str>,
) -> Result<EncodedResponseFrame, PipelineError> {
    let codec = RequestPlanePayloadCodec::Json;
    encode_python_response(codec, Item::new(item), read_number, map_raised, encode_into)
}

#[test]
fn a_response_becomes_a_frame_that_goes_on() {
    let frame = encode_python(Ok(7)).unwrap();
    assert!(!frame.is_error && !frame.stop_stream);
    assert_eq!(&frame.bytes[..], b"{\"data\":{\"data\":7},\"complete_final\":false}");
}

#[test]
fn an_error_envelope_is_an_error_that_goes_on() {
    let frame = encode_python(Ok(1)).unwrap();
    assert!(frame.is_error && !frame.stop_stream);
}

#[test]
fn an_unreadable_object_stops_the_stream() {
    let frame = encode_python(Ok(0)).unwrap();
    assert!(frame.is_error && frame.stop_stream);
    let wrapper = decode(RequestPlanePayloadCodec::Json, &frame.bytes);
    assert_eq!(
        wrapper["data"]["comment"][0].as_str().unwrap(),
        "critical error: invalid response object from Python async generator; \
         application-logic-mismatch: bad id"
    );
}

#[test]
fn an_exception_stops_the_stream() {
    let frame = encode_python(Err("ValueError")).unwrap();
    assert!(frame.is_error && frame.stop_stream);
    let wrapper = decode(RequestPlanePayloadCodec::Json, &frame.bytes);
    assert_eq!(wrapper["data"]["error"].as_str(), Some("ValueError was raised"));
}

#[test]
fn an_unencodable_response_is_replaced_by_an_error() {
    let frame = encode_python_response(
        RequestPlanePayloadCodec::Msgpack,
        Item::new(Ok(7)),
        read_number,
        map_raised,
        |codec: RequestPlanePayloadCodec,
         item: &NetworkStreamWrapper<Annotated<u8, String>>,
         out: &mut Vec<u8>| {
            assert!(out.is_empty());
            if item.data.as_ref().unwrap().data.is_some() {
                out.push(0);
                Err("too deep".to_string())
            } else {
                encode_into(codec, item, out)
            }
        },
    )
    .unwrap();
    assert!(frame.is_error && frame.stop_stream);
    let wrapper = decode(RequestPlanePayloadCodec::Msgpack, &frame.bytes);
    assert_eq!(wrapper["complete_final"], serde_json::Value::Bool(false));
    assert_eq!(
        wrapper["data"]["comment"][0].as_str().unwrap(),
        "critical error: failed serializing Python response as msgpack: too deep"
    );
}

#[test]
fn a_fallback_that_fails_too_is_a_serialization_error() {
    let res = encode_python_response(
        RequestPlanePayloadCodec::Json,
        Item::new(Ok(7)),
        read_number,
        map_raised,
        |_: RequestPlanePayloadCodec,
         _: &NetworkStreamWrapper<Annotated<u8, String>>,
         _: &mut Vec<u8>| Err("no space".to_string()),
    );
    match res {
        Err(PipelineError::SerializationError(message)) => assert_eq!(
            message,
            "failed to serialize Python response and fallback error as json: no space"
        ),
        other => panic!("unexpected {other:?}"),
    }
}

#[test]
fn interpretations_tell_when_a_stream_stops() {
    let (read, stop) = interpret_response::<u8, String>(Ok(Ok(Annotated::from_data(1))));
    assert!(!stop && !read.is_error() && read.data == Some(1));
    let (invalid, stop) = interpret_response::<u8, String>(Ok(Err("x".to_string())));
    assert!(stop && invalid.is_error());
    let (raised, stop) = interpret_response::<u8, String>(Err("x".to_string()));
    assert!(stop && raised.is_error() && raised.error == Some("x".to_string()));
}

#[test]
fn fallback_pieces_agree_with_the_whole() {
    let fallback: Annotated<u8, String> = fallback_response(RequestPlanePayloadCodec::Json, "x");
    assert_eq!(
        fallback.comment,
        Some(vec![
            "critical error: failed serializing Python response as json: x".to_string()
        ])
    );
    let frame = finish_fallback(RequestPlanePayloadCodec::Json, Ok(vec![1, 2])).unwrap();
    assert!(frame.is_error && frame.stop_stream);
    assert_eq!(&frame.bytes[..], &[1, 2]);
    assert!(finish_fallback(RequestPlanePayloadCodec::Json, Err("y".to_string())).is_err());
}

#[test]
fn python_items_are_handed_back_and_described() {
    let data: PythonResponseItem<u8, u8> = PythonResponseItem::new(Ok(1));
    assert_eq!(data.debug_text(), "PythonResponseItem::Data(<PyAny>)");
    assert_eq!(data.into_result(), Ok(1));
    let error: PythonResponseItem<u8, u8> = PythonResponseItem::new(Err(2));
    assert_eq!(error.debug_text(), "PythonResponseItem::Error(<PyErr>)");
    assert_eq!(error.into_result(), Err(2));
}

/// An object in these tests. A text stands for a `str`, and a number for anything else.
#[derive(Clone, Debug, PartialEq)]
enum Object {
    Text(&'static str),
    Number(u8),
}

fn text(object: Object) -> Result<String, String> {
    match object {
        Object::Text(text) => Ok(text.to_string()),
        Object::Number(number) => Err(format!("{number} is no str")),
    }
}

fn texts(object: Object) -> Result<Vec<String>, String> {
    match object {
        Object::Text(text) => Ok(text.split(',').map(str::to_string).collect()),
        Object::Number(number) => Err(format!("{number} is no list")),
    }
}

fn number(object: Object) -> Result<u8, String> {
    match object {
        Object::Text(text) => Err(format!("{text} is no error")),
        Object::Number(number) => Ok(number),
    }
}

fn is_truthy(object: Object) -> Option<bool> {
    match object {
        Object::Text(_) => None,
        Object::Number(number) => Some(number != 0),
    }
}

/// A `dict` in these tests: what looking up each key gives, and which keys were looked up.
struct Dict {
    entries: Vec<(&'static str, Result<PyItem<Object>, String>)>,
    asked: RefCell<Vec<&'static str>>,
}

impl Dict {
    fn new(entries: Vec<(&'static str, Result<PyItem<Object>, String>)>) -> Self {
        Self { entries, asked: RefCell::new(vec![]) }
    }

    fn look_up(&self, key: &'static str) -> Lookup<Object> {
        self.asked.borrow_mut().push(key);
        match self.entries.iter().find(|(name, _)| *name == key) {
            Some((_, Ok(PyItem::Object(object)))) => Ok(Some(PyItem::Object(object.clone()))),
            Some((_, Ok(PyItem::PyNone))) => Ok(Some(PyItem::PyNone)),
            Some((_, Err(message))) => Err(message.clone()),
            None => Ok(None),
        }
    }

    fn envelope(&self) -> Result<Annotated<Object, u8>, String> {
        parse_envelope(|key: &'static str| self.look_up(key), text, texts, number)
    }

    fn response(&self, is_dict: bool) -> Result<Annotated<Object, u8>, String> {
        let look_up = |key: &'static str| self.look_up(key);
        let item = Object::Text("the item itself");
        parse_python_response(item, is_dict, look_up, is_truthy, text, texts, number)
    }
}

fn found(object: Object) -> Result<PyItem<Object>, String> {
    Ok(PyItem::Object(object))
}

fn full_envelope() -> Vec<(&'static str, Result<PyItem<Object>, String>)> {
    vec![
        ("error", found(Object::Number(5))),
        ("comment", found(Object::Text("c,d"))),
        ("event", found(Object::Text("e"))),
        ("id", found(Object::Text("i"))),
        ("data", found(Object::Number(9))),
        ("_dynamo_annotated", found(Object::Number(1))),
    ]
}

#[test]
fn lookups_treat_none_as_absent() {
    assert_eq!(present_item::<u8>(Ok(None)), Ok(None));
    assert_eq!(present_item::<u8>(Ok(Some(PyItem::PyNone))), Ok(None));
    assert_eq!(present_item(Ok(Some(PyItem::Object(3u8)))), Ok(Some(3)));
    assert_eq!(present_item::<u8>(Err("raised".to_string())), Err("raised".to_string()));

    let dict = Dict::new(vec![
        ("none", Ok(PyItem::PyNone)),
        ("text", found(Object::Text("a"))),
        ("number", found(Object::Number(3))),
        ("raising", Err("raised".to_string())),
    ]);
    let look_up = |key: &'static str| dict.look_up(key);
    assert_eq!(optional_item(look_up, "missing"), Ok(None));
    assert_eq!(optional_item(look_up, "none"), Ok(None));
    assert_eq!(optional_item(look_up, "number"), Ok(Some(Object::Number(3))));
    assert_eq!(optional_item(look_up, "raising"), Err("raised".to_string()));
    assert_eq!(extract_optional(look_up, "missing", text), Ok(None));
    assert_eq!(extract_optional(look_up, "none", text), Ok(None));
    assert_eq!(extract_optional(look_up, "text", text), Ok(Some("a".to_string())));
    assert_eq!(extract_optional(look_up, "number", text), Err("3 is no str".to_string()));
    assert_eq!(extract_optional(look_up, "raising", text), Err("raised".to_string()));
}

#[test]
fn envelopes_are_read_field_by_field() {
    let dict = Dict::new(full_envelope());
    let annotated = dict.envelope().unwrap();
    assert_eq!(annotated.data, Some(Object::Number(9)));
    assert_eq!(annotated.id, Some("i".to_string()));
    assert_eq!(annotated.event, Some("e".to_string()));
    assert_eq!(annotated.comment, Some(vec!["c".to_string(), "d".to_string()]));
    assert_eq!(annotated.error, Some(5));
    assert_eq!(*dict.asked.borrow(), ["data", "id", "event", "comment", "error"]);

    let sparse = Dict::new(vec![("data", Ok(PyItem::PyNone)), ("event", found(Object::Text("e")))]);
    let annotated = sparse.envelope().unwrap();
    assert_eq!(annotated.event, Some("e".to_string()));
    assert!(annotated.data.is_none() && annotated.id.is_none());
    assert!(annotated.comment.is_none() && annotated.error.is_none());
}

#[test]
fn the_first_bad_field_is_reported_and_ends_the_reading() {
    let order = ["data", "id", "event", "comment", "error"];
    for (at, key) in order.iter().enumerate() {
        // Every field from this one on is bad.
        let mut entries = full_envelope();
        for (name, entry) in &mut entries {
            if order[at..].contains(name) {
                *entry = Err(format!("{name} raised"));
            }
        }
        let dict = Dict::new(entries);
        assert_eq!(dict.envelope().unwrap_err(), format!("{key} raised"));
        assert_eq!(*dict.asked.borrow(), order[..=at]);
    }
    for (key, bad, expected) in [
        ("id", Object::Number(1), "1 is no str"),
        ("event", Object::Number(2), "2 is no str"),
        ("comment", Object::Number(3), "3 is no list"),
        ("error", Object::Text("x"), "x is no error"),
    ] {
        let mut entries = full_envelope();
        for (name, entry) in &mut entries {
            if *name == key {
                *entry = found(bad.clone());
            }
        }
        assert_eq!(Dict::new(entries).envelope().unwrap_err(), expected);
    }
}

#[test]
fn only_a_true_marker_makes_an_envelope() {
    for marker in [
        None,
        Some(Ok(PyItem::PyNone)),
        Some(found(Object::Number(0))),
        Some(found(Object::Text("asking for its truth raises"))),
    ] {
        let mut entries = full_envelope();
        entries.retain(|(name, _)| *name != "_dynamo_annotated");
        if let Some(marker) = marker {
            entries.push(("_dynamo_annotated", marker));
        }
        let dict = Dict::new(entries);
        let annotated = dict.response(true).unwrap();
        assert_eq!(annotated.data, Some(Object::Text("the item itself")));
        assert!(annotated.id.is_none() && annotated.event.is_none());
        assert!(annotated.comment.is_none() && annotated.error.is_none());
        assert_eq!(*dict.asked.borrow(), ["_dynamo_annotated"]);
    }

    let other = Dict::new(full_envelope());
    assert_eq!(other.response(false).unwrap().data, Some(Object::Text("the item itself")));
    assert!(other.asked.borrow().is_empty());

    let raising = Dict::new(vec![("_dynamo_annotated", Err("raised".to_string()))]);
    assert_eq!(raising.response(true).unwrap_err(), "raised");

    let annotated = Dict::new(full_envelope()).response(true).unwrap();
    assert_eq!(annotated.data, Some(Object::Number(9)));
    assert_eq!(annotated.id, Some("i".to_string()));
    assert_eq!(annotated.error, Some(5));
}

type Step = EncodeStep<u8>;

#[test]
fn the_end_of_a_stream_wins_over_an_item() {
    for egress in [Egress::Pull, Egress::Push] {
        for response in [None, Some(3)] {
            let step: Step = encode_response(egress, response, true);
            assert!(matches!(step, EncodeStep::EncodeFinal));
        }
        let step: Step = encode_response(egress, Some(3), false);
        assert!(matches!(step, EncodeStep::EncodeItem(3)));
    }
}

#[test]
fn a_missing_item_is_a_serialization_error() {
    for (egress, expected) in [
        (Egress::Pull, "request-plane response item missing before final frame"),
        (Egress::Push, "push-egress response item missing before final frame"),
    ] {
        let step: Step = encode_response(egress, None, false);
        match step {
            EncodeStep::Fail(PipelineError::SerializationError(message)) => {
                assert_eq!(message, expected);
            }
            _ => panic!("a missing item must fail"),
        }
    }
}

#[test]
fn final_frames_are_settled() {
    let frame =
        finish_final_frame(Egress::Pull, RequestPlanePayloadCodec::Json, Ok(vec![1, 2, 3]))
            .unwrap();
    assert!(!frame.is_error && !frame.stop_stream);
    assert_eq!(&frame.bytes[..], &[1, 2, 3]);
    for (egress, expected) in [
        (Egress::Pull, "Failed serializing msgpack request-plane final response: x"),
        (Egress::Push, "Failed serializing msgpack push-egress final response: x"),
    ] {
        let codec = RequestPlanePayloadCodec::Msgpack;
        match finish_final_frame(egress, codec, Err("x".to_string())) {
            Err(PipelineError::SerializationError(message)) => assert_eq!(message, expected),
            other => panic!("unexpected {other:?}"),
        }
    }
}

/// Writes nothing, and fails.
fn fail_at_once(
    _: RequestPlanePayloadCodec,
    _: &NetworkStreamWrapper<Annotated<(), String>>,
    _: &mut Vec<u8>,
) -> Result<(), String> {
    Err("x".to_string())
}

#[test]
fn final_items_carry_nothing_and_are_no_error() {
    for egress in [Egress::Pull, Egress::Push] {
        for codec in CODECS {
            let frame = encode_final_response(egress, codec, encode_into::<()>).unwrap();
            assert!(!frame.is_error && !frame.stop_stream);
            let wrapper = decode(codec, &frame.bytes);
            assert_eq!(wrapper, object(vec![("complete_final", serde_json::Value::Bool(true))]));
        }
    }
    for (egress, expected) in [
        (Egress::Pull, "Failed serializing json request-plane final response: x"),
        (Egress::Push, "Failed serializing json push-egress final response: x"),
    ] {
        match encode_final_response(egress, RequestPlanePayloadCodec::Json, fail_at_once) {
            Err(PipelineError::SerializationError(message)) => assert_eq!(message, expected),
            other => panic!("unexpected {other:?}"),
        }
    }
}

/// Hands over a pushed frame for `codec`: `0` cannot be handed over.
fn into_encoded(
    frame: u8,
    codec: RequestPlanePayloadCodec,
) -> Result<EncodedResponseFrame, PipelineError> {
    if frame == 0 {
        return Err(PipelineError::SerializationError("re-encoding failed".to_string()));
    }
    let bytes = format!("{frame} as {}", codec.name()).into();
    Ok(EncodedResponseFrame { bytes, is_error: true, stop_stream: true })
}

#[test]
fn pushed_frames_are_forwarded() {
    for codec in CODECS {
        let push = |response: Option<u8>, complete_final: bool| {
            encode_pushed_response(
                codec,
                response,
                complete_final,
                into_encoded,
                encode_into::<()>,
            )
        };
        let frame = push(Some(3), false).unwrap();
        assert_eq!(&frame.bytes[..], format!("3 as {}", codec.name()).as_bytes());
        assert!(frame.is_error && frame.stop_stream);
        for response in [None, Some(0), Some(3)] {
            let frame = push(response, true).unwrap();
            assert!(!frame.is_error && !frame.stop_stream);
            let wrapper = decode(codec, &frame.bytes);
            assert_eq!(wrapper["complete_final"], serde_json::Value::Bool(true));
        }
        for (response, expected) in [
            (Some(0), "re-encoding failed"),
            (None, "push-egress response item missing before final frame"),
        ] {
            match push(response, false) {
                Err(PipelineError::SerializationError(message)) => assert_eq!(message, expected),
                other => panic!("unexpected {other:?}"),
            }
        }
    }
    let codec = RequestPlanePayloadCodec::Msgpack;
    match encode_pushed_response(codec, Some(3), true, into_encoded, fail_at_once) {
        Err(PipelineError::SerializationError(message)) => {
            assert_eq!(message, "Failed serializing msgpack push-egress final response: x");
        }
        other => panic!("unexpected {other:?}"),
    }
}

#[test]
fn payloads_are_decoded_with_their_codec() {
    let read = |codec: RequestPlanePayloadCodec, bytes: &[u8]| match codec {
        RequestPlanePayloadCodec::Json => {
            serde_json::from_slice::<u8>(bytes).map_err(|_| "eof".to_string())
        }
        RequestPlanePayloadCodec::Msgpack => {
            rmp_serde::from_slice::<u8>(bytes).map_err(|_| "eof".to_string())
        }
    };
    assert!(matches!(decode_payload(RequestPlanePayloadCodec::Json, b"7", read), Ok(7)));
    assert!(matches!(decode_payload(RequestPlanePayloadCodec::Msgpack, b"7", read), Ok(0x37)));
    for codec in CODECS {
        match decode_payload(codec, b"", read) {
            Err(PipelineError::DeserializationError(message)) => assert_eq!(
                message,
                format!("Failed deserializing {} Python request payload: eof", codec.name())
            ),
            other => panic!("unexpected {other:?}"),
        }
    }
}

#[test]
fn offloaded_work_is_settled() {
    let codec = RequestPlanePayloadCodec::Json;
    assert!(matches!(finish_offloaded_response(codec, Ok(Ok(4u8))), Ok(4)));
    let inner = PipelineError::SerializationError("inner".to_string());
    match finish_offloaded_response::<u8>(codec, Ok(Err(inner))) {
        Err(PipelineError::SerializationError(message)) => assert_eq!(message, "inner"),
        other => panic!("unexpected {other:?}"),
    }
    match finish_offloaded_response::<u8>(codec, Err("panicked".to_string())) {
        Err(PipelineError::SerializationError(message)) => {
            assert_eq!(message, "failed to offload json Python response encode: panicked");
        }
        other => panic!("unexpected {other:?}"),
    }
    assert!(matches!(finish_decode_request(codec, Ok(Ok(4u8))), Ok(4)));
    let inner = PipelineError::DeserializationError("eof".to_string());
    match finish_decode_request::<u8>(codec, Ok(Err(inner))) {
        Err(PipelineError::DeserializationError(message)) => assert_eq!(message, "eof"),
        other => panic!("unexpected {other:?}"),
    }
    match finish_decode_request::<u8>(codec, Err("panicked".to_string())) {
        Err(PipelineError::DeserializationError(message)) => {
            assert_eq!(message, "failed to offload json Python request decode: panicked");
        }
        other => panic!("unexpected {other:?}"),
    }
}

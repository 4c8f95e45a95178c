use bytes::BytesMut;
use python_payload::annotated::{Annotated, NetworkStreamWrapper};
use python_payload::codec::RequestPlanePayloadCodec;
use python_payload::python::{exact_uint, key_is, PyDict, PyValue};
use python_payload::response::encode_annotated_response;
use python_payload::token_frame::{
    has_frame_size, parse_and_write_token_frame, try_write_token_frame, write_token_frame_bytes,
};
use serde::ser::{Serialize, SerializeStruct, Serializer};

/// The payload of a token frame, with its fields in wire order.
struct TokenFramePayload {
    token_ids: Vec<u32>,
    index: u32,
}

impl Serialize for TokenFramePayload {
    fn serialize<S: Serializer>(&self, serializer: S) -> Result<S::Ok, S::Error> {
        let mut fields = serializer.serialize_struct("TokenFramePayload", 2)?;
        fields.serialize_field("token_ids", &self.token_ids)?;
        fields.serialize_field("index", &self.index)?;
        fields.end()
    }
}

/// An annotated response for a serde codec: absent fields are skipped.
struct WireAnnotated<'a, T>(&'a Annotated<T, ()>);

impl<T: Serialize> Serialize for WireAnnotated<'_, T> {
    fn serialize<S: Serializer>(&self, serializer: S) -> Result<S::Ok, S::Error> {
        let a = self.0;
        let count = a.data.is_some() as usize
            + a.id.is_some() as usize
            + a.event.is_some() as usize
            + a.comment.is_some() as usize
            + a.error.is_some() as usize;
        let mut fields = serializer.serialize_struct("Annotated", count)?;
        if let Some(data) = &a.data {
            fields.serialize_field("data", data)?;
        }
        if let Some(id) = &a.id {
            fields.serialize_field("id", id)?;
        }
        if let Some(event) = &a.event {
            fields.serialize_field("event", event)?;
        }
        if let Some(comment) = &a.comment {
            fields.serialize_field("comment", comment)?;
        }
        if let Some(error) = &a.error {
            fields.serialize_field("error", error)?;
        }
        fields.end()
    }
}

struct WireItem<'a, T>(&'a NetworkStreamWrapper<Annotated<T, ()>>);

impl<T: Serialize> Serialize for WireItem<'_, T> {
    fn serialize<S: Serializer>(&self, serializer: S) -> Result<S::Ok, S::Error> {
        let count = self.0.data.is_some() as usize + 1;
        let mut fields = serializer.serialize_struct("NetworkStreamWrapper", count)?;
        if let Some(data) = &self.0.data {
            fields.serialize_field("data", &WireAnnotated(data))?;
        }
        fields.serialize_field("complete_final", &self.0.complete_final)?;
        fields.end()
    }
}

fn msgpack_into<T: Serialize>(
    codec: RequestPlanePayloadCodec,
    item: &NetworkStreamWrapper<Annotated<T, ()>>,
    out: &mut Vec<u8>,
) -> Result<(), String> {
    assert_eq!(codec, RequestPlanePayloadCodec::Msgpack);
    rmp_serde::encode::write_named(out, &WireItem(item)).map_err(|error| error.to_string())
}

/// What the generic encoder puts on the wire for this frame.
fn generic_encoding(token_ids: &[u32], index: u32) -> Vec<u8> {
    let (bytes, is_error) = encode_annotated_response(
        RequestPlanePayloadCodec::Msgpack,
        Annotated::from_data(TokenFramePayload {
            token_ids: token_ids.to_vec(),
            index,
        }),
        msgpack_into,
    )
    .expect("generic encode must succeed");
    assert!(!is_error, "a token frame is never an error frame");
    bytes
}

/// What the token frame writer puts on the wire for this frame.
fn fast_encoding(token_ids: &[u32], index: u32) -> Vec<u8> {
    let ids: Vec<Option<u64>> = token_ids.iter().map(|id| Some(u64::from(*id))).collect();
    let mut bytes = BytesMut::new();
    write_token_frame_bytes(
        &ids,
        u32::try_from(token_ids.len()).expect("length fits u32"),
        u64::from(index),
        &mut bytes,
    )
    .expect("fast encode must succeed");
    bytes.to_vec()
}

/// Magnitudes on both sides of every boundary between encodings of unsigned integers.
const MAGNITUDES: [u32; 9] = [0, 1, 127, 128, 255, 256, 65_535, 65_536, u32::MAX];

fn assert_encodings_agree(token_ids: &[u32], index: u32) {
    assert_eq!(
        fast_encoding(token_ids, index),
        generic_encoding(token_ids, index),
        "fast and generic encodings diverged for token_ids={token_ids:?} index={index}"
    );
}

#[test]
fn token_frame_matches_generic_encoding() {
    let mut cases: Vec<Vec<u32>> = vec![
        vec![],
        vec![5],
        MAGNITUDES.to_vec(),
        (0..15).collect(),
        (0..16).collect(),
        (0..40).collect(),
    ];
    cases.extend(MAGNITUDES.map(|magnitude| vec![magnitude]));

    for token_ids in &cases {
        assert_encodings_agree(token_ids, 0);
    }
}

#[test]
fn token_frame_index_matches_generic_encoding() {
    for index in MAGNITUDES {
        assert_encodings_agree(&[5], index);
    }
}

fn field<'a>(map: &'a rmpv::Value, name: &str) -> Option<&'a rmpv::Value> {
    map.as_map()
        .expect("value is a map")
        .iter()
        .find(|(key, _)| key.as_str() == Some(name))
        .map(|(_, value)| value)
}

#[test]
fn token_frame_decodes_as_a_non_terminal_data_frame() {
    let bytes = fast_encoding(&[7, 8], 3);
    let mut input = &bytes[..];
    let wrapper = rmpv::decode::read_value(&mut input).expect("fast-path frame must decode");
    assert!(input.is_empty());

    let complete_final = field(&wrapper, "complete_final").expect("flag").as_bool();
    assert_eq!(complete_final, Some(false), "not the end-of-stream marker");
    let annotated = field(&wrapper, "data").expect("frame carries data");
    assert!(field(annotated, "error").is_none(), "a token frame carries no error");
    assert!(field(annotated, "id").is_none() && field(annotated, "event").is_none());

    let data = field(annotated, "data").expect("annotated data");
    assert_eq!(
        field(data, "token_ids")
            .expect("payload must carry token_ids")
            .as_array()
            .expect("token_ids is an array")
            .iter()
            .map(|id| id.as_u64().expect("token id is a uint"))
            .collect::<Vec<_>>(),
        vec![7, 8]
    );
    assert_eq!(field(data, "index").expect("payload must carry index").as_u64(), Some(3));
}

#[test]
fn token_frame_aborts_on_an_unconvertible_token() {
    let mut bytes = BytesMut::new();
    assert!(
        write_token_frame_bytes(&[Some(1), None, Some(3)], 3, 0, &mut bytes).is_none(),
        "an unconvertible token must abort the frame"
    );
}

#[test]
fn token_frame_rejects_a_token_count_mismatch() {
    let mut bytes = BytesMut::new();
    assert!(
        write_token_frame_bytes(&[Some(1), Some(2)], 3, 0, &mut bytes).is_none(),
        "too few tokens for the declared count must abort the frame"
    );
}

#[test]
fn too_many_tokens_for_the_count_abort_the_frame() {
    let mut bytes = BytesMut::new();
    assert!(write_token_frame_bytes(&[Some(1), Some(2)], 1, 0, &mut bytes).is_none());
}

#[test]
fn token_frame_has_exactly_these_bytes() {
    let mut bytes = BytesMut::new();
    assert!(write_token_frame_bytes(&[Some(1), Some(300)], 2, u64::MAX, &mut bytes).is_some());
    let mut expected: Vec<u8> = Vec::new();
    expected.extend_from_slice(b"\x82\xa4data\x81\xa4data\x82\xa9token_ids\x92\x01\xcd\x01\x2c");
    expected.extend_from_slice(b"\xa5index\xcf\xff\xff\xff\xff\xff\xff\xff\xff");
    expected.extend_from_slice(b"\xaecomplete_final\xc2");
    assert_eq!(bytes.to_vec(), expected);
}

#[test]
fn aborted_frame_stops_in_front_of_the_bad_token() {
    let mut bytes = BytesMut::from(&b"ab"[..]);
    assert!(write_token_frame_bytes(&[Some(1), None], 2, 0, &mut bytes).is_none());
    assert_eq!(
        bytes.to_vec(),
        b"ab\x82\xa4data\x81\xa4data\x82\xa9token_ids\x92\x01".to_vec()
    );
}

#[test]
fn every_integer_width_is_written_big_endian() {
    let cases: [(u64, &[u8]); 9] = [
        (0, &[0x00]),
        (127, &[0x7f]),
        (128, &[0xcc, 0x80]),
        (255, &[0xcc, 0xff]),
        (256, &[0xcd, 0x01, 0x00]),
        (65_535, &[0xcd, 0xff, 0xff]),
        (65_536, &[0xce, 0x00, 0x01, 0x00, 0x00]),
        (4_294_967_295, &[0xce, 0xff, 0xff, 0xff, 0xff]),
        (4_294_967_296, &[0xcf, 0, 0, 0, 1, 0, 0, 0, 0]),
    ];
    for (value, encoding) in cases {
        let mut bytes = BytesMut::new();
        assert!(write_token_frame_bytes(&[], 0, value, &mut bytes).is_some());
        let mut expected: Vec<u8> =
            b"\x82\xa4data\x81\xa4data\x82\xa9token_ids\x90\xa5index".to_vec();
        expected.extend_from_slice(encoding);
        expected.extend_from_slice(b"\xaecomplete_final\xc2");
        assert_eq!(bytes.to_vec(), expected);
    }
}

#[test]
fn every_list_header_width_is_written() {
    for (len, header) in [
        (15usize, vec![0x9fu8]),
        (16, vec![0xdc, 0x00, 0x10]),
        (65_535, vec![0xdc, 0xff, 0xff]),
        (65_536, vec![0xdd, 0x00, 0x01, 0x00, 0x00]),
    ] {
        let ids = vec![Some(1u64); len];
        let mut bytes = BytesMut::new();
        assert!(write_token_frame_bytes(&ids, len as u32, 0, &mut bytes).is_some());
        let head = b"\x82\xa4data\x81\xa4data\x82\xa9token_ids".len();
        assert_eq!(&bytes[head..head + header.len()], &header[..]);
    }
}

fn text(value: &str) -> PyValue {
    PyValue::Str { exact: true, text: Some(value.to_string()) }
}

fn py_int(value: i128) -> PyValue {
    PyValue::Int { exact: true, value: Some(value) }
}

fn token_dict(items: Vec<PyValue>, index: PyValue) -> PyDict {
    PyDict {
        entries: vec![
            (text("token_ids"), PyValue::List(items)),
            (text("index"), index),
        ],
    }
}

/// Expects `dict` to be turned away, and the buffer to be as it was.
fn assert_rejected(dict: &PyDict) {
    let mut out = BytesMut::from(&b"earlier frame"[..]);
    assert!(!try_write_token_frame(dict, &mut out));
    assert_eq!(out.to_vec(), b"earlier frame".to_vec());
}

#[test]
fn token_dict_is_written_behind_what_is_there() {
    let mut out = BytesMut::from(&b"earlier frame"[..]);
    assert!(try_write_token_frame(&token_dict(vec![py_int(7), py_int(8)], py_int(3)), &mut out));
    let mut expected = b"earlier frame".to_vec();
    expected.extend(generic_encoding(&[7, 8], 3));
    assert_eq!(out.to_vec(), expected);
}

#[test]
fn frames_follow_each_other_and_decode_in_order() {
    let mut out = BytesMut::new();
    assert!(try_write_token_frame(&token_dict(vec![py_int(7)], py_int(0)), &mut out));
    assert!(!try_write_token_frame(&token_dict(vec![py_int(1), PyValue::Nil], py_int(0)), &mut out));
    assert!(try_write_token_frame(&token_dict(vec![], py_int(1)), &mut out));
    let bytes = out.to_vec();
    let mut input = &bytes[..];
    for (tokens, index) in [(vec![7u64], 0u64), (vec![], 1)] {
        let wrapper = rmpv::decode::read_value(&mut input).expect("frame must decode");
        let data = field(field(&wrapper, "data").unwrap(), "data").unwrap();
        let ids: Vec<u64> = field(data, "token_ids")
            .unwrap()
            .as_array()
            .unwrap()
            .iter()
            .map(|id| id.as_u64().unwrap())
            .collect();
        assert_eq!(ids, tokens);
        assert_eq!(field(data, "index").unwrap().as_u64(), Some(index));
    }
    assert!(input.is_empty());
}

#[test]
fn different_frames_have_different_bytes() {
    assert_ne!(fast_encoding(&[1, 2], 0), fast_encoding(&[1], 2));
    assert_ne!(fast_encoding(&[1, 2], 0), fast_encoding(&[2, 1], 0));
    assert_ne!(fast_encoding(&[1], 0), fast_encoding(&[1], 1));
}

#[test]
fn entries_in_the_other_order_are_no_token_frame() {
    assert_rejected(&PyDict {
        entries: vec![
            (text("index"), py_int(0)),
            (text("token_ids"), PyValue::List(vec![py_int(5)])),
        ],
    });
}

#[test]
fn other_keys_are_no_token_frame() {
    let mut dict = token_dict(vec![py_int(5)], py_int(0));
    dict.entries.push((text("finish_reason"), PyValue::Nil));
    assert_rejected(&dict);
    assert_rejected(&PyDict { entries: vec![] });
    assert_rejected(&PyDict { entries: vec![(text("token_ids"), PyValue::List(vec![]))] });
    assert_rejected(&PyDict {
        entries: vec![
            (text("_dynamo_annotated"), PyValue::Bool(true)),
            (text("data"), PyValue::Nil),
        ],
    });
    assert_rejected(&PyDict {
        entries: vec![
            (
                PyValue::Str { exact: false, text: Some("token_ids".to_string()) },
                PyValue::List(vec![]),
            ),
            (text("index"), py_int(0)),
        ],
    });
}

#[test]
fn tokens_of_other_types_are_rewound() {
    for token in [
        PyValue::Bool(true),
        PyValue::Nil,
        PyValue::Other,
        text("5"),
        py_int(-1),
        py_int(18_446_744_073_709_551_616),
        PyValue::Int { exact: true, value: None },
        PyValue::Int { exact: false, value: Some(5) },
        PyValue::List(vec![]),
    ] {
        assert_rejected(&token_dict(vec![py_int(1), token], py_int(0)));
    }
    assert_rejected(&token_dict(vec![py_int(1)], PyValue::Bool(false)));
    assert_rejected(&PyDict {
        entries: vec![(text("token_ids"), text("5")), (text("index"), py_int(0))],
    });
}

#[test]
fn an_aborted_dict_leaves_part_of_a_frame() {
    let mut out = BytesMut::new();
    let dict = token_dict(vec![py_int(1), PyValue::Nil], py_int(0));
    assert!(parse_and_write_token_frame(&dict, &mut out).is_none());
    assert_eq!(
        out.to_vec(),
        b"\x82\xa4data\x81\xa4data\x82\xa9token_ids\x92\x01".to_vec()
    );
    let mut untouched = BytesMut::new();
    let other = PyDict { entries: vec![] };
    assert!(parse_and_write_token_frame(&other, &mut untouched).is_none());
    assert!(untouched.is_empty());
}

#[test]
fn exact_uint_takes_plain_unsigned_integers_only() {
    assert_eq!(exact_uint(&py_int(0)), Some(0));
    assert_eq!(exact_uint(&py_int(18_446_744_073_709_551_615)), Some(u64::MAX));
    assert_eq!(exact_uint(&py_int(18_446_744_073_709_551_616)), None);
    assert_eq!(exact_uint(&py_int(-1)), None);
    assert_eq!(exact_uint(&PyValue::Bool(true)), None);
    assert_eq!(exact_uint(&PyValue::Int { exact: false, value: Some(1) }), None);
}

#[test]
fn key_is_compares_plain_strings_only() {
    assert!(key_is(&text("index"), "index"));
    assert!(!key_is(&text("index "), "index"));
    assert!(!key_is(&PyValue::Str { exact: true, text: None }, "index"));
    assert!(!key_is(&PyValue::Str { exact: false, text: Some("index".to_string()) }, "index"));
    assert!(!key_is(&py_int(1), "index"));
}

#[test]
fn only_two_entries_can_be_a_token_frame() {
    for entries in [0usize, 1, 3, 4, usize::MAX] {
        assert!(!has_frame_size(entries));
    }
    assert!(has_frame_size(2));
}

#[test]
fn a_token_dict_is_written_as_its_encoded_response() {
    for index in MAGNITUDES {
        let dict = token_dict(vec![py_int(1), py_int(70_000)], py_int(i128::from(index)));
        let mut out = BytesMut::new();
        assert!(try_write_token_frame(&dict, &mut out));
        assert_eq!(out.to_vec(), generic_encoding(&[1, 70_000], index));
    }
}

//! From a Python worker's responses to the frames of a response stream.

use bytes::Bytes;
use vstd::prelude::*;

use crate::annotated::{Annotated, AnnotatedView, NetworkStreamWrapper};
use crate::buffer::freeze;
use crate::codec::{write_codec_message, PipelineError, RequestPlanePayloadCodec};

verus! {

/// One frame of a response stream, encoded.
#[derive(Debug)]
pub struct EncodedResponseFrame {
    pub bytes: Bytes,
    /// The frame carries an error response.
    pub is_error: bool,
    /// No further item of the stream is to be encoded.
    pub stop_stream: bool,
}

/// What an encoded frame says.
pub ghost struct FrameView {
    pub bytes: Seq<u8>,
    pub is_error: bool,
    pub stop_stream: bool,
}

impl View for EncodedResponseFrame {
    type V = FrameView;

    open spec fn view(&self) -> FrameView {
        FrameView {
            bytes: crate::buffer::shared_bytes(self.bytes),
            is_error: self.is_error,
            stop_stream: self.stop_stream,
        }
    }
}

/// The stream item of a response: it carries the response, and more items follow.
pub open spec fn response_item<T, E>(annotated: Annotated<T, E>) -> NetworkStreamWrapper<
    Annotated<T, E>,
> {
    NetworkStreamWrapper { data: Some(annotated), complete_final: false }
}

/// Writes `annotated` into `writer`, as an item that more items follow, and tells whether it is an
/// error response. `encode_into` is the encoder of the payload codecs: what it leaves in `writer` stays
/// there, and its failure is passed on.
pub fn write_annotated_response<T, E, W, F>(
    codec: RequestPlanePayloadCodec,
    annotated: Annotated<T, E>,
    writer: &mut W,
    encode_into: F,
) -> (res: Result<bool, String>) where
    F: FnOnce(
        RequestPlanePayloadCodec,
        &NetworkStreamWrapper<Annotated<T, E>>,
        &mut W,
    ) -> Result<(), String>,

    requires
        forall|target: &mut W|
            call_requires(encode_into, (codec, &response_item(annotated), target)),
    ensures
        exists|target: &mut W, outcome: Result<(), String>|
            {
                &&& #[trigger] call_ensures(
                    encode_into,
                    (codec, &response_item(annotated), target),
                    outcome,
                )
                &&& *target == *old(writer)
                &&& *final(target) == *final(writer)
                &&& res == match outcome {
                    Ok(_) => Ok::<bool, String>(annotated@.is_error()),
                    Err(cause) => Err(cause),
                }
            },
{
    let is_error: bool = annotated.is_error();
    let item = NetworkStreamWrapper { data: Some(annotated), complete_final: false };
    match encode_into(codec, &item, writer) {
        Ok(_) => Ok(is_error),
        Err(cause) => Err(cause),
    }
}

/// The bytes of `annotated` as an item that more items follow, and whether it is an error
/// response. `encode_into` is the encoder of the payload codecs, and writes to an empty buffer.
pub fn encode_annotated_response<T, E, F>(
    codec: RequestPlanePayloadCodec,
    annotated: Annotated<T, E>,
    encode_into: F,
) -> (res: Result<(Vec<u8>, bool), String>) where
    F: FnOnce(
        RequestPlanePayloadCodec,
        &NetworkStreamWrapper<Annotated<T, E>>,
        &mut Vec<u8>,
    ) -> Result<(), String>,

    requires
        forall|target: &mut Vec<u8>|
            call_requires(encode_into, (codec, &response_item(annotated), target)),
    ensures
        exists|target: &mut Vec<u8>, outcome: Result<(), String>|
            {
                &&& #[trigger] call_ensures(
                    encode_into,
                    (codec, &response_item(annotated), target),
                    outcome,
                )
                &&& (*target)@ == Seq::<u8>::empty()
                &&& res == match outcome {
                    Ok(_) => Ok::<(Vec<u8>, bool), String>(
                        (*final(target), annotated@.is_error()),
                    ),
                    Err(cause) => Err(cause),
                }
            },
{
    let mut bytes: Vec<u8> = Vec::new();
    match write_annotated_response(codec, annotated, &mut bytes, encode_into) {
        Ok(is_error) => Ok((bytes, is_error)),
        Err(cause) => Err(cause),
    }
}

/// One raw item of a Python generator: the object that it yielded, or what it raised.
pub struct PythonResponseItem<I, X>(pub Result<I, X>);

impl<I, X> PythonResponseItem<I, X> {
    /// Takes what a generator gave.
    pub fn new(item: Result<I, X>) -> (res: Self)
        ensures
            res.0 == item,
    {
        PythonResponseItem(item)
    }

    /// Hands back what the generator gave.
    pub fn into_result(self) -> (res: Result<I, X>)
        ensures
            res == self.0,
    {
        self.0
    }

    /// What a log shows of the item: which of the two it is, and nothing of what it holds.
    pub fn debug_text(&self) -> (res: &'static str)
        ensures
            res@ == if self.0 is Ok {
                "PythonResponseItem::Data(<PyAny>)"@
            } else {
                "PythonResponseItem::Error(<PyErr>)"@
            },
    {
        match &self.0 {
            Ok(_) => "PythonResponseItem::Data(<PyAny>)",
            Err(_) => "PythonResponseItem::Error(<PyErr>)",
        }
    }
}

/// Whether reading a generator's item may give `read`: an object is read as a response by `parse`,
/// and what the generator raised is turned into a structured error by `map_exception`.
pub open spec fn item_interpreted<I, X, T, E, P, M>(
    item: PythonResponseItem<I, X>,
    parse: P,
    map_exception: M,
    read: Result<Result<Annotated<T, E>, String>, E>,
) -> bool where P: FnOnce(I) -> Result<Annotated<T, E>, String>, M: FnOnce(X) -> E {
    match item.0 {
        Ok(object) => exists|parsed: Result<Annotated<T, E>, String>| #[trigger]
            call_ensures(parse, (object,), parsed) && read == Ok::<_, E>(parsed),
        Err(raised) => exists|error: E| #[trigger]
            call_ensures(map_exception, (raised,), error) && read == Err::<
                Result<Annotated<T, E>, String>,
                E,
            >(error),
    }
}

/// What a response object is reported as where it cannot be read.
pub open spec fn invalid_object_message(cause: Seq<char>) -> Seq<char> {
    "critical error: invalid response object from Python async generator; application-logic-mismatch: "@
        + cause
}

/// What a response is reported as where it cannot be encoded.
pub open spec fn unencodable_message(
    codec: RequestPlanePayloadCodec,
    cause: Seq<char>,
) -> Seq<char> {
    crate::codec::codec_message(
        "critical error: failed serializing Python response as "@,
        codec,
        ": "@,
        cause,
    )
}

/// The response to send for what became of a generator's item, and whether the stream stops with
/// it: the object was read as a response, or could not be read, or the generator raised.
pub open spec fn interpreted<T, E>(response: Result<Result<Annotated<T, E>, String>, E>) -> (
    AnnotatedView<T, E>,
    bool,
) {
    match response {
        Ok(Ok(annotated)) => (annotated@, false),
        Ok(Err(cause)) => (
            AnnotatedView::of_message(invalid_object_message(cause@)),
            true,
        ),
        Err(error) => (AnnotatedView::of_error(error), true),
    }
}

/// The response to send for what became of a generator's item, and whether the stream stops with
/// it.
pub fn interpret_response<T, E>(response: Result<Result<Annotated<T, E>, String>, E>) -> (res: (
    Annotated<T, E>,
    bool,
))
    ensures
        (res.0@, res.1) == interpreted(response),
        response matches Ok(Ok(annotated)) ==> res.0 == annotated,
{
    match response {
        Ok(Ok(annotated)) => (annotated, false),
        Ok(Err(cause)) => {
            let mut message: String =
                "critical error: invalid response object from Python async generator; application-logic-mismatch: ".to_owned();
            message.append(cause.as_str());
            (Annotated::from_error(message), true)
        },
        Err(error) => (Annotated::from_err(error), true),
    }
}

/// The response to send in place of one that could not be encoded.
pub fn fallback_response<T, E>(codec: RequestPlanePayloadCodec, cause: &str) -> (res: Annotated<
    T,
    E,
>)
    ensures
        res@ == AnnotatedView::<T, E>::of_message(unencodable_message(codec, cause@)),
{
    Annotated::from_error(
        write_codec_message(
            "critical error: failed serializing Python response as ",
            codec,
            ": ",
            cause,
        ),
    )
}

/// Settles the encoding of a fallback response: its frame stops the stream. Where even that could
/// not be encoded there is no frame.
pub fn finish_fallback(codec: RequestPlanePayloadCodec, encoded: Result<Vec<u8>, String>) -> (res:
    Result<EncodedResponseFrame, PipelineError>)
    ensures
        match encoded {
            Ok(bytes) => res is Ok && res->Ok_0@ == (FrameView {
                bytes: bytes@,
                is_error: true,
                stop_stream: true,
            }),
            Err(cause) => res is Err && crate::codec::is_serialization_error(
                res->Err_0,
                crate::codec::codec_message(
                    "failed to serialize Python response and fallback error as "@,
                    codec,
                    ": "@,
                    cause@,
                ),
            ),
        },
{
    match encoded {
        Ok(bytes) => Ok(
            EncodedResponseFrame { bytes: freeze(bytes), is_error: true, stop_stream: true },
        ),
        Err(cause) => Err(
            PipelineError::SerializationError(
                write_codec_message(
                    "failed to serialize Python response and fallback error as ",
                    codec,
                    ": ",
                    cause.as_str(),
                ),
            ),
        ),
    }
}

/// The frame of one item of a Python generator.
///
/// `parse` reads an object as a response, and `map_exception` turns what the generator raised into a
/// structured error. An object that is no response, and an exception, become an error response that
/// stops the stream.
/// A response that `encode_into`, the encoder of the payload codecs, cannot encode is replaced by an
/// error response that says so, and that stops the stream too.
pub fn encode_python_response<I, X, T, E, P, M, F>(
    codec: RequestPlanePayloadCodec,
    response: PythonResponseItem<I, X>,
    parse: P,
    map_exception: M,
    encode_into: F,
) -> (res: Result<EncodedResponseFrame, PipelineError>) where
    P: FnOnce(I) -> Result<Annotated<T, E>, String>,
    M: FnOnce(X) -> E,
    F: Fn(
        RequestPlanePayloadCodec,
        &NetworkStreamWrapper<Annotated<T, E>>,
        &mut Vec<u8>,
    ) -> Result<(), String> + Copy,

    requires
        response.0 matches Ok(object) ==> call_requires(parse, (object,)),
        response.0 matches Err(raised) ==> call_requires(map_exception, (raised,)),
        forall|annotated: Annotated<T, E>, target: &mut Vec<u8>|
            call_requires(encode_into, (codec, &response_item(annotated), target)),
    ensures
        exists|
            read: Result<Result<Annotated<T, E>, String>, E>,
            sent: Annotated<T, E>,
            target: &mut Vec<u8>,
            outcome: Result<(), String>,
        |
            {
                &&& #[trigger] item_interpreted(response, parse, map_exception, read)
                &&& #[trigger] call_ensures(
                    encode_into,
                    (codec, &response_item(sent), target),
                    outcome,
                )
                &&& sent@ == interpreted(read).0
                &&& read matches Ok(Ok(annotated)) ==> sent == annotated
                &&& (*target)@ == Seq::<u8>::empty()
                &&& match outcome {
                    Ok(_) => res is Ok && res->Ok_0@ == (FrameView {
                        bytes: (*final(target))@,
                        is_error: sent@.is_error(),
                        stop_stream: interpreted(read).1,
                    }),
                    Err(cause) => exists|
                        replacement: Annotated<T, E>,
                        buffer: &mut Vec<u8>,
                        result: Result<(), String>,
                    |
                        {
                            &&& #[trigger] call_ensures(
                                encode_into,
                                (codec, &response_item(replacement), buffer),
                                result,
                            )
                            &&& replacement@ == AnnotatedView::<T, E>::of_message(
                                unencodable_message(codec, cause@),
                            )
                            &&& (*buffer)@ == Seq::<u8>::empty()
                            &&& match result {
                                Ok(_) => res is Ok && res->Ok_0@ == (FrameView {
                                    bytes: (*final(buffer))@,
                                    is_error: true,
                                    stop_stream: true,
                                }),
                                Err(reason) => res is Err && crate::codec::is_serialization_error(
                                    res->Err_0,
                                    crate::codec::codec_message(
                                        "failed to serialize Python response and fallback error as "@,
                                        codec,
                                        ": "@,
                                        reason@,
                                    ),
                                ),
                            }
                        },
                }
            },
        res matches Ok(frame) && frame@.stop_stream ==> res->Ok_0@.is_error,
{
    let read: Result<Result<Annotated<T, E>, String>, E> = match response.into_result() {
        Ok(object) => Ok(parse(object)),
        Err(raised) => Err(map_exception(raised)),
    };
    assert(item_interpreted(response, parse, map_exception, read));
    let (annotated, stop_stream) = interpret_response(read);
    match encode_annotated_response(codec, annotated, encode_into) {
        Ok((bytes, is_error)) => Ok(
            EncodedResponseFrame { bytes: freeze(bytes), is_error, stop_stream },
        ),
        Err(cause) => {
            let replacement: Annotated<T, E> = fallback_response(codec, cause.as_str());
            match encode_annotated_response(codec, replacement, encode_into) {
                Ok((bytes, _)) => finish_fallback(codec, Ok(bytes)),
                Err(reason) => finish_fallback(codec, Err(reason)),
            }
        },
    }
}

/// Writing a response into a buffer keeps what is there, and puts behind it exactly the bytes that
/// encoding the response gives, with the same error flag.
///
/// This holds of every encoder that appends `encoding` to what a buffer holds where it succeeds on
/// this response, and that only appends where it fails. `written` and `encoded` are what
/// [`write_annotated_response`] and [`encode_annotated_response`] returned, and the buffer held
/// `before` and then `after`.
pub proof fn law_writing_appends_what_encoding_gives<T, E, F>(
    codec: RequestPlanePayloadCodec,
    annotated: Annotated<T, E>,
    encode_into: F,
    encoding: Seq<u8>,
    before: Vec<u8>,
    after: Vec<u8>,
    written: Result<bool, String>,
    encoded: Result<(Vec<u8>, bool), String>,
) where F: FnOnce(
        RequestPlanePayloadCodec,
        &NetworkStreamWrapper<Annotated<T, E>>,
        &mut Vec<u8>,
    ) -> Result<(), String>
    requires
        forall|target: &mut Vec<u8>, outcome: Result<(), String>| #[trigger]
            call_ensures(encode_into, (codec, &response_item(annotated), target), outcome) ==> {
                &&& (*target)@.is_prefix_of((*final(target))@)
                &&& outcome is Ok ==> (*final(target))@ == (*target)@ + encoding
            },
        exists|target: &mut Vec<u8>, outcome: Result<(), String>|
            {
                &&& #[trigger] call_ensures(
                    encode_into,
                    (codec, &response_item(annotated), target),
                    outcome,
                )
                &&& *target == before
                &&& *final(target) == after
                &&& written == match outcome {
                    Ok(_) => Ok::<bool, String>(annotated@.is_error()),
                    Err(cause) => Err(cause),
                }
            },
        exists|target: &mut Vec<u8>, outcome: Result<(), String>|
            {
                &&& #[trigger] call_ensures(
                    encode_into,
                    (codec, &response_item(annotated), target),
                    outcome,
                )
                &&& (*target)@ == Seq::<u8>::empty()
                &&& encoded == match outcome {
                    Ok(_) => Ok::<(Vec<u8>, bool), String>(
                        (*final(target), annotated@.is_error()),
                    ),
                    Err(cause) => Err(cause),
                }
            },
    ensures
        written is Ok && encoded is Ok ==> {
            &&& after@ == before@ + encoded->Ok_0.0@
            &&& written->Ok_0 == encoded->Ok_0.1
        },
        before@.is_prefix_of(after@),
{
    assert(Seq::<u8>::empty() + encoding =~= encoding);
}

/// Writing a response into a buffer and encoding it cannot disagree: either both succeed or both
/// fail.
///
/// This holds of every encoder whose success on this response, `succeeds`, does not depend on what
/// the buffer holds. `written` and `encoded` are what [`write_annotated_response`] and
/// [`encode_annotated_response`] returned, and the buffer held `before` and then `after`.
pub proof fn law_writing_succeeds_where_encoding_does<T, E, F>(
    codec: RequestPlanePayloadCodec,
    annotated: Annotated<T, E>,
    encode_into: F,
    succeeds: bool,
    before: Vec<u8>,
    after: Vec<u8>,
    written: Result<bool, String>,
    encoded: Result<(Vec<u8>, bool), String>,
) where F: FnOnce(
        RequestPlanePayloadCodec,
        &NetworkStreamWrapper<Annotated<T, E>>,
        &mut Vec<u8>,
    ) -> Result<(), String>
    requires
        forall|target: &mut Vec<u8>, outcome: Result<(), String>| #[trigger]
            call_ensures(encode_into, (codec, &response_item(annotated), target), outcome) ==> (
            outcome is Ok <==> succeeds),
        exists|target: &mut Vec<u8>, outcome: Result<(), String>|
            {
                &&& #[trigger] call_ensures(
                    encode_into,
                    (codec, &response_item(annotated), target),
                    outcome,
                )
                &&& *target == before
                &&& *final(target) == after
                &&& written == match outcome {
                    Ok(_) => Ok::<bool, String>(annotated@.is_error()),
                    Err(cause) => Err(cause),
                }
            },
        exists|target: &mut Vec<u8>, outcome: Result<(), String>|
            {
                &&& #[trigger] call_ensures(
                    encode_into,
                    (codec, &response_item(annotated), target),
                    outcome,
                )
                &&& (*target)@ == Seq::<u8>::empty()
                &&& encoded == match outcome {
                    Ok(_) => Ok::<(Vec<u8>, bool), String>(
                        (*final(target), annotated@.is_error()),
                    ),
                    Err(cause) => Err(cause),
                }
            },
    ensures
        written is Ok <==> encoded is Ok,
        written is Ok ==> written->Ok_0 == encoded->Ok_0.1,
{
}

/// A stream stops with every item that is not a response, and with no other; what is sent where it
/// stops is always an error response.
pub proof fn law_stopped_streams_end_with_an_error<T, E>(
    response: Result<Result<Annotated<T, E>, String>, E>,
)
    ensures
        interpreted(response).1 <==> !(response matches Ok(Ok(_))),
        interpreted(response).1 ==> interpreted(response).0.is_error(),
{
}

/// Writing a response hands one item to the encoder, with this codec and this buffer: an item that
/// carries that very response, every field of it, and that never ends the stream. What the encoder
/// leaves in the buffer stays there, its failure is passed on, and where it succeeds the response is
/// flagged as an error exactly where its event is the text `error`.
pub proof fn law_written_items_carry_the_response<T, E, W, F>(
    codec: RequestPlanePayloadCodec,
    annotated: Annotated<T, E>,
    encode_into: F,
) where
    F: FnOnce(
        RequestPlanePayloadCodec,
        &NetworkStreamWrapper<Annotated<T, E>>,
        &mut W,
    ) -> Result<(), String>,

    ensures
        forall|writer: &mut W, res: Result<bool, String>| #[trigger]
            call_ensures(
                write_annotated_response::<T, E, W, F>,
                (codec, annotated, writer, encode_into),
                res,
            ) ==> exists|
                item: NetworkStreamWrapper<Annotated<T, E>>,
                target: &mut W,
                outcome: Result<(), String>,
            |
                {
                    &&& #[trigger] call_ensures(encode_into, (codec, &item, target), outcome)
                    &&& item.data == Some(annotated)
                    &&& !item.complete_final
                    &&& *target == *writer
                    &&& *final(target) == *final(writer)
                    &&& outcome matches Err(cause) ==> res == Err::<bool, String>(cause)
                    &&& outcome is Ok ==> (res matches Ok(flag) && (flag <==> (
                    annotated.event matches Some(event) && event@ == "error"@)))
                },
{
}

/// Encoding a response hands one item to the encoder, with this codec and an empty buffer: an item
/// that carries that very response, every field of it, and that never ends the stream. The bytes are
/// what the encoder left in the buffer, its failure is passed on, and the response is flagged as an
/// error exactly where its event is the text `error`.
pub proof fn law_encoded_items_carry_the_response<T, E, F>(
    codec: RequestPlanePayloadCodec,
    annotated: Annotated<T, E>,
    encode_into: F,
    res: Result<(Vec<u8>, bool), String>,
) where
    F: FnOnce(
        RequestPlanePayloadCodec,
        &NetworkStreamWrapper<Annotated<T, E>>,
        &mut Vec<u8>,
    ) -> Result<(), String>,

    requires
        call_ensures(encode_annotated_response::<T, E, F>, (codec, annotated, encode_into), res),
    ensures
        exists|
            item: NetworkStreamWrapper<Annotated<T, E>>,
            target: &mut Vec<u8>,
            outcome: Result<(), String>,
        |
            {
                &&& #[trigger] call_ensures(encode_into, (codec, &item, target), outcome)
                &&& item.data == Some(annotated)
                &&& !item.complete_final
                &&& (*target)@.len() == 0
                &&& outcome matches Err(cause) ==> res == Err::<(Vec<u8>, bool), String>(cause)
                &&& outcome is Ok ==> (res matches Ok((bytes, flag)) && bytes == *final(target) && (
                flag <==> (annotated.event matches Some(event) && event@ == "error"@)))
            },
{
}

/// Two responses with the same event, encoded in whatever way, are flagged alike.
pub proof fn law_error_flags_go_by_the_event<T, E, F, U, D, G>(
    codec: RequestPlanePayloadCodec,
    annotated: Annotated<T, E>,
    encode_into: F,
    res: Result<(Vec<u8>, bool), String>,
    other_codec: RequestPlanePayloadCodec,
    other: Annotated<U, D>,
    other_encode_into: G,
    other_res: Result<(Vec<u8>, bool), String>,
) where
    F: FnOnce(
        RequestPlanePayloadCodec,
        &NetworkStreamWrapper<Annotated<T, E>>,
        &mut Vec<u8>,
    ) -> Result<(), String>,
    G: FnOnce(
        RequestPlanePayloadCodec,
        &NetworkStreamWrapper<Annotated<U, D>>,
        &mut Vec<u8>,
    ) -> Result<(), String>,

    requires
        annotated.event == other.event,
        call_ensures(encode_annotated_response::<T, E, F>, (codec, annotated, encode_into), res),
        call_ensures(
            encode_annotated_response::<U, D, G>,
            (other_codec, other, other_encode_into),
            other_res,
        ),
        res is Ok,
        other_res is Ok,
    ensures
        res->Ok_0.1 == other_res->Ok_0.1,
{
}

/// A generator's item is handed back as it was taken.
pub proof fn law_items_are_handed_back<I, X>(
    item: Result<I, X>,
    taken: PythonResponseItem<I, X>,
    back: Result<I, X>,
)
    requires
        call_ensures(PythonResponseItem::<I, X>::new, (item,), taken),
        call_ensures(PythonResponseItem::<I, X>::into_result, (taken,), back),
    ensures
        back == item,
{
}

/// A log tells an object from an exception, and two items of a kind apart by nothing.
pub proof fn law_logs_show_the_kind_alone<I, X>(
    taken: PythonResponseItem<I, X>,
    shown: &'static str,
)
    requires
        call_ensures(PythonResponseItem::<I, X>::debug_text, (&taken,), shown),
    ensures
        taken.0 is Ok ==> shown@ == "PythonResponseItem::Data(<PyAny>)"@,
        taken.0 is Err ==> shown@ == "PythonResponseItem::Error(<PyErr>)"@,
{
}

/// A response that was read is the response that is sent, every field of it unchanged, and the
/// stream goes on.
pub proof fn law_read_responses_are_sent_unchanged<T, E>(
    annotated: Annotated<T, E>,
    sent: Annotated<T, E>,
    stop_stream: bool,
)
    requires
        call_ensures(interpret_response::<T, E>, (Ok(Ok(annotated)),), (sent, stop_stream)),
    ensures
        sent.data == annotated.data,
        sent.id == annotated.id,
        sent.event == annotated.event,
        sent.comment == annotated.comment,
        sent.error == annotated.error,
        !stop_stream,
        interpreted(Ok::<_, E>(Ok::<_, String>(annotated))) == (annotated@, false),
{
}

/// An object that could not be read is reported by one comment that ends with the cause, under the
/// event `error`, and stops the stream.
pub proof fn law_unreadable_objects_are_reported<T, E>(
    cause: String,
    sent: Annotated<T, E>,
    stop_stream: bool,
)
    requires
        call_ensures(interpret_response::<T, E>, (Ok(Err(cause)),), (sent, stop_stream)),
    ensures
        sent.event matches Some(event) && event@ == "error"@,
        sent.comment matches Some(comment) && comment@.len() == 1 && comment@[0]@
            == "critical error: invalid response object from Python async generator; application-logic-mismatch: "@
            + cause@,
        sent.data is None,
        sent.id is None,
        sent.error is None,
        stop_stream,
{
    crate::annotated::lemma_message_fields(sent, invalid_object_message(cause@));
}

/// An exception is sent as the structured error that it is, under the event `error`, and stops the
/// stream.
pub proof fn law_exceptions_are_sent_as_errors<T, E>(
    error: E,
    sent: Annotated<T, E>,
    stop_stream: bool,
)
    requires
        call_ensures(interpret_response::<T, E>, (Err(error),), (sent, stop_stream)),
    ensures
        sent.event matches Some(event) && event@ == "error"@,
        sent.error == Some(error),
        sent.data is None,
        sent.id is None,
        sent.comment is None,
        stop_stream,
{
    crate::annotated::lemma_error_fields(sent, error);
}

/// What is sent in place of a response that could not be encoded has one comment, which names the
/// codec and ends with the cause, under the event `error`.
pub proof fn law_fallbacks_name_codec_and_cause<T, E>(
    codec: RequestPlanePayloadCodec,
    cause: &str,
    sent: Annotated<T, E>,
)
    requires
        call_ensures(fallback_response::<T, E>, (codec, cause), sent),
    ensures
        sent.event matches Some(event) && event@ == "error"@,
        sent.comment matches Some(comment) && comment@.len() == 1 && comment@[0]@
            == "critical error: failed serializing Python response as "@ + (if codec is Json {
                "json"@
            } else {
                "msgpack"@
            }) + ": "@ + cause@,
        sent.data is None,
        sent.id is None,
        sent.error is None,
{
    crate::annotated::lemma_message_fields(sent, unencodable_message(codec, cause@));
}

/// A fallback that was encoded becomes a frame of these bytes that is an error and stops the stream;
/// one that was not becomes a serialization error that names the codec and ends with the cause.
pub proof fn law_fallback_frames(
    codec: RequestPlanePayloadCodec,
    encoded: Result<Vec<u8>, String>,
    res: Result<EncodedResponseFrame, PipelineError>,
)
    requires
        call_ensures(finish_fallback, (codec, encoded), res),
    ensures
        encoded matches Ok(bytes) ==> (res matches Ok(frame) && frame.is_error && frame.stop_stream
            && crate::buffer::shared_bytes(frame.bytes) == bytes@),
        encoded matches Err(cause) ==> (res matches Err(PipelineError::SerializationError(text))
            && text@ == "failed to serialize Python response and fallback error as "@ + (if codec is Json {
            "json"@
        } else {
            "msgpack"@
        }) + ": "@ + cause@),
{
}

/// The frame of an object that a generator yielded.
///
/// `parse` is asked about that object. One item goes to the encoder, with this codec and an empty
/// buffer, and it does not end the stream. Where the object was read, the item carries the very
/// response that it was read as, every field of it, the frame is an error exactly where the event is
/// the text `error`, and the stream goes on. Where it was not, the item carries one comment that ends
/// with the cause, the frame is an error, and the stream stops. The frame's bytes are what the
/// encoder wrote. Where it failed, one more item goes to it, whose comment says so, and its bytes are
/// an error frame that stops the stream; where that fails too there is no frame.
pub proof fn law_frames_of_objects<I, X, T, E, P, M, F>(
    codec: RequestPlanePayloadCodec,
    object: I,
    response: PythonResponseItem<I, X>,
    parse: P,
    map_exception: M,
    encode_into: F,
    res: Result<EncodedResponseFrame, PipelineError>,
) where
    P: FnOnce(I) -> Result<Annotated<T, E>, String>,
    M: FnOnce(X) -> E,
    F: Fn(
        RequestPlanePayloadCodec,
        &NetworkStreamWrapper<Annotated<T, E>>,
        &mut Vec<u8>,
    ) -> Result<(), String> + Copy,

    requires
        response.0 == Ok::<I, X>(object),
        call_ensures(
            encode_python_response::<I, X, T, E, P, M, F>,
            (codec, response, parse, map_exception, encode_into),
            res,
        ),
    ensures
        exists|
            parsed: Result<Annotated<T, E>, String>,
            item: NetworkStreamWrapper<Annotated<T, E>>,
            target: &mut Vec<u8>,
            outcome: Result<(), String>,
        |
            {
                &&& #[trigger] call_ensures(parse, (object,), parsed)
                &&& #[trigger] call_ensures(encode_into, (codec, &item, target), outcome)
                &&& !item.complete_final
                &&& parsed matches Ok(annotated) ==> item.data == Some(annotated)
                &&& parsed matches Err(cause) ==> (item.data matches Some(sent) && sent.data is None
                    && sent.id is None && sent.error is None && (sent.event matches Some(event)
                    && event@ == "error"@) && (sent.comment matches Some(comment) && comment@.len()
                    == 1 && comment@[0]@
                    == "critical error: invalid response object from Python async generator; application-logic-mismatch: "@
                    + cause@))
                &&& (*target)@.len() == 0
                &&& outcome is Ok ==> (res matches Ok(frame) && crate::buffer::shared_bytes(
                    frame.bytes,
                ) == (*final(target))@ && match parsed {
                    Ok(annotated) => !frame.stop_stream && (frame.is_error <==> (
                    annotated.event matches Some(event) && event@ == "error"@)),
                    Err(_) => frame.stop_stream && frame.is_error,
                })
                &&& outcome matches Err(cause) ==> exists|
                    second: NetworkStreamWrapper<Annotated<T, E>>,
                    buffer: &mut Vec<u8>,
                    result: Result<(), String>,
                |
                    {
                        &&& #[trigger] call_ensures(encode_into, (codec, &second, buffer), result)
                        &&& !second.complete_final
                        &&& second.data matches Some(sent) && sent.data is None && sent.id is None
                            && sent.error is None && (sent.event matches Some(event) && event@
                            == "error"@) && (sent.comment matches Some(comment) && comment@.len() == 1
                            && comment@[0]@
                            == "critical error: failed serializing Python response as "@ + (if codec is Json {
                            "json"@
                        } else {
                            "msgpack"@
                        }) + ": "@ + cause@)
                        &&& (*buffer)@.len() == 0
                        &&& result is Ok ==> (res matches Ok(frame) && frame.is_error && frame.stop_stream
                            && crate::buffer::shared_bytes(frame.bytes) == (*final(buffer))@)
                        &&& result matches Err(reason) ==> (res matches Err(
                            PipelineError::SerializationError(text),
                        ) && text@ == "failed to serialize Python response and fallback error as "@ + (
                        if codec is Json {
                            "json"@
                        } else {
                            "msgpack"@
                        }) + ": "@ + reason@)
                    }
            },
{
    lemma_sent_fields::<T, E>();
}

/// The frame of an exception that a generator raised.
///
/// `map_exception` is asked about that exception. One item goes to the encoder, with this codec and
/// an empty buffer, and it does not end the stream: it carries the structured error under the event
/// `error`, and nothing else. The frame is an error that stops the stream, and its bytes are what the
/// encoder wrote. Where the encoder failed, one more item goes to it, as for an object.
pub proof fn law_frames_of_exceptions<I, X, T, E, P, M, F>(
    codec: RequestPlanePayloadCodec,
    raised: X,
    response: PythonResponseItem<I, X>,
    parse: P,
    map_exception: M,
    encode_into: F,
    res: Result<EncodedResponseFrame, PipelineError>,
) where
    P: FnOnce(I) -> Result<Annotated<T, E>, String>,
    M: FnOnce(X) -> E,
    F: Fn(
        RequestPlanePayloadCodec,
        &NetworkStreamWrapper<Annotated<T, E>>,
        &mut Vec<u8>,
    ) -> Result<(), String> + Copy,

    requires
        response.0 == Err::<I, X>(raised),
        call_ensures(
            encode_python_response::<I, X, T, E, P, M, F>,
            (codec, response, parse, map_exception, encode_into),
            res,
        ),
    ensures
        exists|
            error: E,
            item: NetworkStreamWrapper<Annotated<T, E>>,
            target: &mut Vec<u8>,
            outcome: Result<(), String>,
        |
            {
                &&& #[trigger] call_ensures(map_exception, (raised,), error)
                &&& #[trigger] call_ensures(encode_into, (codec, &item, target), outcome)
                &&& !item.complete_final
                &&& item.data matches Some(sent) && sent.error == Some(error) && sent.data is None
                    && sent.id is None && sent.comment is None && (sent.event matches Some(event)
                    && event@ == "error"@)
                &&& (*target)@.len() == 0
                &&& outcome is Ok ==> (res matches Ok(frame) && frame.is_error && frame.stop_stream
                    && crate::buffer::shared_bytes(frame.bytes) == (*final(target))@)
                &&& outcome matches Err(cause) ==> exists|
                    second: NetworkStreamWrapper<Annotated<T, E>>,
                    buffer: &mut Vec<u8>,
                    result: Result<(), String>,
                |
                    {
                        &&& #[trigger] call_ensures(encode_into, (codec, &second, buffer), result)
                        &&& !second.complete_final
                        &&& second.data matches Some(sent) && sent.data is None && sent.id is None
                            && sent.error is None && (sent.event matches Some(event) && event@
                            == "error"@) && (sent.comment matches Some(comment) && comment@.len() == 1
                            && comment@[0]@
                            == "critical error: failed serializing Python response as "@ + (if codec is Json {
                            "json"@
                        } else {
                            "msgpack"@
                        }) + ": "@ + cause@)
                        &&& (*buffer)@.len() == 0
                        &&& result is Ok ==> (res matches Ok(frame) && frame.is_error && frame.stop_stream
                            && crate::buffer::shared_bytes(frame.bytes) == (*final(buffer))@)
                        &&& result matches Err(reason) ==> (res matches Err(
                            PipelineError::SerializationError(text),
                        ) && text@ == "failed to serialize Python response and fallback error as "@ + (
                        if codec is Json {
                            "json"@
                        } else {
                            "msgpack"@
                        }) + ": "@ + reason@)
                    }
            },
{
    lemma_sent_fields::<T, E>();
}

/// The fields of the responses that are sent, read off what they say.
proof fn lemma_sent_fields<T, E>()
    ensures
        forall|sent: Annotated<T, E>, message: Seq<char>|
            #![trigger sent.view(), AnnotatedView::<T, E>::of_message(message)]
            sent@ == AnnotatedView::<T, E>::of_message(message) ==> {
                &&& sent.event matches Some(event) && event@ == "error"@
                &&& sent.comment matches Some(comment) && comment@.len() == 1 && comment@[0]@
                    == message
                &&& sent.data is None
                &&& sent.id is None
                &&& sent.error is None
            },
        forall|sent: Annotated<T, E>, error: E|
            #![trigger sent.view(), AnnotatedView::<T, E>::of_error(error)]
            sent@ == AnnotatedView::<T, E>::of_error(error) ==> {
                &&& sent.event matches Some(event) && event@ == "error"@
                &&& sent.error == Some(error)
                &&& sent.data is None
                &&& sent.id is None
                &&& sent.comment is None
            },
{
    assert forall|sent: Annotated<T, E>, message: Seq<char>|
        #![trigger sent.view(), AnnotatedView::<T, E>::of_message(message)]
        sent@ == AnnotatedView::<T, E>::of_message(message) implies {
        &&& sent.event matches Some(event) && event@ == "error"@
        &&& sent.comment matches Some(comment) && comment@.len() == 1 && comment@[0]@ == message
        &&& sent.data is None
        &&& sent.id is None
        &&& sent.error is None
    } by {
        crate::annotated::lemma_message_fields(sent, message);
    }
    assert forall|sent: Annotated<T, E>, error: E|
        #![trigger sent.view(), AnnotatedView::<T, E>::of_error(error)]
        sent@ == AnnotatedView::<T, E>::of_error(error) implies {
        &&& sent.event matches Some(event) && event@ == "error"@
        &&& sent.error == Some(error)
        &&& sent.data is None
        &&& sent.id is None
        &&& sent.comment is None
    } by {
        crate::annotated::lemma_error_fields(sent, error);
    }
}

} // verus!

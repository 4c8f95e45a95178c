//! What to do for each call of a response encoder, and how to settle it.

use vstd::prelude::*;

use crate::annotated::NetworkStreamWrapper;
use crate::buffer::freeze;
use crate::codec::{write_codec_message, PipelineError, RequestPlanePayloadCodec};
use crate::response::{EncodedResponseFrame, FrameView};

verus! {

/// Which way responses leave the worker.
#[derive(Clone, Copy, Debug, PartialEq, Eq, Structural)]
pub enum Egress {
    /// The request plane pulls items from a Python generator and encodes them.
    Pull,
    /// The worker encodes its responses and pushes the frames.
    Push,
}

impl Egress {
    /// The message for an item that is missing though the stream has not ended.
    pub open spec fn missing_item_message(self) -> Seq<char> {
        match self {
            Egress::Pull => "request-plane response item missing before final frame"@,
            Egress::Push => "push-egress response item missing before final frame"@,
        }
    }

    /// The message for a final frame that could not be encoded.
    pub open spec fn final_frame_message(
        self,
        codec: RequestPlanePayloadCodec,
        cause: Seq<char>,
    ) -> Seq<char> {
        crate::codec::codec_message(
            "Failed serializing "@,
            codec,
            match self {
                Egress::Pull => " request-plane final response: "@,
                Egress::Push => " push-egress final response: "@,
            },
            cause,
        )
    }
}

/// What a response encoder has to do next. `R` is a response.
pub enum EncodeStep<R> {
    /// Encode the item that ends the stream.
    EncodeFinal,
    /// Encode this response.
    EncodeItem(R),
    /// Report this error.
    Fail(PipelineError),
}

/// Decides what a response encoder does: it ends the stream where it is told to, whatever the
/// response, and needs a response otherwise.
pub fn encode_response<R>(egress: Egress, response: Option<R>, complete_final: bool) -> (step:
    EncodeStep<R>)
    ensures
        complete_final ==> step == EncodeStep::<R>::EncodeFinal,
        !complete_final ==> match response {
            Some(response) => step == EncodeStep::<R>::EncodeItem(response),
            None => step is Fail && crate::codec::is_serialization_error(
                step->Fail_0,
                egress.missing_item_message(),
            ),
        },
{
    if complete_final {
        return EncodeStep::EncodeFinal;
    }
    match response {
        Some(response) => EncodeStep::EncodeItem(response),
        None => {
            let message: &str = match egress {
                Egress::Pull => "request-plane response item missing before final frame",
                Egress::Push => "push-egress response item missing before final frame",
            };
            EncodeStep::Fail(PipelineError::SerializationError(message.to_owned()))
        },
    }
}

/// Settles the encoding of the item that ends a stream: its frame is no error, and leaves the
/// stream to end by itself.
pub fn finish_final_frame(
    egress: Egress,
    codec: RequestPlanePayloadCodec,
    encoded: Result<Vec<u8>, String>,
) -> (res: Result<EncodedResponseFrame, PipelineError>)
    ensures
        match encoded {
            Ok(bytes) => res is Ok && res->Ok_0@ == (FrameView {
                bytes: bytes@,
                is_error: false,
                stop_stream: false,
            }),
            Err(cause) => res is Err && crate::codec::is_serialization_error(
                res->Err_0,
                egress.final_frame_message(codec, cause@),
            ),
        },
{
    match encoded {
        Ok(bytes) => Ok(
            EncodedResponseFrame { bytes: freeze(bytes), is_error: false, stop_stream: false },
        ),
        Err(cause) => {
            let between: &str = match egress {
                Egress::Pull => " request-plane final response: ",
                Egress::Push => " push-egress final response: ",
            };
            Err(
                PipelineError::SerializationError(
                    write_codec_message("Failed serializing ", codec, between, cause.as_str()),
                ),
            )
        },
    }
}

/// The item that ends a stream: it carries nothing.
pub open spec fn final_item<U>() -> NetworkStreamWrapper<U> {
    NetworkStreamWrapper { data: None, complete_final: true }
}

/// The frame that ends a stream. `encode_into` is the encoder of the payload codecs, and writes the
/// final item to an empty buffer.
pub fn encode_final_response<U, F>(
    egress: Egress,
    codec: RequestPlanePayloadCodec,
    encode_into: F,
) -> (res: Result<EncodedResponseFrame, PipelineError>) where
    F: FnOnce(RequestPlanePayloadCodec, &NetworkStreamWrapper<U>, &mut Vec<u8>) -> Result<
        (),
        String,
    >,

    requires
        forall|target: &mut Vec<u8>|
            call_requires(encode_into, (codec, &final_item::<U>(), target)),
    ensures
        exists|target: &mut Vec<u8>, outcome: Result<(), String>|
            {
                &&& #[trigger] call_ensures(
                    encode_into,
                    (codec, &final_item::<U>(), target),
                    outcome,
                )
                &&& (*target)@ == Seq::<u8>::empty()
                &&& match outcome {
                    Ok(_) => res is Ok && res->Ok_0@ == (FrameView {
                        bytes: (*final(target))@,
                        is_error: false,
                        stop_stream: false,
                    }),
                    Err(cause) => res is Err && crate::codec::is_serialization_error(
                        res->Err_0,
                        egress.final_frame_message(codec, cause@),
                    ),
                }
            },
{
    let item: NetworkStreamWrapper<U> = NetworkStreamWrapper { data: None, complete_final: true };
    let mut bytes: Vec<u8> = Vec::new();
    match encode_into(codec, &item, &mut bytes) {
        Ok(_) => finish_final_frame(egress, codec, Ok(bytes)),
        Err(cause) => finish_final_frame(egress, codec, Err(cause)),
    }
}

/// Settles the encoding of a response that was handed to a worker thread: its outcome, or the
/// failure of the hand-over.
pub fn finish_offloaded_response<R>(
    codec: RequestPlanePayloadCodec,
    outcome: Result<Result<R, PipelineError>, String>,
) -> (res: Result<R, PipelineError>)
    ensures
        match outcome {
            Ok(encoded) => res == encoded,
            Err(cause) => res is Err && crate::codec::is_serialization_error(
                res->Err_0,
                crate::codec::codec_message(
                    "failed to offload "@,
                    codec,
                    " Python response encode: "@,
                    cause@,
                ),
            ),
        },
{
    match outcome {
        Ok(encoded) => encoded,
        Err(cause) => Err(
            PipelineError::SerializationError(
                write_codec_message(
                    "failed to offload ",
                    codec,
                    " Python response encode: ",
                    cause.as_str(),
                ),
            ),
        ),
    }
}

/// The frame of a response that the worker encoded itself, or the frame that ends its stream.
/// `into_encoded` hands a pushed frame over for `codec`; `encode_into` is the encoder of the payload
/// codecs.
pub fn encode_pushed_response<U, R, G, F>(
    codec: RequestPlanePayloadCodec,
    response: Option<R>,
    complete_final: bool,
    into_encoded: G,
    encode_into: F,
) -> (res: Result<EncodedResponseFrame, PipelineError>) where
    G: FnOnce(R, RequestPlanePayloadCodec) -> Result<EncodedResponseFrame, PipelineError>,
    F: FnOnce(RequestPlanePayloadCodec, &NetworkStreamWrapper<U>, &mut Vec<u8>) -> Result<
        (),
        String,
    >,

    requires
        !complete_final && response is Some ==> call_requires(into_encoded, (response->0, codec)),
        complete_final ==> forall|target: &mut Vec<u8>|
            call_requires(encode_into, (codec, &final_item::<U>(), target)),
    ensures
        complete_final ==> exists|target: &mut Vec<u8>, outcome: Result<(), String>|
            {
                &&& #[trigger] call_ensures(
                    encode_into,
                    (codec, &final_item::<U>(), target),
                    outcome,
                )
                &&& (*target)@ == Seq::<u8>::empty()
                &&& match outcome {
                    Ok(_) => res is Ok && res->Ok_0@ == (FrameView {
                        bytes: (*final(target))@,
                        is_error: false,
                        stop_stream: false,
                    }),
                    Err(cause) => res is Err && crate::codec::is_serialization_error(
                        res->Err_0,
                        Egress::Push.final_frame_message(codec, cause@),
                    ),
                }
            },
        !complete_final ==> match response {
            Some(frame) => call_ensures(into_encoded, (frame, codec), res),
            None => res is Err && crate::codec::is_serialization_error(
                res->Err_0,
                Egress::Push.missing_item_message(),
            ),
        },
{
    match encode_response(Egress::Push, response, complete_final) {
        EncodeStep::EncodeFinal => encode_final_response(Egress::Push, codec, encode_into),
        EncodeStep::EncodeItem(frame) => into_encoded(frame, codec),
        EncodeStep::Fail(error) => Err(error),
    }
}

/// An encoder that is told to end the stream does so, whether or not there is a response. One that
/// is not told to encodes the very response that it was given, and fails where there is none.
pub proof fn law_steps_follow_the_call<R>(
    egress: Egress,
    response: Option<R>,
    complete_final: bool,
    step: EncodeStep<R>,
)
    requires
        call_ensures(encode_response::<R>, (egress, response, complete_final), step),
    ensures
        step is EncodeFinal <==> complete_final,
        step is Fail <==> !complete_final && response is None,
        step matches EncodeStep::EncodeItem(item) ==> response == Some(item),
        step matches EncodeStep::Fail(error) ==> (
        error matches PipelineError::SerializationError(text) && text@ == match egress {
            Egress::Pull => "request-plane response item missing before final frame"@,
            Egress::Push => "push-egress response item missing before final frame"@,
        }),
{
}

/// A final item that was encoded becomes a frame of these bytes that is no error and does not stop
/// the stream; one that was not becomes a serialization error that names the codec and the egress
/// and ends with the cause.
pub proof fn law_final_frames(
    egress: Egress,
    codec: RequestPlanePayloadCodec,
    encoded: Result<Vec<u8>, String>,
    res: Result<EncodedResponseFrame, PipelineError>,
)
    requires
        call_ensures(finish_final_frame, (egress, codec, encoded), res),
    ensures
        encoded matches Ok(bytes) ==> (res matches Ok(frame) && !frame.is_error
            && !frame.stop_stream && crate::buffer::shared_bytes(frame.bytes) == bytes@),
        encoded matches Err(cause) ==> (res matches Err(PipelineError::SerializationError(text))
            && text@ == "Failed serializing "@ + (if codec is Json {
            "json"@
        } else {
            "msgpack"@
        }) + (match egress {
            Egress::Pull => " request-plane final response: "@,
            Egress::Push => " push-egress final response: "@,
        }) + cause@),
{
}

/// Ending a stream hands one item to the encoder, with this codec and an empty buffer: it carries
/// nothing and marks the end. The frame holds what the encoder wrote, is no error, and does not stop
/// the stream; where the encoder failed, the error names the codec and the egress and ends with the
/// cause.
pub proof fn law_final_items_carry_nothing<U, F>(
    egress: Egress,
    codec: RequestPlanePayloadCodec,
    encode_into: F,
    res: Result<EncodedResponseFrame, PipelineError>,
) where
    F: FnOnce(RequestPlanePayloadCodec, &NetworkStreamWrapper<U>, &mut Vec<u8>) -> Result<
        (),
        String,
    >,

    requires
        call_ensures(encode_final_response::<U, F>, (egress, codec, encode_into), res),
    ensures
        exists|
            item: NetworkStreamWrapper<U>,
            target: &mut Vec<u8>,
            outcome: Result<(), String>,
        |
            {
                &&& #[trigger] call_ensures(encode_into, (codec, &item, target), outcome)
                &&& item.data is None
                &&& item.complete_final
                &&& (*target)@.len() == 0
                &&& outcome is Ok ==> (res matches Ok(frame) && !frame.is_error
                    && !frame.stop_stream && crate::buffer::shared_bytes(frame.bytes)
                    == (*final(target))@)
                &&& outcome matches Err(cause) ==> (res matches Err(
                    PipelineError::SerializationError(text),
                ) && text@ == "Failed serializing "@ + (if codec is Json {
                    "json"@
                } else {
                    "msgpack"@
                }) + (match egress {
                    Egress::Pull => " request-plane final response: "@,
                    Egress::Push => " push-egress final response: "@,
                }) + cause@)
            },
{
}

/// What a worker thread made of a response is passed on unchanged; a hand-over that failed is a
/// serialization error whose message names the codec and ends with the cause.
pub proof fn law_offloaded_responses_are_passed_on<R>(
    codec: RequestPlanePayloadCodec,
    outcome: Result<Result<R, PipelineError>, String>,
    res: Result<R, PipelineError>,
)
    requires
        call_ensures(finish_offloaded_response::<R>, (codec, outcome), res),
    ensures
        outcome matches Ok(encoded) ==> res == encoded,
        outcome matches Err(cause) ==> (res matches Err(PipelineError::SerializationError(text))
            && text@ == "failed to offload "@ + (if codec is Json {
            "json"@
        } else {
            "msgpack"@
        }) + " Python response encode: "@ + cause@),
{
}

/// A pushed frame is handed over for this codec, and what comes of that is the result, unchanged;
/// without a frame the call fails.
pub proof fn law_pushed_frames_are_forwarded<U, R, G, F>(
    codec: RequestPlanePayloadCodec,
    response: Option<R>,
    into_encoded: G,
    encode_into: F,
    res: Result<EncodedResponseFrame, PipelineError>,
) where
    G: FnOnce(R, RequestPlanePayloadCodec) -> Result<EncodedResponseFrame, PipelineError>,
    F: FnOnce(RequestPlanePayloadCodec, &NetworkStreamWrapper<U>, &mut Vec<u8>) -> Result<
        (),
        String,
    >,

    requires
        call_ensures(
            encode_pushed_response::<U, R, G, F>,
            (codec, response, false, into_encoded, encode_into),
            res,
        ),
    ensures
        response matches Some(frame) ==> call_ensures(into_encoded, (frame, codec), res),
        response is None ==> (res matches Err(PipelineError::SerializationError(text)) && text@
            == "push-egress response item missing before final frame"@),
{
}

/// The end of a pushed stream is encoded, and nothing else, whether or not there is a frame: one item
/// goes to the encoder, with this codec and an empty buffer, that carries nothing and marks the end.
pub proof fn law_pushed_streams_end<U, R, G, F>(
    codec: RequestPlanePayloadCodec,
    response: Option<R>,
    into_encoded: G,
    encode_into: F,
    res: Result<EncodedResponseFrame, PipelineError>,
) where
    G: FnOnce(R, RequestPlanePayloadCodec) -> Result<EncodedResponseFrame, PipelineError>,
    F: FnOnce(RequestPlanePayloadCodec, &NetworkStreamWrapper<U>, &mut Vec<u8>) -> Result<
        (),
        String,
    >,

    requires
        call_ensures(
            encode_pushed_response::<U, R, G, F>,
            (codec, response, true, into_encoded, encode_into),
            res,
        ),
    ensures
        exists|
            item: NetworkStreamWrapper<U>,
            target: &mut Vec<u8>,
            outcome: Result<(), String>,
        |
            {
                &&& #[trigger] call_ensures(encode_into, (codec, &item, target), outcome)
                &&& item.data is None
                &&& item.complete_final
                &&& (*target)@.len() == 0
                &&& outcome is Ok ==> (res matches Ok(frame) && !frame.is_error
                    && !frame.stop_stream && crate::buffer::shared_bytes(frame.bytes)
                    == (*final(target))@)
                &&& outcome matches Err(cause) ==> (res matches Err(
                    PipelineError::SerializationError(text),
                ) && text@ == "Failed serializing "@ + (if codec is Json {
                    "json"@
                } else {
                    "msgpack"@
                }) + " push-egress final response: "@ + cause@)
            },
{
}

} // verus!

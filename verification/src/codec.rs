//! The payload codecs of the request plane, and the errors that it reports.

use vstd::prelude::*;

verus! {

/// How payloads are written on the request plane.
#[derive(Clone, Copy, Debug, PartialEq, Eq, Structural)]
pub enum RequestPlanePayloadCodec {
    Json,
    Msgpack,
}

impl RequestPlanePayloadCodec {
    /// The name of the codec, as error messages give it.
    pub open spec fn name_view(self) -> Seq<char> {
        match self {
            RequestPlanePayloadCodec::Json => "json"@,
            RequestPlanePayloadCodec::Msgpack => "msgpack"@,
        }
    }

    /// The name of the codec.
    pub fn name(self) -> (res: &'static str)
        ensures
            res@ == self.name_view(),
    {
        match self {
            RequestPlanePayloadCodec::Json => "json",
            RequestPlanePayloadCodec::Msgpack => "msgpack",
        }
    }
}

/// A failure on the request plane, with its message.
#[derive(Debug)]
pub enum PipelineError {
    SerializationError(String),
    DeserializationError(String),
}

/// Whether `error` is a serialization failure with this message.
pub open spec fn is_serialization_error(error: PipelineError, message: Seq<char>) -> bool {
    error matches PipelineError::SerializationError(text) && text@ == message
}

/// Whether `error` is a deserialization failure with this message.
pub open spec fn is_deserialization_error(error: PipelineError, message: Seq<char>) -> bool {
    error matches PipelineError::DeserializationError(text) && text@ == message
}

/// A message about `codec`: its name between `before` and `between`, then the cause.
pub open spec fn codec_message(
    before: Seq<char>,
    codec: RequestPlanePayloadCodec,
    between: Seq<char>,
    cause: Seq<char>,
) -> Seq<char> {
    before + codec.name_view() + between + cause
}

/// Writes a message about `codec`.
pub(crate) fn write_codec_message(
    before: &str,
    codec: RequestPlanePayloadCodec,
    between: &str,
    cause: &str,
) -> (message: String)
    ensures
        message@ == codec_message(before@, codec, between@, cause@),
{
    let mut message: String = before.to_owned();
    message.append(codec.name());
    message.append(between);
    message.append(cause);
    message
}

/// Decodes the payload of a request. `decode` is the decoder of the payload codecs.
pub fn decode_payload<T, F>(codec: RequestPlanePayloadCodec, bytes: &[u8], decode: F) -> (res:
    Result<T, PipelineError>) where
    F: FnOnce(RequestPlanePayloadCodec, &[u8]) -> Result<T, String>,

    requires
        call_requires(decode, (codec, bytes)),
    ensures
        exists|outcome: Result<T, String>| #[trigger]
            call_ensures(decode, (codec, bytes), outcome) && match outcome {
                Ok(request) => res == Ok::<T, PipelineError>(request),
                Err(cause) => res is Err && is_deserialization_error(
                    res->Err_0,
                    codec_message(
                        "Failed deserializing "@,
                        codec,
                        " Python request payload: "@,
                        cause@,
                    ),
                ),
            },
{
    match decode(codec, bytes) {
        Ok(request) => Ok(request),
        Err(cause) => Err(
            PipelineError::DeserializationError(
                write_codec_message(
                    "Failed deserializing ",
                    codec,
                    " Python request payload: ",
                    cause.as_str(),
                ),
            ),
        ),
    }
}

/// Settles the decoding of a request that was handed to a worker thread: its outcome, or the
/// failure of the hand-over.
pub fn finish_decode_request<T>(
    codec: RequestPlanePayloadCodec,
    outcome: Result<Result<T, PipelineError>, String>,
) -> (res: Result<T, PipelineError>)
    ensures
        match outcome {
            Ok(decoded) => res == decoded,
            Err(cause) => res is Err && is_deserialization_error(
                res->Err_0,
                codec_message("failed to offload "@, codec, " Python request decode: "@, cause@),
            ),
        },
{
    match outcome {
        Ok(decoded) => decoded,
        Err(cause) => Err(
            PipelineError::DeserializationError(
                write_codec_message(
                    "failed to offload ",
                    codec,
                    " Python request decode: ",
                    cause.as_str(),
                ),
            ),
        ),
    }
}

/// The codecs have different names, the ones that messages give.
pub proof fn law_codec_names(codec: RequestPlanePayloadCodec, name: &'static str)
    requires
        call_ensures(RequestPlanePayloadCodec::name, (codec,), name),
    ensures
        name@ == "json"@ <==> codec is Json,
        name@ == "msgpack"@ <==> codec is Msgpack,
{
    reveal_strlit("json");
    reveal_strlit("msgpack");
    assert("json"@.len() == 4);
    assert("msgpack"@.len() == 7);
}

/// Decoding a payload hands these bytes and this codec to the decoder, and gives what the decoder
/// gave: its value, or a deserialization error whose message names the codec and ends with the
/// decoder's own.
pub proof fn law_payloads_are_what_was_decoded<T, F>(
    codec: RequestPlanePayloadCodec,
    bytes: &[u8],
    decode: F,
    res: Result<T, PipelineError>,
) where F: FnOnce(RequestPlanePayloadCodec, &[u8]) -> Result<T, String>
    requires
        call_ensures(decode_payload::<T, F>, (codec, bytes, decode), res),
    ensures
        res matches Ok(request) ==> call_ensures(decode, (codec, bytes), Ok(request)),
        res matches Err(error) ==> exists|outcome: Result<T, String>|
            {
                &&& #[trigger] call_ensures(decode, (codec, bytes), outcome)
                &&& outcome matches Err(cause) && error matches PipelineError::DeserializationError(
                    text,
                ) && text@ == "Failed deserializing "@ + (if codec is Json {
                    "json"@
                } else {
                    "msgpack"@
                }) + " Python request payload: "@ + cause@
            },
{
}

/// What a worker thread made of a request is passed on unchanged; a hand-over that failed is a
/// deserialization error whose message names the codec and ends with the cause.
pub proof fn law_decoded_requests_are_passed_on<T>(
    codec: RequestPlanePayloadCodec,
    outcome: Result<Result<T, PipelineError>, String>,
    res: Result<T, PipelineError>,
)
    requires
        call_ensures(finish_decode_request::<T>, (codec, outcome), res),
    ensures
        outcome matches Ok(decoded) ==> res == decoded,
        outcome matches Err(cause) ==> (res matches Err(PipelineError::DeserializationError(text))
            && text@ == "failed to offload "@ + (if codec is Json {
            "json"@
        } else {
            "msgpack"@
        }) + " Python request decode: "@ + cause@),
{
}

} // verus!

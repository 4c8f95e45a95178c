//! Framing of Python worker responses for the request plane.
//!
//! A worker's responses are Python objects. [`envelope`] reads one as an annotated response,
//! [`response`] turns that into an encoded frame, and [`egress`] decides what a response encoder
//! does with each call. [`token_frame`] writes the frame of a streamed token straight to
//! MessagePack. [`wire`] describes what the generic encoder writes, and proves that a token frame
//! has the same bytes and can be read back. The proof is about that description; the tests compare
//! token frames with what `rmp-serde` writes.
//!
//! The Python objects and the serde codecs themselves stay with the caller, who hands in how
//! the former are looked up and converted, and how the latter encode and decode.

pub mod annotated;
pub mod buffer;
pub mod codec;
pub mod egress;
pub mod envelope;
pub mod msgpack;
pub mod python;
pub mod response;
pub mod token_frame;
pub mod value;
pub mod wire;

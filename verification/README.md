# python_payload

A verified library that frames the responses of Python workers for a request plane: which response
a Python object stands for, which frame it becomes, when a stream stops, and the exact bytes of the
steady-state token frame.

- `src/` is the library, verified with Verus.
  - `msgpack.rs`, `value.rs`: the byte format and value trees, with the round trip between them.
  - `buffer.rs`: the buffers of `bytes` and the writers of `rmp`; what is taken on trust stands
    here and nowhere else.
  - `python.rs`, `token_frame.rs`, `wire.rs`: the token frame and its laws.
  - `annotated.rs`, `envelope.rs`, `codec.rs`, `response.rs`, `egress.rs`: responses.
- `app/` reads Python objects through `pyo3`, runs the serde codecs and the asynchronous plumbing.
  The request plane's runtime crate, `dynamo-runtime`, brings several hundred packages and is no
  dependency; `serde_json` and `rmp-serde` do the work of its codec, and `rmpv` holds structured
  errors.
- `tests/` runs the library against `rmp-serde`, `rmpv` and `serde_json`.

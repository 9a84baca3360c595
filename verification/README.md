# up_rust_py

The verified core of Python bindings for the Eclipse uProtocol Rust library (up-rust).

- `src/` is the library, verified with Verus: the message data model (`uuid`, `ucode`,
  `uattributes`, `uri`, `umessage`), payload construction and text extraction (`payload`),
  the exceptions the bindings raise (`errors`), and the bookkeeping of registered listeners
  (`listeners`, `local_transport`, `zenoh_transport`, `communication`).
- `app/` holds the Python module (pyo3), the conversions between up-rust's protobuf types and
  the library's types, and the asynchronous calls into up-rust's transports, publisher and
  notifier; it hands their outcomes back to the library.
- `tests/` exercises the library.

The Zenoh transport module of `app/` is compiled only with a `zenoh` feature and the
`up-transport-zenoh` crate, which this build does not include.

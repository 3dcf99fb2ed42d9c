# optee_utee

A verified library for writing OP-TEE trusted applications (TAs) in Rust,
after the GlobalPlatform TEE Internal Core API, with the configuration and
linking of a TA build.

The library describes what a TA asks of the TEE and decides what comes of
the answer. A function that stands for a TEE call returns the call to make
(`OperationCall`, `ObjectCall`, `TaSessionCall`, the shared buffer of a
plugin command, ...); a function that takes the TEE's status and results
says what the TA gets back. Every one of them carries a contract that Verus
proves.

Layout:

- `src/` — the library, verified with Verus:
  - `error`, `defines`: status codes, error kinds and origins;
  - `uuid`, `identity`, `time`, `text`: UUIDs (parsed with the `uuid`
    crate), client identities, times, and the text they are written as;
  - `parameter`, `tee_parameter`, `ta_session`: the parameters of entry
    points and of commands sent to other TAs, and how they are read back;
  - `object`, `crypto_op`, `arithmetical`, `property`: storage objects,
    cryptographic operations, big integers and properties;
  - `extension`, `net`: plugins in the normal world, and sockets;
  - `ta_build`: the configuration of a TA, its linker, linker script,
    cargo directives and the text of its generated header.
- `tests/` — tests of the library on concrete values.
- `app/` — the calls into `libutee` (operations, objects, sessions,
  properties, big integers), the glue that runs an entry point's function
  on the TEE's parameters and hands them back, handles that give their resource back when
  dropped, the socket adapters, and the build script side (environment,
  files, header code generation).

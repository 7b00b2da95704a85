# embedded-hal-io

Byte-stream I/O, storage and CAN abstractions for embedded systems, with their behaviour
stated as contracts and proved with Verus.

The traits that users implement (readers, writers, seekable streams, storages, NOR flashes,
errors, frames, regions) describe their implementations through spec functions that an
implementation opts into with a `models_*` switch. Contracts about contents, positions and kinds
hold for the implementations that model them (the crate's own slices, vectors, deques,
cursors and buffered readers model what they can); an implementation written outside Verus
keeps the switches off and is promised nothing about them. Some results rest on code that is not verified here and are not described: what
formatting writes, and the payload of `std::io` errors.

Layout:

- `src/` — the verified library:
  - `io` (reader, writer, seek and buffered-reader traits and their errors), `cursor`,
    `slice_io`, `vec_io`, `vec_deque_io`, `buf_reader`;
  - `storage` and `nor_flash` (NOR flash model, alignment checks, read-modify-write storages);
  - `adapters` (digest, `core::fmt`, `std::io`, `futures`, `tokio`, thread-pool and storage
    adapters), `std_io` (conversions to and from `std::io`);
  - `can` (identifiers, frames, errors), `adc`, `blocking` (blocking HAL traits),
    `asynchronous` (the decisions of exact reads and complete writes).
- `app/` — the asynchronous traits, the futures of the asynchronous HAL, and the adapters whose
  work goes through other crates' traits or a thread pool.
- `tests/` — tests of the library.

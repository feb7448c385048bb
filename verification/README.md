# lvl_reader

A verified reader for the level files of an OpenSpace-engine game.

- `src/` is the library. Each parser works on byte buffers and positions.
  Its result is stated as a spec function over the bytes, and Verus proves the
  parser against it. `primitives.rs` holds the trusted calls into `nom`
  (little-endian integers, `take_while`) and into `String::from_utf8_lossy`.
- `tests/` runs the parsers on hand-built buffers.
- `app/main.rs` reads the four level files named on the command line and
  parses them.

Floating-point fields are kept as the bits of their `f32` values. Use
`f32::from_bits` to get the number.

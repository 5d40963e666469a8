# bsp

Record types of the lumps of Valve's Source-engine BSP map format, written
in Verus.

- `src/valve/primitive_count.rs`, `src/valve/area_flags.rs`: the packed
  bit-fields of faces and leaves, with accessors whose contracts state the
  field values and laws on how the setters interact.
- `src/valve/text.rs`: the decimal and boolean text behind the bit-fields'
  debug strings and the conversion error's message. `{:?}` on the library's
  `PrimitiveCount` and `AreaFlags` (and on `Face` and `Leaf`) shows the raw
  bits; their `debug_string` methods, or the `Debug` of the `app/` types,
  give the text with the fields by name.
- `src/valve/emit_type.rs`: the kinds of world lights and their numbering.
- `src/valve/scalar.rs`, `src/valve/record.rs`: the little-endian byte layout
  of records and lumps, with round-trip laws.
- `src/valve/geometry.rs`, `src/valve/surface.rs`, `src/valve/light.rs`: the
  records themselves. Floating-point fields are held as their IEEE-754 bits.
- `app/`: copies of the types with `f32` fields and the `zerocopy` and
  `derive_more` derives, converting to and from the library's types.

# cxbin_converter

Reads Creality CXBin model files (`.cxbin`) and renders their meshes as STL,
PLY, OBJ, OFF, 3MF, AMF, VRML, X3D and a few more formats. The library is
written in Verus: every function under `src/` carries a contract, and Verus
proves it, except for the few `#[verifier::external_body]` wrappers around
calls into flate2, image, quick_xml and std (in `src/cxbin/outside.rs`,
`src/export/threemf.rs` and `src/export/mod.rs`), whose contracts are
believed as stated in their doc comments.

## Layout

- `src/bytes.rs` — little-endian fields and the fixed-width records of a
  geometry block (decoding, encoding, and the proof that encoded records read
  back).
- `src/cxbin/` — the mesh types, the reader (`parse_cxbin`, specified by
  `cxbin_spec`), and the calls into flate2, image and std that it makes.
- `src/text.rs` — decimal integers and repeated pieces of text.
- `src/export/` — one module per output format; each renders the bytes or
  text of its file. `line.rs` decides which pixels the 3MF thumbnail's
  wireframe lines set.
- `src/conversion.rs` — where a conversion writes its output, and the
  report of one conversion.
- `app/` — the command-line program: file I/O, zip packaging, and the
  floating-point work (decimal text of coordinates, normals, thumbnail
  projection).
- `tests/` — tests of the library on concrete files and meshes.

Coordinates are `f32` in the file; the library keeps them as their bit
patterns (`u32`), so reading and binary writing are exact. Text formats take
the decimal text of each coordinate, made by `app/`.

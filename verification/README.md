# easel_libraw

Camera RAW decoding on top of LibRaw, with the decoding logic verified by
Verus.

- `src/error.rs`: the four error kinds, the error type (kind, message,
  optional cause text), context prepending and rendering.
- `src/image.rs`: packed `0x00RRGGBB` pixels and the row-major image buffer,
  with its constructors from pixels, 8-bit and 16-bit interleaved RGB.
- `src/jpeg.rs`: conversion of embedded JPEG thumbnails (decoded with
  `jpeg-decoder`) into image buffers.
- `src/adapter.rs`: classification of LibRaw return codes, path conversion,
  conversion of LibRaw's in-memory images, and the stage machine that decides
  which LibRaw call comes next and how each outcome ends a decode.
- `src/text.rs`: decimal rendering of numbers in messages.
- `app/`: the `RawDecode` trait and its LibRaw implementation, which performs
  the FFI calls that the stage machine asks for, and a displayable report
  type carrying the cause and the location of an error.

The tests under `tests/` exercise the library with the real `jpeg-decoder`.

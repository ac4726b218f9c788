# pigment64

Converts PNG images into the native texture formats of the N64 (I1, I4, I8,
IA4, IA8, IA16, CI4, CI8, RGBA16, RGBA32) and reads PNG palettes into RGBA5551
colour tables. The library is verified with Verus.

- `src/lib.rs`: the texture format enums (`ImageSize`, `ImageFormat`,
  `ImageType`, `TextureLUT`), their numbers, and the library's `Error`.
- `src/color.rs`: `Color` and its RGBA5551 packing.
- `src/image/png_image.rs`: `PNGImage`, its conversions, mirroring, PNG
  decoding and encoding through the `png` crate, and palette reading.
- `src/image/texel.rs`: what each conversion makes of the bytes, byte by byte,
  and the loops that do it.
- `src/image/flip.rs`: the index arithmetic of mirroring and its laws.
- `app/lib.rs`: readers and writers around the library, and the computation of
  pixel intensities, which is done in floating point.

Conversions that need the intensity of RGB or RGBA pixels take it as a slice
with one byte per pixel; `app/lib.rs` computes it with the Rec. 709 weights.

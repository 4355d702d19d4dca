# ndk_bitmap

Bitmap descriptions, pixel formats and result codes of the Android NDK bitmap
interface, verified with Verus.

- `src/error.rs`: result codes and `BitmapError`, with `from_status`.
- `src/format.rs`: `BitmapFormat` and `BitmapCompressFormat` and their codes.
- `src/info.rs`: `BitmapInfoFlags`, `BitmapInfoFlagsAlpha` and `BitmapInfo`.
- `src/compress.rs`: `BitmapCompressError`, the checks around the native
  compressor, and the step function that sequences a compression
  (describe, data space, lock, compress, unlock).
- `app/lib.rs`: the `Bitmap` JNI wrapper that makes the native calls and runs
  the step function.

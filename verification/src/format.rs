use vstd::prelude::*;

verus! {

/// Code of [`BitmapFormat::NONE`].
pub const ANDROID_BITMAP_FORMAT_NONE: i32 = 0;

/// Code of [`BitmapFormat::RGBA_8888`].
pub const ANDROID_BITMAP_FORMAT_RGBA_8888: i32 = 1;

/// Code of [`BitmapFormat::RGB_565`].
pub const ANDROID_BITMAP_FORMAT_RGB_565: i32 = 4;

/// Code of [`BitmapFormat::RGBA_4444`].
pub const ANDROID_BITMAP_FORMAT_RGBA_4444: i32 = 7;

/// Code of [`BitmapFormat::A_8`].
pub const ANDROID_BITMAP_FORMAT_A_8: i32 = 8;

/// Code of [`BitmapFormat::RGBA_F16`].
pub const ANDROID_BITMAP_FORMAT_RGBA_F16: i32 = 9;

/// Code of [`BitmapFormat::RGBA_1010102`].
pub const ANDROID_BITMAP_FORMAT_RGBA_1010102: i32 = 10;

/// Code of [`BitmapCompressFormat::Jpeg`].
pub const ANDROID_BITMAP_COMPRESS_FORMAT_JPEG: i32 = 0;

/// Code of [`BitmapCompressFormat::Png`].
pub const ANDROID_BITMAP_COMPRESS_FORMAT_PNG: i32 = 1;

/// Code of [`BitmapCompressFormat::WebPLossy`].
pub const ANDROID_BITMAP_COMPRESS_FORMAT_WEBP_LOSSY: i32 = 3;

/// Code of [`BitmapCompressFormat::WebPLossless`].
pub const ANDROID_BITMAP_COMPRESS_FORMAT_WEBP_LOSSLESS: i32 = 4;

/// Pixel format of a bitmap (`AndroidBitmapFormat`).
///
/// A code without a named variant is kept in `__Unknown`.
#[allow(non_camel_case_types)]
#[derive(Clone, Copy, Debug, PartialEq, Eq, Structural)]
#[non_exhaustive]
pub enum BitmapFormat {
    NONE,
    RGBA_8888,
    RGB_565,
    /// Deprecated in API level 13: because of the poor quality of this
    /// configuration, `RGBA_8888` is advised instead.
    RGBA_4444,
    A_8,
    RGBA_F16,
    RGBA_1010102,
    __Unknown(i32),
}

/// The format that a code stands for.
pub open spec fn format_from_code(code: i32) -> BitmapFormat {
    if code == ANDROID_BITMAP_FORMAT_NONE {
        BitmapFormat::NONE
    } else if code == ANDROID_BITMAP_FORMAT_RGBA_8888 {
        BitmapFormat::RGBA_8888
    } else if code == ANDROID_BITMAP_FORMAT_RGB_565 {
        BitmapFormat::RGB_565
    } else if code == ANDROID_BITMAP_FORMAT_RGBA_4444 {
        BitmapFormat::RGBA_4444
    } else if code == ANDROID_BITMAP_FORMAT_A_8 {
        BitmapFormat::A_8
    } else if code == ANDROID_BITMAP_FORMAT_RGBA_F16 {
        BitmapFormat::RGBA_F16
    } else if code == ANDROID_BITMAP_FORMAT_RGBA_1010102 {
        BitmapFormat::RGBA_1010102
    } else {
        BitmapFormat::__Unknown(code)
    }
}

/// The code of a format.
pub open spec fn format_code(f: BitmapFormat) -> i32 {
    match f {
        BitmapFormat::NONE => ANDROID_BITMAP_FORMAT_NONE,
        BitmapFormat::RGBA_8888 => ANDROID_BITMAP_FORMAT_RGBA_8888,
        BitmapFormat::RGB_565 => ANDROID_BITMAP_FORMAT_RGB_565,
        BitmapFormat::RGBA_4444 => ANDROID_BITMAP_FORMAT_RGBA_4444,
        BitmapFormat::A_8 => ANDROID_BITMAP_FORMAT_A_8,
        BitmapFormat::RGBA_F16 => ANDROID_BITMAP_FORMAT_RGBA_F16,
        BitmapFormat::RGBA_1010102 => ANDROID_BITMAP_FORMAT_RGBA_1010102,
        BitmapFormat::__Unknown(code) => code,
    }
}

impl BitmapFormat {
    /// A format is canonical when converting a code can produce it: an
    /// `__Unknown` code is never one of the named codes.
    pub open spec fn is_canonical(self) -> bool {
        match self {
            BitmapFormat::__Unknown(code) => format_from_code(code) is __Unknown,
            _ => true,
        }
    }
}

impl From<i32> for BitmapFormat {
    fn from(code: i32) -> (f: Self) {
        if code == ANDROID_BITMAP_FORMAT_NONE {
            BitmapFormat::NONE
        } else if code == ANDROID_BITMAP_FORMAT_RGBA_8888 {
            BitmapFormat::RGBA_8888
        } else if code == ANDROID_BITMAP_FORMAT_RGB_565 {
            BitmapFormat::RGB_565
        } else if code == ANDROID_BITMAP_FORMAT_RGBA_4444 {
            BitmapFormat::RGBA_4444
        } else if code == ANDROID_BITMAP_FORMAT_A_8 {
            BitmapFormat::A_8
        } else if code == ANDROID_BITMAP_FORMAT_RGBA_F16 {
            BitmapFormat::RGBA_F16
        } else if code == ANDROID_BITMAP_FORMAT_RGBA_1010102 {
            BitmapFormat::RGBA_1010102
        } else {
            BitmapFormat::__Unknown(code)
        }
    }
}

impl vstd::std_specs::convert::FromSpecImpl<i32> for BitmapFormat {
    open spec fn obeys_from_spec() -> bool {
        true
    }

    open spec fn from_spec(v: i32) -> Self {
        format_from_code(v)
    }
}

impl From<BitmapFormat> for i32 {
    fn from(f: BitmapFormat) -> (code: Self) {
        match f {
            BitmapFormat::NONE => ANDROID_BITMAP_FORMAT_NONE,
            BitmapFormat::RGBA_8888 => ANDROID_BITMAP_FORMAT_RGBA_8888,
            BitmapFormat::RGB_565 => ANDROID_BITMAP_FORMAT_RGB_565,
            BitmapFormat::RGBA_4444 => ANDROID_BITMAP_FORMAT_RGBA_4444,
            BitmapFormat::A_8 => ANDROID_BITMAP_FORMAT_A_8,
            BitmapFormat::RGBA_F16 => ANDROID_BITMAP_FORMAT_RGBA_F16,
            BitmapFormat::RGBA_1010102 => ANDROID_BITMAP_FORMAT_RGBA_1010102,
            BitmapFormat::__Unknown(code) => code,
        }
    }
}

impl vstd::std_specs::convert::FromSpecImpl<BitmapFormat> for i32 {
    open spec fn obeys_from_spec() -> bool {
        true
    }

    open spec fn from_spec(v: BitmapFormat) -> Self {
        format_code(v)
    }
}

/// Turning a code into a format and back gives the code again, for every code.
pub proof fn lemma_format_code_round_trip(code: i32)
    ensures
        format_code(format_from_code(code)) == code,
        format_from_code(code).is_canonical(),
{
}

/// Turning a canonical format into its code and back gives the format again.
pub proof fn lemma_format_round_trip(f: BitmapFormat)
    requires
        f.is_canonical(),
    ensures
        format_from_code(format_code(f)) == f,
{
}

/// Format that compressed data is written in (`AndroidBitmapCompressFormat`).
///
/// A code without a named variant is kept in `__Unknown`.
#[derive(Clone, Copy, Debug, Hash, PartialEq, Eq, Structural)]
#[non_exhaustive]
pub enum BitmapCompressFormat {
    /// Compress to the JPEG format.
    ///
    /// quality of `0` means compress for the smallest size. `100` means compress for max visual
    /// quality.
    Jpeg,
    /// Compress to the PNG format.
    ///
    /// PNG is lossless, so quality is ignored.
    Png,
    /// Compress to the WEBP lossy format.
    ///
    /// quality of `0` means compress for the smallest size. `100` means compress for max visual
    /// quality.
    WebPLossy,
    /// Compress to the WEBP lossless format.
    ///
    /// quality refers to how much effort to put into compression. A value of `0` means to
    /// compress quickly, resulting in a relatively large file size. `100` means to spend more
    /// time compressing, resulting in a smaller file.
    WebPLossless,
    __Unknown(i32),
}

/// The compression format that a code stands for.
pub open spec fn compress_format_from_code(code: i32) -> BitmapCompressFormat {
    if code == ANDROID_BITMAP_COMPRESS_FORMAT_JPEG {
        BitmapCompressFormat::Jpeg
    } else if code == ANDROID_BITMAP_COMPRESS_FORMAT_PNG {
        BitmapCompressFormat::Png
    } else if code == ANDROID_BITMAP_COMPRESS_FORMAT_WEBP_LOSSY {
        BitmapCompressFormat::WebPLossy
    } else if code == ANDROID_BITMAP_COMPRESS_FORMAT_WEBP_LOSSLESS {
        BitmapCompressFormat::WebPLossless
    } else {
        BitmapCompressFormat::__Unknown(code)
    }
}

/// The code of a compression format.
pub open spec fn compress_format_code(f: BitmapCompressFormat) -> i32 {
    match f {
        BitmapCompressFormat::Jpeg => ANDROID_BITMAP_COMPRESS_FORMAT_JPEG,
        BitmapCompressFormat::Png => ANDROID_BITMAP_COMPRESS_FORMAT_PNG,
        BitmapCompressFormat::WebPLossy => ANDROID_BITMAP_COMPRESS_FORMAT_WEBP_LOSSY,
        BitmapCompressFormat::WebPLossless => ANDROID_BITMAP_COMPRESS_FORMAT_WEBP_LOSSLESS,
        BitmapCompressFormat::__Unknown(code) => code,
    }
}

impl BitmapCompressFormat {
    /// A compression format is canonical when converting a code can produce
    /// it: an `__Unknown` code is never one of the named codes.
    pub open spec fn is_canonical(self) -> bool {
        match self {
            BitmapCompressFormat::__Unknown(code) => compress_format_from_code(code) is __Unknown,
            _ => true,
        }
    }
}

impl From<i32> for BitmapCompressFormat {
    fn from(code: i32) -> (f: Self) {
        if code == ANDROID_BITMAP_COMPRESS_FORMAT_JPEG {
            BitmapCompressFormat::Jpeg
        } else if code == ANDROID_BITMAP_COMPRESS_FORMAT_PNG {
            BitmapCompressFormat::Png
        } else if code == ANDROID_BITMAP_COMPRESS_FORMAT_WEBP_LOSSY {
            BitmapCompressFormat::WebPLossy
        } else if code == ANDROID_BITMAP_COMPRESS_FORMAT_WEBP_LOSSLESS {
            BitmapCompressFormat::WebPLossless
        } else {
            BitmapCompressFormat::__Unknown(code)
        }
    }
}

impl vstd::std_specs::convert::FromSpecImpl<i32> for BitmapCompressFormat {
    open spec fn obeys_from_spec() -> bool {
        true
    }

    open spec fn from_spec(v: i32) -> Self {
        compress_format_from_code(v)
    }
}

impl From<BitmapCompressFormat> for i32 {
    fn from(f: BitmapCompressFormat) -> (code: Self) {
        match f {
            BitmapCompressFormat::Jpeg => ANDROID_BITMAP_COMPRESS_FORMAT_JPEG,
            BitmapCompressFormat::Png => ANDROID_BITMAP_COMPRESS_FORMAT_PNG,
            BitmapCompressFormat::WebPLossy => ANDROID_BITMAP_COMPRESS_FORMAT_WEBP_LOSSY,
            BitmapCompressFormat::WebPLossless => ANDROID_BITMAP_COMPRESS_FORMAT_WEBP_LOSSLESS,
            BitmapCompressFormat::__Unknown(code) => code,
        }
    }
}

impl vstd::std_specs::convert::FromSpecImpl<BitmapCompressFormat> for i32 {
    open spec fn obeys_from_spec() -> bool {
        true
    }

    open spec fn from_spec(v: BitmapCompressFormat) -> Self {
        compress_format_code(v)
    }
}

/// Turning a code into a compression format and back gives the code again,
/// for every code.
pub proof fn lemma_compress_format_code_round_trip(code: i32)
    ensures
        compress_format_code(compress_format_from_code(code)) == code,
        compress_format_from_code(code).is_canonical(),
{
}

/// Turning a canonical compression format into its code and back gives the
/// format again.
pub proof fn lemma_compress_format_round_trip(f: BitmapCompressFormat)
    requires
        f.is_canonical(),
    ensures
        compress_format_from_code(compress_format_code(f)) == f,
{
}

} // verus!

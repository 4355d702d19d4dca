use vstd::prelude::*;

use crate::format::{format_code, format_from_code, BitmapFormat};

verus! {

/// Alpha value [`BitmapInfoFlagsAlpha::Premultiplied`].
pub const ANDROID_BITMAP_FLAGS_ALPHA_PREMUL: u32 = 0;

/// Alpha value [`BitmapInfoFlagsAlpha::Opaque`].
pub const ANDROID_BITMAP_FLAGS_ALPHA_OPAQUE: u32 = 1;

/// Alpha value [`BitmapInfoFlagsAlpha::Unpremultiplied`].
pub const ANDROID_BITMAP_FLAGS_ALPHA_UNPREMUL: u32 = 2;

/// The bits of [`BitmapInfoFlags`] that hold the alpha value.
pub const ANDROID_BITMAP_FLAGS_ALPHA_MASK: u32 = 3;

/// The bit of [`BitmapInfoFlags`] that is set for a bitmap in "HARDWARE Config".
pub const ANDROID_BITMAP_FLAGS_IS_HARDWARE: u32 = 0x8000_0000;

/// Possible values for [`ANDROID_BITMAP_FLAGS_ALPHA_MASK`] within [`BitmapInfoFlags`].
///
/// A value without a named variant is kept in `__Unknown`.
#[derive(Clone, Copy, Debug)]
#[non_exhaustive]
pub enum BitmapInfoFlagsAlpha {
    /// Pixel components are premultiplied by alpha.
    Premultiplied,
    /// Pixels are opaque.
    Opaque,
    /// Pixel components are independent of alpha.
    Unpremultiplied,
    __Unknown(u32),
}

/// The alpha variant that a value stands for.
pub open spec fn alpha_from_code(code: u32) -> BitmapInfoFlagsAlpha {
    if code == ANDROID_BITMAP_FLAGS_ALPHA_PREMUL {
        BitmapInfoFlagsAlpha::Premultiplied
    } else if code == ANDROID_BITMAP_FLAGS_ALPHA_OPAQUE {
        BitmapInfoFlagsAlpha::Opaque
    } else if code == ANDROID_BITMAP_FLAGS_ALPHA_UNPREMUL {
        BitmapInfoFlagsAlpha::Unpremultiplied
    } else {
        BitmapInfoFlagsAlpha::__Unknown(code)
    }
}

/// The value of an alpha variant.
pub open spec fn alpha_code(a: BitmapInfoFlagsAlpha) -> u32 {
    match a {
        BitmapInfoFlagsAlpha::Premultiplied => ANDROID_BITMAP_FLAGS_ALPHA_PREMUL,
        BitmapInfoFlagsAlpha::Opaque => ANDROID_BITMAP_FLAGS_ALPHA_OPAQUE,
        BitmapInfoFlagsAlpha::Unpremultiplied => ANDROID_BITMAP_FLAGS_ALPHA_UNPREMUL,
        BitmapInfoFlagsAlpha::__Unknown(code) => code,
    }
}

impl BitmapInfoFlagsAlpha {
    /// An alpha variant is canonical when converting a value can produce it:
    /// an `__Unknown` value is never one of the named values.
    pub open spec fn is_canonical(self) -> bool {
        match self {
            BitmapInfoFlagsAlpha::__Unknown(code) => alpha_from_code(code) is __Unknown,
            _ => true,
        }
    }
}

impl From<u32> for BitmapInfoFlagsAlpha {
    fn from(code: u32) -> (a: Self) {
        if code == ANDROID_BITMAP_FLAGS_ALPHA_PREMUL {
            BitmapInfoFlagsAlpha::Premultiplied
        } else if code == ANDROID_BITMAP_FLAGS_ALPHA_OPAQUE {
            BitmapInfoFlagsAlpha::Opaque
        } else if code == ANDROID_BITMAP_FLAGS_ALPHA_UNPREMUL {
            BitmapInfoFlagsAlpha::Unpremultiplied
        } else {
            BitmapInfoFlagsAlpha::__Unknown(code)
        }
    }
}

impl vstd::std_specs::convert::FromSpecImpl<u32> for BitmapInfoFlagsAlpha {
    open spec fn obeys_from_spec() -> bool {
        true
    }

    open spec fn from_spec(v: u32) -> Self {
        alpha_from_code(v)
    }
}

impl From<BitmapInfoFlagsAlpha> for u32 {
    fn from(a: BitmapInfoFlagsAlpha) -> (code: Self) {
        match a {
            BitmapInfoFlagsAlpha::Premultiplied => ANDROID_BITMAP_FLAGS_ALPHA_PREMUL,
            BitmapInfoFlagsAlpha::Opaque => ANDROID_BITMAP_FLAGS_ALPHA_OPAQUE,
            BitmapInfoFlagsAlpha::Unpremultiplied => ANDROID_BITMAP_FLAGS_ALPHA_UNPREMUL,
            BitmapInfoFlagsAlpha::__Unknown(code) => code,
        }
    }
}

impl vstd::std_specs::convert::FromSpecImpl<BitmapInfoFlagsAlpha> for u32 {
    open spec fn obeys_from_spec() -> bool {
        true
    }

    open spec fn from_spec(v: BitmapInfoFlagsAlpha) -> Self {
        alpha_code(v)
    }
}

/// Turning a value into an alpha variant and back gives the value again.
pub proof fn lemma_alpha_code_round_trip(code: u32)
    ensures
        alpha_code(alpha_from_code(code)) == code,
        alpha_from_code(code).is_canonical(),
{
}

/// Turning a canonical alpha variant into its value and back gives the variant again.
pub proof fn lemma_alpha_round_trip(a: BitmapInfoFlagsAlpha)
    requires
        a.is_canonical(),
    ensures
        alpha_from_code(alpha_code(a)) == a,
{
}

/// Bitfield containing information about the bitmap.
#[derive(Clone, Copy, Debug, Hash, PartialEq, Eq, Structural)]
pub struct BitmapInfoFlags(u32);

impl View for BitmapInfoFlags {
    type V = u32;

    closed spec fn view(&self) -> u32 {
        self.0
    }
}

/// The alpha value held in the alpha bits of a bitfield.
pub open spec fn flags_alpha(bits: u32) -> BitmapInfoFlagsAlpha {
    alpha_from_code(bits & ANDROID_BITMAP_FLAGS_ALPHA_MASK)
}

/// Whether the hardware bit of a bitfield is set.
pub open spec fn flags_is_hardware(bits: u32) -> bool {
    bits & ANDROID_BITMAP_FLAGS_IS_HARDWARE != 0
}

impl BitmapInfoFlags {
    /// The flags with exactly the given bits.
    pub fn from_bits(bits: u32) -> (f: Self)
        ensures
            f@ == bits,
    {
        BitmapInfoFlags(bits)
    }

    /// The bits of these flags.
    pub fn bits(self) -> (bits: u32)
        ensures
            bits == self@,
    {
        self.0
    }

    /// Returns the alpha value contained in the [`ANDROID_BITMAP_FLAGS_ALPHA_MASK`] bit range.
    pub fn alpha(self) -> (a: BitmapInfoFlagsAlpha)
        ensures
            a == flags_alpha(self@),
    {
        BitmapInfoFlagsAlpha::from(self.0 & ANDROID_BITMAP_FLAGS_ALPHA_MASK)
    }

    /// Returns [`true`] when [`ANDROID_BITMAP_FLAGS_IS_HARDWARE`] is set, meaning this
    /// bitmap uses "HARDWARE Config" and its hardware buffer can be retrieved.
    pub fn is_hardware(self) -> (hw: bool)
        ensures
            hw == flags_is_hardware(self@),
    {
        (self.0 & ANDROID_BITMAP_FLAGS_IS_HARDWARE) != 0
    }
}

/// The alpha value of a bitfield is never `__Unknown` but for the one value
/// of the alpha bits that has no name, and the hardware bit does not change it.
pub proof fn lemma_flags_fields_independent(bits: u32)
    ensures
        flags_alpha(bits) is __Unknown <==> bits & ANDROID_BITMAP_FLAGS_ALPHA_MASK == 3,
        flags_alpha(bits | ANDROID_BITMAP_FLAGS_IS_HARDWARE) == flags_alpha(bits),
        flags_alpha(bits & !ANDROID_BITMAP_FLAGS_IS_HARDWARE) == flags_alpha(bits),
        flags_is_hardware(bits | ANDROID_BITMAP_FLAGS_IS_HARDWARE),
        !flags_is_hardware(bits & !ANDROID_BITMAP_FLAGS_IS_HARDWARE),
        flags_is_hardware(bits | ANDROID_BITMAP_FLAGS_ALPHA_MASK) == flags_is_hardware(bits),
{
    assert(bits & 3u32 <= 3u32) by (bit_vector);
    assert((bits | 0x8000_0000u32) & 3u32 == bits & 3u32) by (bit_vector);
    assert((bits & !0x8000_0000u32) & 3u32 == bits & 3u32) by (bit_vector);
    assert((bits | 0x8000_0000u32) & 0x8000_0000u32 != 0u32) by (bit_vector);
    assert((bits & !0x8000_0000u32) & 0x8000_0000u32 == 0u32) by (bit_vector);
    assert(((bits | 3u32) & 0x8000_0000u32 != 0u32) == (bits & 0x8000_0000u32 != 0u32))
        by (bit_vector);
}

/// The plain fields of a native `AndroidBitmapInfo`: the pixel format as its
/// code and the flags as their bits.
#[derive(Clone, Copy, Debug, PartialEq, Eq, Structural)]
pub struct RawBitmapInfo {
    pub width: u32,
    pub height: u32,
    pub stride: u32,
    pub format: i32,
    pub flags: u32,
}

/// A native [`AndroidBitmapInfo`]
///
/// [`AndroidBitmapInfo`]: https://developer.android.com/ndk/reference/struct/android-bitmap-info#struct_android_bitmap_info
#[derive(Clone, Copy, Debug)]
pub struct BitmapInfo {
    inner: RawBitmapInfo,
}

impl View for BitmapInfo {
    type V = RawBitmapInfo;

    closed spec fn view(&self) -> RawBitmapInfo {
        self.inner
    }
}

/// The native fields that describe a bitmap of the given size, stride,
/// format and flag bits.
pub open spec fn raw_info(width: u32, height: u32, stride: u32, format: BitmapFormat, flags: u32) -> RawBitmapInfo {
    RawBitmapInfo { width, height, stride, format: format_code(format), flags }
}

impl BitmapInfo {
    /// Wraps the fields that the native `AndroidBitmap_getInfo` filled in.
    pub fn from_raw(raw: RawBitmapInfo) -> (info: Self)
        ensures
            info@ == raw,
    {
        BitmapInfo { inner: raw }
    }

    /// The native fields of this description.
    pub fn raw(&self) -> (raw: RawBitmapInfo)
        ensures
            raw == self@,
    {
        self.inner
    }

    pub fn new(width: u32, height: u32, stride: u32, format: BitmapFormat) -> (info: Self)
        ensures
            info@ == raw_info(width, height, stride, format, 0),
    {
        BitmapInfo {
            inner: RawBitmapInfo { width, height, stride, format: i32::from(format), flags: 0 },
        }
    }

    pub fn new_with_flags(
        width: u32,
        height: u32,
        stride: u32,
        format: BitmapFormat,
        flags: BitmapInfoFlags,
    ) -> (info: Self)
        ensures
            info@ == raw_info(width, height, stride, format, flags@),
    {
        let base = Self::new(width, height, stride, format);
        BitmapInfo { inner: RawBitmapInfo { flags: flags.bits(), ..base.inner } }
    }

    /// The bitmap width in pixels.
    pub fn width(&self) -> (w: u32)
        ensures
            w == self@.width,
    {
        self.inner.width
    }

    /// The bitmap height in pixels.
    pub fn height(&self) -> (h: u32)
        ensures
            h == self@.height,
    {
        self.inner.height
    }

    /// The number of byte per row.
    pub fn stride(&self) -> (s: u32)
        ensures
            s == self@.stride,
    {
        self.inner.stride
    }

    /// Convert the internal, native format code into a [`BitmapFormat`].
    pub fn format(&self) -> (f: BitmapFormat)
        ensures
            f == format_from_code(self@.format),
    {
        BitmapFormat::from(self.inner.format)
    }

    /// Bitfield containing information about the bitmap.
    pub fn flags(&self) -> (f: BitmapInfoFlags)
        ensures
            f@ == self@.flags,
    {
        BitmapInfoFlags(self.inner.flags)
    }
}

/// A description made with [`BitmapInfo::new_with_flags`] gives back the size,
/// stride and flags it was made with, and its format when that format is one
/// that reading a code can give (every named format is); [`BitmapInfo::new`]
/// is the same with no flag set.
pub proof fn lemma_info_reads_back(width: u32, height: u32, stride: u32, format: BitmapFormat, flags: u32)
    requires
        format.is_canonical(),
    ensures
        raw_info(width, height, stride, format, flags).width == width,
        raw_info(width, height, stride, format, flags).height == height,
        raw_info(width, height, stride, format, flags).stride == stride,
        format_from_code(raw_info(width, height, stride, format, flags).format) == format,
        raw_info(width, height, stride, format, flags).flags == flags,
        !flags_is_hardware(raw_info(width, height, stride, format, 0).flags),
        flags_alpha(raw_info(width, height, stride, format, 0).flags) is Premultiplied,
{
    assert(0u32 & 0x8000_0000u32 == 0u32) by (bit_vector);
    assert(0u32 & 3u32 == 0u32) by (bit_vector);
}

/// Flags with the same bits are the same flags.
pub proof fn lemma_flags_view_eq(a: BitmapInfoFlags, b: BitmapInfoFlags)
    requires
        a@ == b@,
    ensures
        a == b,
{
}

/// Descriptions with the same native fields are the same description.
pub proof fn lemma_info_view_eq(a: BitmapInfo, b: BitmapInfo)
    requires
        a@ == b@,
    ensures
        a == b,
{
}

} // verus!

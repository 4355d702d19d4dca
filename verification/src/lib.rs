//! Bitmap descriptions, pixel formats and result codes of the Android NDK
//! bitmap interface (`AndroidBitmap_*`), with the decisions that surround the
//! native calls stated and proved.

pub mod compress;
pub mod error;
pub mod format;
pub mod info;

pub use error::{
    BitmapError, Result, ANDROID_BITMAP_RESULT_ALLOCATION_FAILED,
    ANDROID_BITMAP_RESULT_BAD_PARAMETER, ANDROID_BITMAP_RESULT_JNI_EXCEPTION,
    ANDROID_BITMAP_RESULT_SUCCESS,
};
pub use format::{BitmapCompressFormat, BitmapFormat};
pub use info::{BitmapInfo, BitmapInfoFlags, BitmapInfoFlagsAlpha, RawBitmapInfo};
pub use compress::{
    BitmapCompressError, CompressAction, CompressEvent, CompressRawAction, CompressState,
};

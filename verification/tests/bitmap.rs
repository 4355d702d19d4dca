use ndk_bitmap::compress::{compress_raw_plan, compress_start, compress_status, ADATASPACE_UNKNOWN};
use ndk_bitmap::format::{ANDROID_BITMAP_FORMAT_RGBA_1010102, ANDROID_BITMAP_FORMAT_RGB_565};
use ndk_bitmap::info::ANDROID_BITMAP_FLAGS_IS_HARDWARE;
use ndk_bitmap::{
    BitmapCompressError, BitmapCompressFormat, BitmapError, BitmapFormat, BitmapInfo,
    BitmapInfoFlags, BitmapInfoFlagsAlpha, CompressAction, CompressEvent, CompressRawAction, CompressState,
    RawBitmapInfo,
};

#[test]
fn from_status_success_is_ok() {
    assert_eq!(BitmapError::from_status(0), Ok(()));
}

#[test]
fn from_status_named_errors() {
    assert_eq!(BitmapError::from_status(-1), Err(BitmapError::BadParameter));
    assert_eq!(BitmapError::from_status(-2), Err(BitmapError::JniException));
    assert_eq!(BitmapError::from_status(-3), Err(BitmapError::AllocationFailed));
}

#[test]
fn from_status_unknown_keeps_code() {
    assert_eq!(BitmapError::from_status(-7), Err(BitmapError::__Unknown(-7)));
    assert_eq!(BitmapError::from_status(5), Err(BitmapError::__Unknown(5)));
}

#[test]
fn error_code_round_trip() {
    for code in [-4, -3, -2, -1, 0, 1, 42, i32::MIN, i32::MAX] {
        assert_eq!(i32::from(BitmapError::from(code)), code);
    }
    for e in [BitmapError::AllocationFailed, BitmapError::BadParameter, BitmapError::JniException, BitmapError::__Unknown(9)] {
        assert_eq!(BitmapError::from(i32::from(e)), e);
    }
}

#[test]
fn non_canonical_error_does_not_round_trip() {
    // `__Unknown` holding a named code comes back as the named variant.
    assert_eq!(BitmapError::from(i32::from(BitmapError::__Unknown(-1))), BitmapError::BadParameter);
}

#[test]
fn format_codes() {
    assert_eq!(BitmapFormat::from(0), BitmapFormat::NONE);
    assert_eq!(BitmapFormat::from(1), BitmapFormat::RGBA_8888);
    assert_eq!(BitmapFormat::from(4), BitmapFormat::RGB_565);
    assert_eq!(BitmapFormat::from(7), BitmapFormat::RGBA_4444);
    assert_eq!(BitmapFormat::from(8), BitmapFormat::A_8);
    assert_eq!(BitmapFormat::from(9), BitmapFormat::RGBA_F16);
    assert_eq!(BitmapFormat::from(10), BitmapFormat::RGBA_1010102);
    assert_eq!(BitmapFormat::from(11), BitmapFormat::__Unknown(11));
    assert_eq!(i32::from(BitmapFormat::RGB_565), ANDROID_BITMAP_FORMAT_RGB_565);
    assert_eq!(i32::from(BitmapFormat::RGBA_1010102), ANDROID_BITMAP_FORMAT_RGBA_1010102);
    assert_eq!(i32::from(BitmapFormat::__Unknown(-5)), -5);
}

#[test]
fn format_round_trip() {
    for code in -3..16 {
        assert_eq!(i32::from(BitmapFormat::from(code)), code);
    }
    for f in [BitmapFormat::NONE, BitmapFormat::RGBA_8888, BitmapFormat::RGB_565, BitmapFormat::RGBA_4444,
        BitmapFormat::A_8, BitmapFormat::RGBA_F16, BitmapFormat::RGBA_1010102, BitmapFormat::__Unknown(2)] {
        assert_eq!(BitmapFormat::from(i32::from(f)), f);
    }
}

#[test]
fn compress_format_codes() {
    assert_eq!(BitmapCompressFormat::from(0), BitmapCompressFormat::Jpeg);
    assert_eq!(BitmapCompressFormat::from(1), BitmapCompressFormat::Png);
    assert_eq!(BitmapCompressFormat::from(2), BitmapCompressFormat::__Unknown(2));
    assert_eq!(BitmapCompressFormat::from(3), BitmapCompressFormat::WebPLossy);
    assert_eq!(BitmapCompressFormat::from(4), BitmapCompressFormat::WebPLossless);
    assert_eq!(i32::from(BitmapCompressFormat::WebPLossless), 4);
    for code in -2..8 {
        assert_eq!(i32::from(BitmapCompressFormat::from(code)), code);
    }
}

#[test]
fn alpha_values() {
    assert!(matches!(BitmapInfoFlagsAlpha::from(0), BitmapInfoFlagsAlpha::Premultiplied));
    assert!(matches!(BitmapInfoFlagsAlpha::from(1), BitmapInfoFlagsAlpha::Opaque));
    assert!(matches!(BitmapInfoFlagsAlpha::from(2), BitmapInfoFlagsAlpha::Unpremultiplied));
    assert!(matches!(BitmapInfoFlagsAlpha::from(3), BitmapInfoFlagsAlpha::__Unknown(3)));
    assert_eq!(u32::from(BitmapInfoFlagsAlpha::Unpremultiplied), 2);
    assert_eq!(u32::from(BitmapInfoFlagsAlpha::__Unknown(77)), 77);
}

#[test]
fn flags_alpha_and_hardware() {
    let f = BitmapInfoFlags::from_bits(0x8000_0001);
    assert!(f.is_hardware());
    assert!(matches!(f.alpha(), BitmapInfoFlagsAlpha::Opaque));
    let g = BitmapInfoFlags::from_bits(0x0000_0106);
    assert!(!g.is_hardware());
    assert!(matches!(g.alpha(), BitmapInfoFlagsAlpha::Unpremultiplied));
    let h = BitmapInfoFlags::from_bits(0x7fff_ffff);
    assert!(!h.is_hardware());
    assert!(matches!(h.alpha(), BitmapInfoFlagsAlpha::__Unknown(3)));
    assert_eq!(BitmapInfoFlags::from_bits(ANDROID_BITMAP_FLAGS_IS_HARDWARE).bits(), 0x8000_0000);
}

#[test]
fn hardware_bit_does_not_change_alpha() {
    for bits in [0u32, 1, 2, 3, 0x1234_5678, 0x7fff_fffe] {
        let plain = BitmapInfoFlags::from_bits(bits & !ANDROID_BITMAP_FLAGS_IS_HARDWARE);
        let hw = BitmapInfoFlags::from_bits(bits | ANDROID_BITMAP_FLAGS_IS_HARDWARE);
        assert!(hw.is_hardware());
        assert!(!plain.is_hardware());
        assert_eq!(u32::from(hw.alpha()), u32::from(plain.alpha()));
    }
}

#[test]
fn info_new_reads_back() {
    let info = BitmapInfo::new(640, 480, 2560, BitmapFormat::RGBA_8888);
    assert_eq!(info.width(), 640);
    assert_eq!(info.height(), 480);
    assert_eq!(info.stride(), 2560);
    assert_eq!(info.format(), BitmapFormat::RGBA_8888);
    assert_eq!(info.flags(), BitmapInfoFlags::from_bits(0));
    assert!(!info.flags().is_hardware());
    assert!(matches!(info.flags().alpha(), BitmapInfoFlagsAlpha::Premultiplied));
    assert_eq!(
        info.raw(),
        RawBitmapInfo { width: 640, height: 480, stride: 2560, format: 1, flags: 0 }
    );
}

#[test]
fn info_new_with_flags_reads_back() {
    let flags = BitmapInfoFlags::from_bits(0x8000_0002);
    let info = BitmapInfo::new_with_flags(16, 8, 32, BitmapFormat::RGB_565, flags);
    assert_eq!(info.width(), 16);
    assert_eq!(info.height(), 8);
    assert_eq!(info.stride(), 32);
    assert_eq!(info.format(), BitmapFormat::RGB_565);
    assert_eq!(info.flags(), flags);
    assert!(info.flags().is_hardware());
}

#[test]
fn info_from_raw_unknown_format() {
    let raw = RawBitmapInfo { width: 1, height: 2, stride: 3, format: 5, flags: 1 };
    let info = BitmapInfo::from_raw(raw);
    assert_eq!(info.format(), BitmapFormat::__Unknown(5));
    assert_eq!(info.raw(), raw);
    assert!(matches!(info.flags().alpha(), BitmapInfoFlagsAlpha::Opaque));
}

#[test]
fn compress_raw_plan_refuses_unknown_data_space() {
    assert!(matches!(
        compress_raw_plan(ADATASPACE_UNKNOWN),
        CompressRawAction::Finish(Err(BitmapCompressError::DataSpaceUnknown))
    ));
    assert!(matches!(compress_raw_plan(142671872), CompressRawAction::CallCompressor));
}

#[test]
fn compress_status_maps_codes() {
    assert!(matches!(compress_status(0), Ok(())));
    assert!(matches!(compress_status(-3), Err(BitmapCompressError::BitmapError(BitmapError::AllocationFailed))));
    assert!(matches!(compress_status(12), Err(BitmapCompressError::BitmapError(BitmapError::__Unknown(12)))));
}

#[test]
fn compress_error_from_bitmap_error() {
    assert!(matches!(
        BitmapCompressError::from(BitmapError::BadParameter),
        BitmapCompressError::BitmapError(BitmapError::BadParameter)
    ));
}

fn step(s: CompressState, e: CompressEvent) -> (CompressState, CompressAction) {
    ndk_bitmap::compress::compress_step(s, e)
}

#[test]
fn compress_run_success() {
    let info = BitmapInfo::new(2, 2, 8, BitmapFormat::RGBA_8888);
    let (s, a) = compress_start();
    assert!(matches!(a, CompressAction::QueryInfo));
    let (s, a) = step(s, CompressEvent::InfoQueried(Ok(info)));
    assert!(matches!(a, CompressAction::QueryDataSpace));
    let (s, a) = step(s, CompressEvent::DataSpaceQueried(7));
    assert!(matches!(a, CompressAction::LockPixels));
    let (s, a) = step(s, CompressEvent::PixelsLocked(Ok(())));
    match a {
        CompressAction::CompressPixels { info: i, data_space } => {
            assert_eq!(i.width(), 2);
            assert_eq!(data_space, 7);
        }
        _ => panic!("expected a compression"),
    }
    let (s, a) = step(s, CompressEvent::PixelsCompressed(Ok(())));
    assert!(matches!(a, CompressAction::UnlockPixels));
    let (s, a) = step(s, CompressEvent::PixelsUnlocked(Ok(())));
    assert!(matches!(a, CompressAction::Finish(Ok(()))));
    assert!(matches!(s, CompressState::Done));
}

#[test]
fn compress_run_info_failure_stops() {
    let (s, _) = compress_start();
    let (s, a) = step(s, CompressEvent::InfoQueried(Err(BitmapError::JniException)));
    assert!(matches!(a, CompressAction::Finish(Err(BitmapCompressError::BitmapError(BitmapError::JniException)))));
    assert!(matches!(s, CompressState::Done));
}

#[test]
fn compress_run_lock_failure_stops_without_unlock() {
    let info = BitmapInfo::new(1, 1, 4, BitmapFormat::RGBA_8888);
    let (s, _) = compress_start();
    let (s, _) = step(s, CompressEvent::InfoQueried(Ok(info)));
    let (s, _) = step(s, CompressEvent::DataSpaceQueried(7));
    let (s, a) = step(s, CompressEvent::PixelsLocked(Err(BitmapError::AllocationFailed)));
    assert!(matches!(a, CompressAction::Finish(Err(BitmapCompressError::BitmapError(BitmapError::AllocationFailed)))));
    assert!(matches!(s, CompressState::Done));
}

#[test]
fn compress_run_unknown_data_space_still_unlocks() {
    let info = BitmapInfo::new(1, 1, 4, BitmapFormat::RGBA_8888);
    let (s, _) = compress_start();
    let (s, _) = step(s, CompressEvent::InfoQueried(Ok(info)));
    let (s, _) = step(s, CompressEvent::DataSpaceQueried(ADATASPACE_UNKNOWN));
    let (s, a) = step(s, CompressEvent::PixelsLocked(Ok(())));
    // The compressor is skipped: the next call is the unlock.
    assert!(matches!(a, CompressAction::UnlockPixels));
    assert!(s.accepts(&CompressEvent::PixelsUnlocked(Ok(()))));
    assert!(!s.accepts(&CompressEvent::PixelsCompressed(Ok(()))));
    let (_, a) = step(s, CompressEvent::PixelsUnlocked(Ok(())));
    assert!(matches!(a, CompressAction::Finish(Err(BitmapCompressError::DataSpaceUnknown))));
}

#[test]
fn compress_run_unlock_failure_wins() {
    let info = BitmapInfo::new(1, 1, 4, BitmapFormat::RGBA_8888);
    let (s, _) = compress_start();
    let (s, _) = step(s, CompressEvent::InfoQueried(Ok(info)));
    let (s, _) = step(s, CompressEvent::DataSpaceQueried(7));
    let (s, _) = step(s, CompressEvent::PixelsLocked(Ok(())));
    let (s, _) = step(s, CompressEvent::PixelsCompressed(Err(BitmapCompressError::DataSpaceUnknown)));
    let (_, a) = step(s, CompressEvent::PixelsUnlocked(Err(BitmapError::BadParameter)));
    assert!(matches!(a, CompressAction::Finish(Err(BitmapCompressError::BitmapError(BitmapError::BadParameter)))));
}

#[test]
fn compress_run_panic_still_unlocks() {
    let info = BitmapInfo::new(1, 1, 4, BitmapFormat::RGBA_8888);
    let (s, _) = compress_start();
    let (s, _) = step(s, CompressEvent::InfoQueried(Ok(info)));
    let (s, _) = step(s, CompressEvent::DataSpaceQueried(7));
    let (s, _) = step(s, CompressEvent::PixelsLocked(Ok(())));
    let (s, a) = step(s, CompressEvent::CompressPanicked);
    assert!(matches!(a, CompressAction::UnlockPixels));
    assert!(matches!(s, CompressState::UnlockingAfterPanic));
    let (s, a) = step(s, CompressEvent::PixelsUnlocked(Err(BitmapError::JniException)));
    assert!(matches!(a, CompressAction::ResumePanic));
    assert!(matches!(s, CompressState::Done));
}

#[test]
fn compress_run_unknown_data_space_unlock_failure_wins() {
    let info = BitmapInfo::new(1, 1, 4, BitmapFormat::RGBA_8888);
    let (s, _) = compress_start();
    let (s, _) = step(s, CompressEvent::InfoQueried(Ok(info)));
    let (s, _) = step(s, CompressEvent::DataSpaceQueried(ADATASPACE_UNKNOWN));
    let (s, _) = step(s, CompressEvent::PixelsLocked(Ok(())));
    let (_, a) = step(s, CompressEvent::PixelsUnlocked(Err(BitmapError::BadParameter)));
    assert!(matches!(a, CompressAction::Finish(Err(BitmapCompressError::BitmapError(BitmapError::BadParameter)))));
}

#[test]
fn state_accepts_only_its_report() {
    let (s, _) = compress_start();
    assert!(s.accepts(&CompressEvent::InfoQueried(Err(BitmapError::BadParameter))));
    assert!(!s.accepts(&CompressEvent::DataSpaceQueried(7)));
    assert!(!s.accepts(&CompressEvent::CompressPanicked));
}

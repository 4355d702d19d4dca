use vstd::prelude::*;

use crate::error::{error_from_code, status_result, BitmapError, ANDROID_BITMAP_RESULT_SUCCESS};
use crate::info::BitmapInfo;

verus! {

/// Code of the unknown data space (`ADATASPACE_UNKNOWN`).
pub const ADATASPACE_UNKNOWN: i32 = 0;

/// Encapsulates possible errors returned by bitmap compression.
#[derive(Debug)]
pub enum BitmapCompressError {
    BitmapError(BitmapError),
    /// Bitmap compression requires a known data space. The unknown data space
    /// is invalid even though it is typically treated as `sRGB`: for that, the
    /// `sRGB` data space has to be passed explicitly.
    DataSpaceUnknown,
}

impl From<BitmapError> for BitmapCompressError {
    fn from(e: BitmapError) -> (c: Self) {
        BitmapCompressError::BitmapError(e)
    }
}

impl vstd::std_specs::convert::FromSpecImpl<BitmapError> for BitmapCompressError {
    open spec fn obeys_from_spec() -> bool {
        true
    }

    open spec fn from_spec(v: BitmapError) -> Self {
        BitmapCompressError::BitmapError(v)
    }
}

/// A bitmap result with its error taken as a compression error.
pub open spec fn lift_result(r: Result<(), BitmapError>) -> Result<(), BitmapCompressError> {
    match r {
        Ok(()) => Ok(()),
        Err(e) => Err(BitmapCompressError::BitmapError(e)),
    }
}

/// What compressing pixels does first: with the unknown data space it
/// returns `Err(DataSpaceUnknown)` at once, without calling the native
/// compressor; with any other data space it calls the compressor.
pub enum CompressRawAction {
    CallCompressor,
    Finish(Result<(), BitmapCompressError>),
}

/// The first step of compressing pixels in a data space.
pub open spec fn compress_raw_first(data_space: i32) -> CompressRawAction {
    if data_space == ADATASPACE_UNKNOWN {
        CompressRawAction::Finish(Err(BitmapCompressError::DataSpaceUnknown))
    } else {
        CompressRawAction::CallCompressor
    }
}

/// Decides whether compressing pixels in `data_space` calls the native
/// compressor: it does exactly for a known data space, and for the unknown
/// one the result is `Err(DataSpaceUnknown)`.
pub fn compress_raw_plan(data_space: i32) -> (r: CompressRawAction)
    ensures
        r == compress_raw_first(data_space),
        r is CallCompressor <==> data_space != ADATASPACE_UNKNOWN,
{
    if data_space == ADATASPACE_UNKNOWN {
        CompressRawAction::Finish(Err(BitmapCompressError::DataSpaceUnknown))
    } else {
        CompressRawAction::CallCompressor
    }
}

/// What compressing pixels yields once the native compressor has returned
/// its status code.
pub fn compress_status(status: i32) -> (r: Result<(), BitmapCompressError>)
    ensures
        r == lift_result(status_result(status)),
        r is Ok <==> status == ANDROID_BITMAP_RESULT_SUCCESS,
        r matches Err(e) ==> e == BitmapCompressError::BitmapError(error_from_code(status)),
{
    match BitmapError::from_status(status) {
        Ok(()) => Ok(()),
        Err(e) => Err(BitmapCompressError::from(e)),
    }
}

/// Where a compression of a locked bitmap stands, between two native calls.
pub enum CompressState {
    /// Waiting for the bitmap's description.
    QueryingInfo,
    /// Waiting for the bitmap's data space.
    QueryingDataSpace { info: BitmapInfo },
    /// Waiting for the pixels to be locked.
    Locking { info: BitmapInfo, data_space: i32 },
    /// The pixels are locked; waiting for the compressor.
    Compressing,
    /// The compressor has returned; waiting for the pixels to be unlocked.
    Unlocking { result: Result<(), BitmapCompressError> },
    /// The compressor's write callback panicked; waiting for the pixels to be
    /// unlocked before the panic goes on.
    UnlockingAfterPanic,
    /// Nothing is left to do.
    Done,
}

/// What a native call reported back.
pub enum CompressEvent {
    InfoQueried(Result<BitmapInfo, BitmapError>),
    DataSpaceQueried(i32),
    PixelsLocked(Result<(), BitmapError>),
    PixelsCompressed(Result<(), BitmapCompressError>),
    /// The compressor did not return: its write callback panicked.
    CompressPanicked,
    PixelsUnlocked(Result<(), BitmapError>),
}

/// The native call to make next, or the result to return.
pub enum CompressAction {
    QueryInfo,
    QueryDataSpace,
    LockPixels,
    /// Compress the locked pixels, described by `info`, in `data_space`.
    CompressPixels { info: BitmapInfo, data_space: i32 },
    UnlockPixels,
    Finish(Result<(), BitmapCompressError>),
    /// Let the panic of the write callback go on.
    ResumePanic,
}

impl CompressState {
    /// Whether `event` is the report of the call that this state waits for.
    pub open spec fn expects(self, event: CompressEvent) -> bool {
        match self {
            CompressState::QueryingInfo => event is InfoQueried,
            CompressState::QueryingDataSpace { .. } => event is DataSpaceQueried,
            CompressState::Locking { .. } => event is PixelsLocked,
            CompressState::Compressing => event is PixelsCompressed || event is CompressPanicked,
            CompressState::Unlocking { .. } => event is PixelsUnlocked,
            CompressState::UnlockingAfterPanic => event is PixelsUnlocked,
            CompressState::Done => false,
        }
    }
}

impl CompressState {
    /// Tells whether `event` is the report of the call that this state waits for.
    pub fn accepts(&self, event: &CompressEvent) -> (r: bool)
        ensures
            r == self.expects(*event),
    {
        match self {
            CompressState::QueryingInfo => matches!(event, CompressEvent::InfoQueried(_)),
            CompressState::QueryingDataSpace { .. } => matches!(event, CompressEvent::DataSpaceQueried(_)),
            CompressState::Locking { .. } => matches!(event, CompressEvent::PixelsLocked(_)),
            CompressState::Compressing => matches!(event, CompressEvent::PixelsCompressed(_))
                || matches!(event, CompressEvent::CompressPanicked),
            CompressState::Unlocking { .. } => matches!(event, CompressEvent::PixelsUnlocked(_)),
            CompressState::UnlockingAfterPanic => matches!(event, CompressEvent::PixelsUnlocked(_)),
            CompressState::Done => false,
        }
    }
}

/// The state and action that follow a state on a reported event.
pub open spec fn compress_next(state: CompressState, event: CompressEvent) -> (CompressState, CompressAction) {
    match (state, event) {
        (CompressState::QueryingInfo, CompressEvent::InfoQueried(r)) => match r {
            Ok(info) => (CompressState::QueryingDataSpace { info }, CompressAction::QueryDataSpace),
            Err(e) => (CompressState::Done, CompressAction::Finish(Err(BitmapCompressError::BitmapError(e)))),
        },
        (CompressState::QueryingDataSpace { info }, CompressEvent::DataSpaceQueried(data_space)) => (
            CompressState::Locking { info, data_space },
            CompressAction::LockPixels,
        ),
        (CompressState::Locking { info, data_space }, CompressEvent::PixelsLocked(r)) => match r {
            Ok(()) => if data_space == ADATASPACE_UNKNOWN {
                (
                    CompressState::Unlocking { result: Err(BitmapCompressError::DataSpaceUnknown) },
                    CompressAction::UnlockPixels,
                )
            } else {
                (CompressState::Compressing, CompressAction::CompressPixels { info, data_space })
            },
            Err(e) => (CompressState::Done, CompressAction::Finish(Err(BitmapCompressError::BitmapError(e)))),
        },
        (CompressState::Compressing, CompressEvent::PixelsCompressed(result)) => (
            CompressState::Unlocking { result },
            CompressAction::UnlockPixels,
        ),
        (CompressState::Compressing, CompressEvent::CompressPanicked) => (
            CompressState::UnlockingAfterPanic,
            CompressAction::UnlockPixels,
        ),
        (CompressState::UnlockingAfterPanic, CompressEvent::PixelsUnlocked(_)) => (
            CompressState::Done,
            CompressAction::ResumePanic,
        ),
        (CompressState::Unlocking { result }, CompressEvent::PixelsUnlocked(r)) => match r {
            Ok(()) => (CompressState::Done, CompressAction::Finish(result)),
            Err(e) => (CompressState::Done, CompressAction::Finish(Err(BitmapCompressError::BitmapError(e)))),
        },
        _ => (CompressState::Done, CompressAction::Finish(Ok(()))),
    }
}

/// What compressing a bitmap returns, given what each native call reported:
/// the first failure among describing and locking; else the failure to
/// unlock; else `DataSpaceUnknown` for the unknown data space; else what the
/// compressor returned.
pub open spec fn compress_outcome(
    info: Result<BitmapInfo, BitmapError>,
    data_space: i32,
    lock: Result<(), BitmapError>,
    compressed: Result<(), BitmapCompressError>,
    unlock: Result<(), BitmapError>,
) -> Result<(), BitmapCompressError> {
    match info {
        Err(e) => Err(BitmapCompressError::BitmapError(e)),
        Ok(_) => match lock {
            Err(e) => Err(BitmapCompressError::BitmapError(e)),
            Ok(()) => match unlock {
                Err(e) => Err(BitmapCompressError::BitmapError(e)),
                Ok(()) => if data_space == ADATASPACE_UNKNOWN {
                    Err(BitmapCompressError::DataSpaceUnknown)
                } else {
                    compressed
                },
            },
        },
    }
}

/// The first state of a compression, and its first call: describe the bitmap.
pub fn compress_start() -> (r: (CompressState, CompressAction))
    ensures
        r.0 is QueryingInfo,
        r.1 is QueryInfo,
{
    (CompressState::QueryingInfo, CompressAction::QueryInfo)
}

/// Takes the report of the call that `state` waits for and says what comes
/// next: the pixels are compressed only once locked and only in a known data
/// space, and once locked they are always unlocked before the result is
/// returned.
pub fn compress_step(state: CompressState, event: CompressEvent) -> (r: (CompressState, CompressAction))
    requires
        state.expects(event),
    ensures
        r == compress_next(state, event),
        (r.1 is Finish || r.1 is ResumePanic) <==> r.0 is Done,
        r.1 is ResumePanic <==> state is UnlockingAfterPanic,
        r.1 is UnlockPixels <==> (state is Compressing || (state matches CompressState::Locking { data_space, .. }
            && data_space == ADATASPACE_UNKNOWN && event matches CompressEvent::PixelsLocked(Ok(_)))),
        r.1 is CompressPixels <==> (state matches CompressState::Locking { data_space, .. }
            && data_space != ADATASPACE_UNKNOWN && event matches CompressEvent::PixelsLocked(Ok(_))),
        r.1 matches CompressAction::CompressPixels { data_space, .. } ==> data_space != ADATASPACE_UNKNOWN,
{
    match state {
        CompressState::QueryingInfo => match event {
            CompressEvent::InfoQueried(Ok(info)) => (
                CompressState::QueryingDataSpace { info },
                CompressAction::QueryDataSpace,
            ),
            CompressEvent::InfoQueried(Err(e)) => (
                CompressState::Done,
                CompressAction::Finish(Err(BitmapCompressError::from(e))),
            ),
            _ => (CompressState::Done, CompressAction::Finish(Ok(()))),
        },
        CompressState::QueryingDataSpace { info } => match event {
            CompressEvent::DataSpaceQueried(data_space) => (
                CompressState::Locking { info, data_space },
                CompressAction::LockPixels,
            ),
            _ => (CompressState::Done, CompressAction::Finish(Ok(()))),
        },
        CompressState::Locking { info, data_space } => match event {
            CompressEvent::PixelsLocked(Ok(())) => match compress_raw_plan(data_space) {
                CompressRawAction::Finish(result) => (
                    CompressState::Unlocking { result },
                    CompressAction::UnlockPixels,
                ),
                CompressRawAction::CallCompressor => (
                    CompressState::Compressing,
                    CompressAction::CompressPixels { info, data_space },
                ),
            },
            CompressEvent::PixelsLocked(Err(e)) => (
                CompressState::Done,
                CompressAction::Finish(Err(BitmapCompressError::from(e))),
            ),
            _ => (CompressState::Done, CompressAction::Finish(Ok(()))),
        },
        CompressState::Compressing => match event {
            CompressEvent::PixelsCompressed(result) => (
                CompressState::Unlocking { result },
                CompressAction::UnlockPixels,
            ),
            CompressEvent::CompressPanicked => (
                CompressState::UnlockingAfterPanic,
                CompressAction::UnlockPixels,
            ),
            _ => (CompressState::Done, CompressAction::Finish(Ok(()))),
        },
        CompressState::Unlocking { result } => match event {
            CompressEvent::PixelsUnlocked(Ok(())) => (CompressState::Done, CompressAction::Finish(result)),
            CompressEvent::PixelsUnlocked(Err(e)) => (
                CompressState::Done,
                CompressAction::Finish(Err(BitmapCompressError::from(e))),
            ),
            _ => (CompressState::Done, CompressAction::Finish(Ok(()))),
        },
        CompressState::UnlockingAfterPanic => match event {
            CompressEvent::PixelsUnlocked(_) => (CompressState::Done, CompressAction::ResumePanic),
            _ => (CompressState::Done, CompressAction::Finish(Ok(()))),
        },
        CompressState::Done => (CompressState::Done, CompressAction::Finish(Ok(()))),
    }
}

/// A compression run, fed the reports of the calls it asks for, asks for
/// them in the order describe, data space, lock, compress, unlock; stops
/// early only when describing or locking fails; compresses exactly the
/// described bitmap in the reported data space, and only when that data space
/// is known; unlocks whenever it locked; and returns [`compress_outcome`] of
/// the reports. (When the compressor panics instead of returning, see
/// [`lemma_compress_run_panicked`].)
pub proof fn lemma_compress_run(
    info: Result<BitmapInfo, BitmapError>,
    data_space: i32,
    lock: Result<(), BitmapError>,
    compressed: Result<(), BitmapCompressError>,
    unlock: Result<(), BitmapError>,
)
    ensures
        ({
            let outcome = compress_outcome(info, data_space, lock, compressed, unlock);
            let s1 = CompressState::QueryingInfo;
            let (s2, a2) = compress_next(s1, CompressEvent::InfoQueried(info));
            let (s3, a3) = compress_next(s2, CompressEvent::DataSpaceQueried(data_space));
            let (s4, a4) = compress_next(s3, CompressEvent::PixelsLocked(lock));
            let (s5, a5) = compress_next(s4, CompressEvent::PixelsCompressed(compressed));
            let (s6, a6) = compress_next(s5, CompressEvent::PixelsUnlocked(unlock));
            let (u5, b5) = compress_next(s4, CompressEvent::PixelsUnlocked(unlock));
            &&& s1.expects(CompressEvent::InfoQueried(info))
            &&& info is Err ==> a2 == CompressAction::Finish(outcome)
            &&& info matches Ok(i) ==> {
                &&& a2 is QueryDataSpace
                &&& s2.expects(CompressEvent::DataSpaceQueried(data_space))
                &&& a3 is LockPixels
                &&& s3.expects(CompressEvent::PixelsLocked(lock))
                &&& lock is Err ==> a4 == CompressAction::Finish(outcome)
                &&& (lock is Ok && data_space != ADATASPACE_UNKNOWN) ==> {
                    &&& a4 == CompressAction::CompressPixels { info: i, data_space }
                    &&& s4.expects(CompressEvent::PixelsCompressed(compressed))
                    &&& a5 is UnlockPixels
                    &&& s5.expects(CompressEvent::PixelsUnlocked(unlock))
                    &&& a6 == CompressAction::Finish(outcome)
                }
                &&& (lock is Ok && data_space == ADATASPACE_UNKNOWN) ==> {
                    &&& a4 is UnlockPixels
                    &&& s4.expects(CompressEvent::PixelsUnlocked(unlock))
                    &&& b5 == CompressAction::Finish(outcome)
                    &&& u5 is Done
                }
            }
        }),
{
}

/// A successful lock is balanced by an unlock also when the compressor's
/// write callback panics: the run then asks to unlock the pixels, and only
/// after the unlock, whatever it reports, lets the panic go on.
pub proof fn lemma_compress_run_panicked(
    info: BitmapInfo,
    data_space: i32,
    unlock: Result<(), BitmapError>,
)
    requires
        data_space != ADATASPACE_UNKNOWN,
    ensures
        ({
            let s1 = CompressState::QueryingInfo;
            let (s2, a2) = compress_next(s1, CompressEvent::InfoQueried(Ok(info)));
            let (s3, a3) = compress_next(s2, CompressEvent::DataSpaceQueried(data_space));
            let (s4, a4) = compress_next(s3, CompressEvent::PixelsLocked(Ok(())));
            let (s5, a5) = compress_next(s4, CompressEvent::CompressPanicked);
            let (s6, a6) = compress_next(s5, CompressEvent::PixelsUnlocked(unlock));
            &&& s1.expects(CompressEvent::InfoQueried(Ok(info)))
            &&& s2.expects(CompressEvent::DataSpaceQueried(data_space))
            &&& s3.expects(CompressEvent::PixelsLocked(Ok(())))
            &&& a4 == CompressAction::CompressPixels { info, data_space }
            &&& s4.expects(CompressEvent::CompressPanicked)
            &&& a5 is UnlockPixels
            &&& s5.expects(CompressEvent::PixelsUnlocked(unlock))
            &&& a6 is ResumePanic
            &&& s6 is Done
        }),
{
}

/// Each waiting state takes the report of its own call whatever that report
/// holds (success or failure, any description, data space or result), and
/// takes no report of another call; a finished run takes no report at all.
pub proof fn lemma_states_take_their_reports(
    info_result: Result<BitmapInfo, BitmapError>,
    info: BitmapInfo,
    data_space: i32,
    reported: Result<(), BitmapError>,
    compressed: Result<(), BitmapCompressError>,
    result: Result<(), BitmapCompressError>,
    event: CompressEvent,
)
    ensures
        CompressState::QueryingInfo.expects(CompressEvent::InfoQueried(info_result)),
        (CompressState::QueryingDataSpace { info }).expects(CompressEvent::DataSpaceQueried(data_space)),
        (CompressState::Locking { info, data_space }).expects(CompressEvent::PixelsLocked(reported)),
        CompressState::Compressing.expects(CompressEvent::PixelsCompressed(compressed)),
        CompressState::Compressing.expects(CompressEvent::CompressPanicked),
        (CompressState::Unlocking { result }).expects(CompressEvent::PixelsUnlocked(reported)),
        CompressState::UnlockingAfterPanic.expects(CompressEvent::PixelsUnlocked(reported)),
        CompressState::QueryingInfo.expects(event) ==> (event is InfoQueried),
        (CompressState::QueryingDataSpace { info }).expects(event) ==> (event is DataSpaceQueried),
        (CompressState::Locking { info, data_space }).expects(event) ==> (event is PixelsLocked),
        CompressState::Compressing.expects(event) ==> (event is PixelsCompressed || (event is CompressPanicked)),
        (CompressState::Unlocking { result }).expects(event) ==> (event is PixelsUnlocked),
        CompressState::UnlockingAfterPanic.expects(event) ==> (event is PixelsUnlocked),
        !CompressState::Done.expects(event),
{
}

} // verus!

use vstd::prelude::*;

verus! {

/// Result code of a successful `AndroidBitmap_*` call.
pub const ANDROID_BITMAP_RESULT_SUCCESS: i32 = 0;

/// Result code for a bad parameter.
pub const ANDROID_BITMAP_RESULT_BAD_PARAMETER: i32 = -1;

/// Result code for a pending JNI exception.
pub const ANDROID_BITMAP_RESULT_JNI_EXCEPTION: i32 = -2;

/// Result code for a failed allocation.
pub const ANDROID_BITMAP_RESULT_ALLOCATION_FAILED: i32 = -3;

/// An error code returned by one of the `AndroidBitmap_*` functions.
///
/// Codes that have no named variant are kept in `__Unknown`, so that no code
/// is lost when it is turned into an error and back.
#[derive(Copy, Clone, Debug, PartialEq, Eq, Structural)]
#[non_exhaustive]
pub enum BitmapError {
    AllocationFailed,
    BadParameter,
    JniException,
    __Unknown(i32),
}

/// Shorthand for results whose error defaults to [`BitmapError`].
pub type Result<T, E = BitmapError> = core::result::Result<T, E>;

/// The error that a non-success code stands for.
pub open spec fn error_from_code(code: i32) -> BitmapError {
    if code == ANDROID_BITMAP_RESULT_ALLOCATION_FAILED {
        BitmapError::AllocationFailed
    } else if code == ANDROID_BITMAP_RESULT_BAD_PARAMETER {
        BitmapError::BadParameter
    } else if code == ANDROID_BITMAP_RESULT_JNI_EXCEPTION {
        BitmapError::JniException
    } else {
        BitmapError::__Unknown(code)
    }
}

/// The numeric code of an error.
pub open spec fn error_code(e: BitmapError) -> i32 {
    match e {
        BitmapError::AllocationFailed => ANDROID_BITMAP_RESULT_ALLOCATION_FAILED,
        BitmapError::BadParameter => ANDROID_BITMAP_RESULT_BAD_PARAMETER,
        BitmapError::JniException => ANDROID_BITMAP_RESULT_JNI_EXCEPTION,
        BitmapError::__Unknown(code) => code,
    }
}

/// What a status code means: `Ok` for success, the matching error otherwise.
pub open spec fn status_result(status: i32) -> Result<()> {
    if status == ANDROID_BITMAP_RESULT_SUCCESS {
        Ok(())
    } else {
        Err(error_from_code(status))
    }
}

impl BitmapError {
    /// An error is canonical when converting a code can produce it: an
    /// `__Unknown` code is never one of the named codes.
    pub open spec fn is_canonical(self) -> bool {
        match self {
            BitmapError::__Unknown(code) => code != ANDROID_BITMAP_RESULT_ALLOCATION_FAILED
                && code != ANDROID_BITMAP_RESULT_BAD_PARAMETER
                && code != ANDROID_BITMAP_RESULT_JNI_EXCEPTION,
            _ => true,
        }
    }

    /// Turns a status code into `Ok(())` for success, or the error it names.
    pub fn from_status(status: i32) -> (r: Result<()>)
        ensures
            r == status_result(status),
            r is Ok <==> status == ANDROID_BITMAP_RESULT_SUCCESS,
            r matches Err(e) ==> error_code(e) == status && e.is_canonical(),
    {
        if status == ANDROID_BITMAP_RESULT_SUCCESS {
            Ok(())
        } else {
            Err(BitmapError::from(status))
        }
    }
}

impl From<i32> for BitmapError {
    fn from(code: i32) -> (e: Self) {
        if code == ANDROID_BITMAP_RESULT_ALLOCATION_FAILED {
            BitmapError::AllocationFailed
        } else if code == ANDROID_BITMAP_RESULT_BAD_PARAMETER {
            BitmapError::BadParameter
        } else if code == ANDROID_BITMAP_RESULT_JNI_EXCEPTION {
            BitmapError::JniException
        } else {
            BitmapError::__Unknown(code)
        }
    }
}

impl vstd::std_specs::convert::FromSpecImpl<i32> for BitmapError {
    open spec fn obeys_from_spec() -> bool {
        true
    }

    open spec fn from_spec(v: i32) -> Self {
        error_from_code(v)
    }
}

impl From<BitmapError> for i32 {
    fn from(e: BitmapError) -> (code: Self) {
        match e {
            BitmapError::AllocationFailed => ANDROID_BITMAP_RESULT_ALLOCATION_FAILED,
            BitmapError::BadParameter => ANDROID_BITMAP_RESULT_BAD_PARAMETER,
            BitmapError::JniException => ANDROID_BITMAP_RESULT_JNI_EXCEPTION,
            BitmapError::__Unknown(code) => code,
        }
    }
}

impl vstd::std_specs::convert::FromSpecImpl<BitmapError> for i32 {
    open spec fn obeys_from_spec() -> bool {
        true
    }

    open spec fn from_spec(v: BitmapError) -> Self {
        error_code(v)
    }
}

/// Turning a code into an error and back gives the code again, for every code.
pub proof fn lemma_error_code_round_trip(code: i32)
    ensures
        error_code(error_from_code(code)) == code,
        error_from_code(code).is_canonical(),
{
}

/// Turning a canonical error into its code and back gives the error again.
pub proof fn lemma_error_round_trip(e: BitmapError)
    requires
        e.is_canonical(),
    ensures
        error_from_code(error_code(e)) == e,
{
}

} // verus!

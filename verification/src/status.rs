//! Status mapping: converting a typed generation failure, possibly chained to
//! nested causes, into a native status code.

use vstd::prelude::*;

verus! {

/// The fixed success status.
pub const S_OK: i32 = 0;

/// The status reported when discovery is asked for an unsupported identifier.
///
/// Numerically this is the native `E_NOINTERFACE` value, `0x8000_4002`
/// read as a signed 32-bit integer.
pub const E_NOINTERFACE: i32 = -2147467262;

/// The fallback status used when a failure's cause chain carries no
/// OS-level code anywhere.
///
/// Numerically this is the native `E_FAIL` ("unspecified failure") value,
/// `0x8000_4005` read as a signed 32-bit integer.
pub const E_FAIL: i32 = -2147467259;

/// The status reported when thumbnail generation is invoked while no input
/// source is held: the documented fatal-precondition path.
///
/// Numerically this is the native `E_UNEXPECTED` value, `0x8000_FFFF`
/// read as a signed 32-bit integer.
pub const E_UNEXPECTED: i32 = -2147418113;

/// Whether a status value reports success. Failure statuses have the high
/// (sign) bit set, so success is exactly the non-negative values.
pub open spec fn spec_succeeded(hr: i32) -> bool {
    hr >= 0
}

/// Runtime test of [`spec_succeeded`].
pub fn succeeded(hr: i32) -> (r: bool)
    ensures
        r == spec_succeeded(hr),
{
    hr >= 0
}

/// A typed generation failure, possibly chained to a nested cause.
///
/// A failure either carries a native OS-level status code directly, wraps a
/// deeper cause without carrying a code of its own, or is a code-less leaf.
pub enum ThumbnailError {
    /// A failure bearing a native OS-level status code.
    Os { code: i32 },
    /// A failure that carries no code itself but wraps a deeper cause.
    Wrapped { inner: Box<ThumbnailError> },
    /// A failure with neither a code nor a deeper cause.
    Unspecified,
}

/// The native status for a failure: the cause chain is searched outermost to
/// innermost for the first cause bearing an OS-level code, which is returned
/// verbatim; a chain without any code maps to the fallback [`E_FAIL`].
pub open spec fn spec_hresult(e: ThumbnailError) -> int
    decreases e,
{
    match e {
        ThumbnailError::Os { code } => code as int,
        ThumbnailError::Wrapped { inner } => spec_hresult(*inner),
        ThumbnailError::Unspecified => E_FAIL as int,
    }
}

/// Maps a typed failure to its native status code by walking the cause chain
/// outermost to innermost, per [`spec_hresult`].
pub fn get_hresult(error: &ThumbnailError) -> (hr: i32)
    ensures
        hr == spec_hresult(*error),
    decreases *error,
{
    match error {
        ThumbnailError::Os { code } => *code,
        ThumbnailError::Wrapped { inner } => get_hresult(inner),
        ThumbnailError::Unspecified => E_FAIL,
    }
}

} // verus!

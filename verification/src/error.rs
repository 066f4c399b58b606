//! The error taxonomy of the facade.
//!
//! Every failure surfaces as one [`ImageRsError`] discriminant; the facade
//! never recovers internally and never returns partial results.

use vstd::prelude::*;
use vstd::string::StringExecFns;

verus! {

/// Filesystem error kinds, mirrored from the I/O layer underlying decode and
/// save operations.
#[derive(Clone, Copy, Debug, PartialEq, Eq, Structural)]
pub enum IoKind {
    NotFound,
    PermissionDenied,
    BrokenPipe,
    AlreadyExists,
    Other,
}

/// Codec-level parameter violations.
#[derive(Clone, Copy, Debug, PartialEq, Eq, Structural)]
pub enum ParameterKind {
    DimensionMismatch,
    FailedAlready,
    NoMoreData,
    Other,
}

/// Resource limits exceeded inside a codec.
#[derive(Clone, Copy, Debug, PartialEq, Eq, Structural)]
pub enum LimitKind {
    DimensionTooLarge,
    InsufficientMemory,
    Other,
}

/// Combinations a codec does not support.
#[derive(Clone, Copy, Debug, PartialEq, Eq, Structural)]
pub enum UnsupportedKind {
    ColorType,
    Format,
    Other,
}

/// The error type every fallible operation of the facade returns.
///
/// - `Io`: a filesystem operation underlying decode or save failed.
/// - `Decoding`: a codec rejected its input.
/// - `Encoding`: a codec failed to produce output.
/// - `Parameter`: a codec-level parameter violation, also raised by the
///   facade itself for out-of-range geometry (zero resize targets, crop
///   rectangles beyond the image bounds).
/// - `Limit`: a codec exceeded resource limits.
/// - `Unsupported`: the requested combination is not supported.
/// - `InvalidImageData`: raw-ingest byte length and dimensions disagree.
/// - `BadArgument`: the encode options bag is malformed.
#[derive(Clone, Copy, Debug, PartialEq, Eq, Structural)]
pub enum ImageRsError {
    Io(IoKind),
    Decoding,
    Encoding,
    Parameter(ParameterKind),
    Limit(LimitKind),
    Unsupported(UnsupportedKind),
    InvalidImageData,
    BadArgument,
}

impl ImageRsError {
    /// A short human-readable description of the discriminant.
    pub fn message(&self) -> String {
        match self {
            ImageRsError::Io(_) => String::from_str("io error"),
            ImageRsError::Decoding => String::from_str("decoding error"),
            ImageRsError::Encoding => String::from_str("encoding error"),
            ImageRsError::Parameter(_) => String::from_str("parameter error"),
            ImageRsError::Limit(_) => String::from_str("limit error"),
            ImageRsError::Unsupported(_) => String::from_str("unsupported"),
            ImageRsError::InvalidImageData => String::from_str("invalid image data"),
            ImageRsError::BadArgument => String::from_str("bad argument"),
        }
    }
}

} // verus!

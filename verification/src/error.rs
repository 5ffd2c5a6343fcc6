//! The closed error taxonomy for compression and decompression.

use vstd::prelude::*;

verus! {

/// Errors that can occur while preparing a compression request or while
/// interpreting the native engine's results. Every recoverable failure of the
/// binding falls into one of these five variants; an element tag outside the
/// closed registry is a contract violation, not an [`Error`], and is never
/// represented here.
#[derive(Clone, Copy, Debug, PartialEq, Eq, Structural)]
pub enum Error {
    /// The data must be at least three-dimensional.
    InsufficientDimensionality,
    /// The shape does not match the provided buffer.
    InvalidShape,
    /// A shape dimension does not fit the native engine's 32-bit width.
    ExcessiveSize,
    /// The error bound must be non-negative.
    NegativeErrorBound,
    /// The compressed bytes have been corrupted.
    CorruptedCompressedBytes,
}

impl Error {
    /// A human-readable description of the error.
    pub fn message(&self) -> &'static str {
        match self {
            Error::InsufficientDimensionality => "data must be at least three-dimensional",
            Error::InvalidShape => "shape does not match the provided buffer",
            Error::ExcessiveSize => "data shape sizes must fit within [0; 2^32 - 1]",
            Error::NegativeErrorBound => "error bound must be non-negative",
            Error::CorruptedCompressedBytes => "compressed bytes have been corrupted",
        }
    }
}

} // verus!

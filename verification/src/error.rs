use vstd::prelude::*;

use libdeflater::{CompressionError, DecompressionError};
use ps_buffer::BufferError;

verus! {

/// The unified error of this library: the two codec failure kinds, preserved
/// verbatim, plus the allocation failure of the buffer primitive.
#[derive(Debug, Clone, PartialEq, Eq)]
pub enum PsDeflateError {
    /// The buffer primitive could not allocate or release memory.
    BufferError(BufferError),
    /// The compressed input is structurally invalid and cannot be decoded.
    BadData,
    /// The supplied output buffer is too small to hold the result.
    InsufficientSpace,
}

impl From<BufferError> for PsDeflateError {
    fn from(error: BufferError) -> (r: Self) {
        PsDeflateError::BufferError(error)
    }
}

impl vstd::std_specs::convert::FromSpecImpl<BufferError> for PsDeflateError {
    open spec fn obeys_from_spec() -> bool {
        true
    }

    open spec fn from_spec(error: BufferError) -> Self {
        PsDeflateError::BufferError(error)
    }
}

impl From<CompressionError> for PsDeflateError {
    fn from(error: CompressionError) -> (r: Self) {
        match error {
            CompressionError::InsufficientSpace => PsDeflateError::InsufficientSpace,
        }
    }
}

impl vstd::std_specs::convert::FromSpecImpl<CompressionError> for PsDeflateError {
    open spec fn obeys_from_spec() -> bool {
        true
    }

    open spec fn from_spec(error: CompressionError) -> Self {
        match error {
            CompressionError::InsufficientSpace => PsDeflateError::InsufficientSpace,
        }
    }
}

impl From<DecompressionError> for PsDeflateError {
    fn from(error: DecompressionError) -> (r: Self) {
        match error {
            DecompressionError::BadData => PsDeflateError::BadData,
            DecompressionError::InsufficientSpace => PsDeflateError::InsufficientSpace,
        }
    }
}

impl vstd::std_specs::convert::FromSpecImpl<DecompressionError> for PsDeflateError {
    open spec fn obeys_from_spec() -> bool {
        true
    }

    open spec fn from_spec(error: DecompressionError) -> Self {
        match error {
            DecompressionError::BadData => PsDeflateError::BadData,
            DecompressionError::InsufficientSpace => PsDeflateError::InsufficientSpace,
        }
    }
}

} // verus!

//! Why a serialized key was not accepted.
use vstd::prelude::*;

verus! {

/// Errors in the bytes of a key.
#[derive(Clone, Copy, Debug, PartialEq, Eq, Hash)]
pub enum SignatureError {
    /// The bytes of a point are not the encoding of a point, or of the wrong one.
    PointDecompressionError,
    /// The bytes of a scalar do not hold a number below the group order.
    ScalarFormatError,
    /// The number of bytes is not that of the type.
    BytesLengthError {
        /// The name of the type.
        name: &'static str,
        /// What the bytes should have been.
        description: &'static str,
        /// How many bytes the type takes.
        length: usize,
    },
}

/// The result of reading a key.
pub type SignatureResult<T> = Result<T, SignatureError>;

} // verus!

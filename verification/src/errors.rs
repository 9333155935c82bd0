use vstd::prelude::*;

verus! {

/// Why a byte string could not be decoded.
#[derive(Debug, Clone, Copy, PartialEq, Eq, Structural)]
pub enum SerzDeserzError {
    /// The input for an element of the first source group has the wrong
    /// length: the length given, then the length required.
    G1BytesIncorrectSize(usize, usize),
    /// The input for an element of the second source group has the wrong
    /// length: the length given, then the length required.
    G2BytesIncorrectSize(usize, usize),
    /// The input has the width of an element of the first source group but
    /// is not the canonical encoding of one.
    G1BytesMalformed,
    /// The input has the width of an element of the second source group but
    /// is not the canonical encoding of one.
    G2BytesMalformed,
    /// The input for a scalar has the wrong length: the length given, then
    /// the length required.
    ScalarBytesIncorrectSize(usize, usize),
}

/// The entropy source could not supply the bytes asked of it.
#[derive(Debug, Clone, Copy, PartialEq, Eq, Structural)]
pub struct EntropyUnavailable;

} // verus!

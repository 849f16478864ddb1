use vstd::prelude::*;

verus! {

/// Why a buffer could not be decoded, or a decoded model could not be used.
#[derive(Debug, Clone, Copy, PartialEq, Eq, Structural)]
pub enum DecodeError {
    /// A read or seek went past the end of the buffer.
    TruncatedBuffer,
    /// The attribute table does not start with its signature.
    InvalidMagic,
    /// The attribute table declares a record size other than 20 bytes.
    InvalidStride,
    /// A spatial-index node lies outside the buffer, a leaf has no terminating 0,
    /// an offset does not move forward, or the tree is too deep.
    MalformedOctree,
    /// An index stored in the geometry is not below the length of the table it addresses.
    IndexOutOfRange,
    /// A reconstruction denominator is zero or not finite.
    DegenerateGeometry,
}

} // verus!

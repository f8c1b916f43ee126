use vstd::prelude::*;

verus! {

/// A structural decoding failure.
///
/// Every decoder in this crate either fully succeeds or rejects the record as
/// a whole with one of these values; no partial output is ever produced.
#[derive(Debug, Clone, Copy, PartialEq, Eq, Structural)]
pub enum DecodeError {
    /// A read of `requested_length` bytes starting at `offset` would run past
    /// the end of the input buffer.
    UnexpectedEndOfData { offset: usize, requested_length: usize },
    /// A header-declared offset or offset/size pair does not resolve within
    /// the input buffer.
    InvalidOffset,
}

} // verus!

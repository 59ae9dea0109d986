//! Failure values returned by the decoder. All failures propagate to the
//! caller as values; none aborts the process.

use vstd::prelude::*;

verus! {

/// A decoding failure.
#[derive(Clone, Copy, Debug, PartialEq, Eq)]
pub enum DbpfError {
    /// The byte source could not satisfy the requested byte range (short
    /// file, bad seek target).
    IoFailure,
    /// The first 4 header bytes are not the signature "DBPF"; carries the
    /// bytes actually found.
    InvalidSignatureFailure { found: [u8; 4] },
}

/// A failure while decoding the index table: the slot that could not be
/// read, and why.
#[derive(Clone, Copy, Debug, PartialEq, Eq)]
pub struct IndexReadError {
    pub failing_index: u32,
    pub cause: DbpfError,
}

} // verus!

//! Errors reported while constructing or operating a ring buffer
//! producer or consumer.

use vstd::prelude::*;

verus! {

/// Errors that occur as a result of using a ring buffer producer or
/// consumer.
///
/// The three construction-time errors are fatal and indicate a setup
/// defect; `CommitOutOfOrder` is a transient protocol failure that a
/// caller is expected to retry.
#[derive(Debug, Clone, Copy, PartialEq, Eq, Structural)]
pub enum RingBufferError {
    /// There are too many entries in the slice.
    EntriesSliceTooLong,
    /// Length of entries was not a power of two.
    LengthNotPowerOfTwo,
    /// Mask has incorrect value for length of entries.
    InvalidMaskValue,
    /// A commit was attempted out of order. Another thread may have the
    /// next entry to commit. Retrying the operation may succeed.
    CommitOutOfOrder,
}

impl Default for RingBufferError {
    fn default() -> (r: Self)
        ensures
            r == RingBufferError::EntriesSliceTooLong,
    {
        RingBufferError::EntriesSliceTooLong
    }
}

impl RingBufferError {
    /// The text that describes this error.
    pub open spec fn spec_message(&self) -> Seq<char> {
        match self {
            RingBufferError::EntriesSliceTooLong => "Entries slice was too long for the ring buffer."@,
            RingBufferError::LengthNotPowerOfTwo => "Length of entries was not a power of two."@,
            RingBufferError::InvalidMaskValue => "Mask has incorrect value for length of entries."@,
            RingBufferError::CommitOutOfOrder => "A commit was attempted out of order. Another thread may have the next entry to commit. Retrying the operation may succeed."@,
        }
    }

    /// A human-readable description of the error.
    pub fn message(&self) -> (r: &'static str)
        ensures
            r@ == self.spec_message(),
    {
        match self {
            RingBufferError::EntriesSliceTooLong => "Entries slice was too long for the ring buffer.",
            RingBufferError::LengthNotPowerOfTwo => "Length of entries was not a power of two.",
            RingBufferError::InvalidMaskValue => "Mask has incorrect value for length of entries.",
            RingBufferError::CommitOutOfOrder => "A commit was attempted out of order. Another thread may have the next entry to commit. Retrying the operation may succeed.",
        }
    }
}

} // verus!

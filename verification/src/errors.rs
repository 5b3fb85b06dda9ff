//! The outcome taxonomy of a failed load.

use vstd::prelude::*;

verus! {

/// Why a load attempt was aborted.
///
/// Every loader operation returns success or one of these; none is recovered
/// locally.  The boot flow logs a diagnostic and gives up on the first error.
#[derive(Clone, Copy, Debug, PartialEq, Eq, Structural)]
pub enum LoadError {
    /// The image is structurally unusable: the buffer is shorter than the
    /// fixed header size, the magic sequence is wrong, or a segment claims
    /// more file content than memory content.
    FormatError,
    /// The program-header table or a segment's file region extends past the
    /// end of the image buffer, or a segment's memory range does not fit in
    /// the address space.
    BoundsError,
    /// The physical-memory allocator could not satisfy a fixed-address
    /// request for a segment.
    AllocationError,
}

} // verus!

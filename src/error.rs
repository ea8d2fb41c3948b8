use vstd::prelude::*;

verus! {

/// Why a request for more storage could not be met.
#[derive(Debug, Clone, Copy, PartialEq, Eq, Structural)]
pub enum TryReserveError {
    /// The number of elements, or their size in bytes, would exceed what the
    /// address space can hold (`isize::MAX` bytes).
    CapacityOverflow,
    /// The allocator refused a request of `size` bytes aligned to `align`.
    AllocError { size: usize, align: usize },
}

/// The error for an allocator that refused a request of `size` bytes aligned
/// to `align`.
pub fn alloc_error(size: usize, align: usize) -> (r: TryReserveError)
    ensures
        r == (TryReserveError::AllocError { size, align }),
{
    TryReserveError::AllocError { size, align }
}

} // verus!

use vstd::prelude::*;

use crate::error::TryReserveError;

verus! {

/// Whether a buffer of `n` elements of `T` cannot exist: either the count
/// itself does not fit in `usize`, or its size in bytes exceeds `isize::MAX`.
pub open spec fn exceeds_address_space<T>(n: int) -> bool {
    n > usize::MAX || n * vstd::layout::size_of::<T>() > isize::MAX
}

/// What asking for room for `additional` more elements, on top of `len`, may
/// give: success when nothing is asked for, and otherwise success only when
/// the new total can exist, the overflow error exactly when it cannot, or the
/// allocator's refusal carrying the size and alignment of the smallest
/// request that would have served.
pub open spec fn reserve_outcome<T>(
    len: int,
    additional: int,
    r: Result<(), TryReserveError>,
) -> bool {
    &&& additional == 0 ==> r is Ok
    &&& match r {
        Ok(()) => additional > 0 ==> !exceeds_address_space::<T>(len + additional),
        Err(TryReserveError::CapacityOverflow) => exceeds_address_space::<T>(len + additional),
        Err(TryReserveError::AllocError { size, align }) => {
            &&& !exceeds_address_space::<T>(len + additional)
            &&& size == (len + additional) * vstd::layout::size_of::<T>()
            &&& align == vstd::layout::align_of::<T>()
        },
    }
}

/// Forgets the value carried by a success, keeping the error.
pub open spec fn unit_outcome<R>(r: Result<R, TryReserveError>) -> Result<(), TryReserveError> {
    match r {
        Ok(_) => Ok(()),
        Err(e) => Err(e),
    }
}

/// Makes room for at least `additional` more elements without changing the
/// contents. On success the next `additional` insertions need no allocation.
pub fn reserve_additional<T>(v: &mut Vec<T>, additional: usize) -> (r: Result<
    (),
    TryReserveError,
>)
    ensures
        final(v)@ == old(v)@,
        reserve_outcome::<T>(old(v)@.len() as int, additional as int, r),
{
    if additional == 0 {
        return Ok(());
    }
    let len = v.len();
    if len > usize::MAX - additional {
        return Err(TryReserveError::CapacityOverflow);
    }
    let required = len + additional;
    let size = core::mem::size_of::<T>();
    let bytes = match required.checked_mul(size) {
        Some(b) => b,
        None => {
            proof {
                assert(required * size > usize::MAX);
            }
            return Err(TryReserveError::CapacityOverflow);
        },
    };
    if bytes > isize::MAX as usize {
        return Err(TryReserveError::CapacityOverflow);
    }
    match v.try_reserve(additional) {
        Ok(()) => Ok(()),
        Err(_) => Err(crate::error::alloc_error(bytes, core::mem::align_of::<T>())),
    }
}

/// Relies on `<[T]>::rotate_right` on the elements from `from` on: the last
/// `k` of them move to the front of that part, the others follow in order.
#[verifier::external_body]
pub fn rotate_tail_right<T>(v: &mut Vec<T>, from: usize, k: usize)
    requires
        from <= old(v)@.len(),
        k <= old(v)@.len() - from,
    ensures
        final(v)@ == old(v)@.take(from as int) + old(v)@.skip(old(v)@.len() - k) + old(v)@.subrange(
            from as int,
            old(v)@.len() - k,
        ),
{
    v[from..].rotate_right(k)
}

} // verus!

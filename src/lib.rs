//! Fallible-allocation operations for `Vec`: every operation that may need
//! more storage asks for it first and reports a failure as a value, so that
//! running out of memory never aborts the process.
//!
//! Each operation states what the buffer holds afterwards: on success the
//! exact new contents, on failure what was kept. Storage comes from the
//! global allocator.

mod collect;
mod error;
mod growth;
mod laws;
mod vec_ops;

use vstd::prelude::*;

pub use collect::TryCollect;
pub use error::{alloc_error, TryReserveError};
pub use laws::{
    lemma_insert_shifts_right, lemma_pushes_keep_order, lemma_splice_ignores_length_hint,
    lemma_splice_own_range_is_noop, pushed_all,
};
pub use growth::{exceeds_address_space, reserve_outcome, unit_outcome};
pub use vec_ops::{splice_outcome, spliced, FallibleVec};

verus! {

/// A new, empty `Vec` with room for `size` elements.
pub fn try_with_capacity<T>(size: usize) -> (r: Result<Vec<T>, TryReserveError>)
    ensures
        reserve_outcome::<T>(0, size as int, unit_outcome(r)),
        r is Ok ==> r->Ok_0@ == Seq::<T>::empty(),
{
    let mut vec: Vec<T> = Vec::new();
    match growth::reserve_additional(&mut vec, size) {
        Ok(()) => Ok(vec),
        Err(e) => Err(e),
    }
}

/// A new, empty `Vec` with room for `size` elements, from the global
/// allocator.
pub fn try_with_capacity_in<T>(size: usize) -> (r: Result<Vec<T>, TryReserveError>)
    ensures
        reserve_outcome::<T>(0, size as int, unit_outcome(r)),
        r is Ok ==> r->Ok_0@ == Seq::<T>::empty(),
{
    try_with_capacity(size)
}

/// A new `Vec` of `size` clones of `item`.
pub fn try_new_repeat_item<T: Clone>(item: T, size: usize) -> (r: Result<Vec<T>, TryReserveError>)
    ensures
        size == 0 ==> r is Ok,
        size > 0 ==> reserve_outcome::<T>(0, size as int, unit_outcome(r)),
        r is Ok ==> r->Ok_0@.len() == size,
        r is Ok ==> forall|i: int| 0 <= i < size ==> cloned::<T>(item, #[trigger] r->Ok_0@[i]),
{
    try_new_repeat_item_internal(Vec::new(), item, size)
}

/// A new `Vec` of `size` clones of `item`, from the global allocator.
pub fn try_new_repeat_item_in<T: Clone>(item: T, size: usize) -> (r: Result<
    Vec<T>,
    TryReserveError,
>)
    ensures
        size == 0 ==> r is Ok,
        size > 0 ==> reserve_outcome::<T>(0, size as int, unit_outcome(r)),
        r is Ok ==> r->Ok_0@.len() == size,
        r is Ok ==> forall|i: int| 0 <= i < size ==> cloned::<T>(item, #[trigger] r->Ok_0@[i]),
{
    try_new_repeat_item_internal(Vec::new(), item, size)
}

/// Fills the empty `vec` with `size` clones of `item`.
fn try_new_repeat_item_internal<T: Clone>(vec: Vec<T>, item: T, size: usize) -> (r: Result<
    Vec<T>,
    TryReserveError,
>)
    requires
        vec@.len() == 0,
    ensures
        size == 0 ==> r is Ok,
        size > 0 ==> reserve_outcome::<T>(0, size as int, unit_outcome(r)),
        r is Ok ==> r->Ok_0@.len() == size,
        r is Ok ==> forall|i: int| 0 <= i < size ==> cloned::<T>(item, #[trigger] r->Ok_0@[i]),
{
    let mut vec = vec;
    if size > 0 {
        growth::reserve_additional(&mut vec, size)?;
        while vec.len() < size
            invariant
                vec@.len() <= size,
                forall|i: int| 0 <= i < vec@.len() ==> cloned::<T>(item, #[trigger] vec@[i]),
            decreases size - vec@.len(),
        {
            vec.push(item.clone());
        }
    }
    Ok(vec)
}

} // verus!

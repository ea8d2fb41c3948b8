use vstd::prelude::*;
use vstd::std_specs::iter::IteratorSpec;

use crate::error::TryReserveError;
use crate::vec_ops::FallibleVec;

verus! {

/// Fallible counterpart of `Iterator::collect`: gathers the elements that a
/// source yields, in order, into a new `Vec`.
pub trait TryCollect<T>: Iterator<Item = T> + Sized {
    fn try_collect(self) -> (r: Result<Vec<T>, TryReserveError>)
        requires
            self.obeys_prophetic_iter_laws(),
            self.decrease() is Some,
        ensures
            r is Ok ==> r->Ok_0@ == self.remaining(),
    ;
}

impl<T, I: Iterator<Item = T>> TryCollect<T> for I {
    fn try_collect(self) -> (r: Result<Vec<T>, TryReserveError>) {
        let mut vec: Vec<T> = Vec::new();
        vec.try_extend(self)?;
        Ok(vec)
    }
}

} // verus!

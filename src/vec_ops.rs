use vstd::prelude::*;

use vstd::std_specs::iter::IteratorSpec;

use std::ops::Range;

use crate::collect::TryCollect;
use crate::error::TryReserveError;
use crate::growth::{reserve_additional, reserve_outcome, rotate_tail_right};

verus! {

/// `b` with its elements in `[start, end)` replaced by `r`.
pub open spec fn spliced<T>(b: Seq<T>, start: int, end: int, r: Seq<T>) -> Seq<T> {
    b.take(start) + r + b.skip(end)
}

/// What replacing `[start, end)` of `b` by the elements `rs` of a source
/// may leave (`after`) and return (`r`). Success gives exactly the spliced
/// sequence, and is certain when `rs` is shorter than the range. A failure
/// leaves the range overwritten by the first elements of `rs`, perhaps
/// followed by some more of them; nothing else has changed.
pub open spec fn splice_outcome<T>(
    b: Seq<T>,
    start: int,
    end: int,
    rs: Seq<T>,
    after: Seq<T>,
    r: Result<(), TryReserveError>,
) -> bool {
    &&& r is Ok ==> after == spliced(b, start, end, rs)
    &&& rs.len() < end - start ==> r is Ok
    &&& r is Err ==> exists|p: int|
        end - start <= p <= rs.len() && after == spliced(b, start, end, #[trigger] rs.take(p))
}

/// Relies on `Iterator::size_hint` for the lower bound of how many elements
/// `iter` has left. A source may misstate it, so nothing is assumed of it.
#[verifier::external_body]
pub(crate) fn size_lower_bound<T, I: Iterator<Item = T>>(iter: &I) -> usize {
    iter.size_hint().0
}

/// Places `items` at `index`, moving the elements from `index` on behind
/// them. On failure neither `v` nor `items` changes.
fn move_tail<T>(v: &mut Vec<T>, index: usize, items: &mut Vec<T>) -> (r: Result<
    (),
    TryReserveError,
>)
    requires
        index <= old(v)@.len(),
    ensures
        reserve_outcome::<T>(old(v)@.len() as int, old(items)@.len() as int, r),
        r is Ok ==> final(v)@ == old(v)@.take(index as int) + old(items)@ + old(v)@.skip(
            index as int,
        ),
        r is Ok ==> final(items)@ == Seq::<T>::empty(),
        r is Err ==> final(v)@ == old(v)@ && final(items)@ == old(items)@,
{
    let by = items.len();
    reserve_additional(v, by)?;
    let ghost b = v@;
    let ghost added = items@;
    v.append(items);
    rotate_tail_right(v, index, by);
    proof {
        assert((b + added).skip((b + added).len() - by) =~= added);
        assert((b + added).subrange(index as int, (b + added).len() - by) =~= b.skip(
            index as int,
        ));
        assert((b + added).take(index as int) =~= b.take(index as int));
    }
    Ok(())
}

/// Removes the elements in `[start, end)`, keeping the order of the rest.
fn remove_range<T>(v: &mut Vec<T>, start: usize, end: usize)
    requires
        start <= end <= old(v)@.len(),
    ensures
        final(v)@ == old(v)@.take(start as int) + old(v)@.skip(end as int),
{
    let ghost b = v@;
    let len = v.len();
    rotate_tail_right(v, start, len - end);
    v.truncate(len - (end - start));
    proof {
        assert(v@ =~= b.take(start as int) + b.skip(end as int));
    }
}

/// Fallible-allocation operations on a growable buffer. Each one that may
/// need more storage asks for it before changing anything; when the request
/// fails, the error is returned and the buffer is left as it was (a splice
/// may have overwritten its range by then, as its contract says).
pub trait FallibleVec<T>: Sized + View<V = Seq<T>> {
    /// Appends the elements that `iter` yields, in order. Room for as many
    /// as its length hint promises is asked for first, then each element is
    /// added as it comes. On failure the elements added so far stay.
    fn try_extend<I: Iterator<Item = T>>(&mut self, iter: I) -> (r: Result<(), TryReserveError>)
        requires
            iter.obeys_prophetic_iter_laws(),
            iter.decrease() is Some,
        ensures
            r is Ok ==> final(self)@ == old(self)@ + iter.remaining(),
            r is Err ==> exists|k: int|
                0 <= k <= iter.remaining().len() && final(self)@ == old(self)@
                    + #[trigger] iter.remaining().take(k),
    ;

    /// Appends one element at the back.
    fn try_push(&mut self, item: T) -> (r: Result<(), TryReserveError>)
        ensures
            reserve_outcome::<T>(old(self)@.len() as int, 1, r),
            r is Ok ==> final(self)@ == old(self)@.push(item),
            r is Err ==> final(self)@ == old(self)@,
    ;

    /// Inserts `element` at position `index`, shifting the elements from
    /// `index` on one place to the right.
    fn try_insert(&mut self, index: usize, element: T) -> (r: Result<(), TryReserveError>)
        requires
            index <= old(self)@.len(),
        ensures
            reserve_outcome::<T>(old(self)@.len() as int, 1, r),
            r is Ok ==> final(self)@ == old(self)@.insert(index as int, element),
            r is Err ==> final(self)@ == old(self)@,
    ;

    /// Replaces the elements in `range` with those that `replace_with`
    /// yields, in order. The range is overwritten in place first. Elements
    /// beyond it that the source's length hint promises are then placed
    /// directly; whatever follows is gathered in a buffer of its own and
    /// moved in behind them.
    fn try_splice_in<I: Iterator<Item = T>>(
        &mut self,
        range: Range<usize>,
        replace_with: I,
    ) -> (r: Result<(), TryReserveError>)
        requires
            range.start <= range.end <= old(self)@.len(),
            replace_with.obeys_prophetic_iter_laws(),
            replace_with.decrease() is Some,
        ensures
            splice_outcome::<T>(
                old(self)@,
                range.start as int,
                range.end as int,
                replace_with.remaining(),
                final(self)@,
                r,
            ),
    ;

    /// Appends a clone of each element of `slice`, in order.
    fn try_extend_from_slice(&mut self, slice: &[T]) -> (r: Result<(), TryReserveError>) where
        T: Clone,
        ensures
            reserve_outcome::<T>(old(self)@.len() as int, slice@.len() as int, r),
            r is Ok ==> final(self)@.len() == old(self)@.len() + slice@.len(),
            r is Ok ==> final(self)@.take(old(self)@.len() as int) == old(self)@,
            r is Ok ==> forall|i: int|
                0 <= i < slice@.len() ==> cloned::<T>(
                    slice@[i],
                    #[trigger] final(self)@[old(self)@.len() + i],
                ),
            r is Err ==> final(self)@ == old(self)@,
    ;

    /// Makes the length `new_len`: a longer buffer is cut to its first
    /// `new_len` elements, a shorter one is filled up with clones of `item`.
    fn try_resize(&mut self, new_len: usize, item: T) -> (r: Result<(), TryReserveError>) where
        T: Clone,
        ensures
            new_len <= old(self)@.len() ==> r is Ok && final(self)@ == old(self)@.take(
                new_len as int,
            ),
            new_len > old(self)@.len() ==> reserve_outcome::<T>(
                old(self)@.len() as int,
                new_len - old(self)@.len(),
                r,
            ),
            new_len > old(self)@.len() && r is Ok ==> {
                &&& final(self)@.len() == new_len
                &&& final(self)@.take(old(self)@.len() as int) == old(self)@
                &&& forall|i: int|
                    old(self)@.len() <= i < new_len ==> cloned::<T>(item, #[trigger] final(self)@[i])
            },
            r is Err ==> final(self)@ == old(self)@,
    ;

    /// Makes the length `new_len`: a longer buffer is cut to its first
    /// `new_len` elements, a shorter one is filled up with the values of
    /// successive calls of `f`, in the order they were produced.
    fn try_resize_with<F: FnMut() -> T>(&mut self, new_len: usize, f: F) -> (r: Result<
        (),
        TryReserveError,
    >)
        requires
            forall|| #[trigger] f.requires(()),
        ensures
            new_len <= old(self)@.len() ==> r is Ok && final(self)@ == old(self)@.take(
                new_len as int,
            ),
            new_len > old(self)@.len() ==> reserve_outcome::<T>(
                old(self)@.len() as int,
                new_len - old(self)@.len(),
                r,
            ),
            new_len > old(self)@.len() && r is Ok ==> {
                &&& final(self)@.len() == new_len
                &&& final(self)@.take(old(self)@.len() as int) == old(self)@
                &&& forall|i: int|
                    old(self)@.len() <= i < new_len ==> f.ensures((), #[trigger] final(self)@[i])
            },
            r is Err ==> final(self)@ == old(self)@,
    ;
}

impl<T> FallibleVec<T> for Vec<T> {
    fn try_extend<I: Iterator<Item = T>>(&mut self, iter: I) -> (r: Result<
        (),
        TryReserveError,
    >) {
        let ghost b = self@;
        let ghost s = iter.remaining();
        let mut source = iter;
        let hint = size_lower_bound(&source);
        match reserve_additional(self, hint) {
            Ok(()) => {},
            Err(e) => {
                proof {
                    assert(self@ =~= b + s.take(0));
                }
                return Err(e);
            },
        }
        let ghost mut taken: int = 0;
        loop
            invariant
                b == old(self)@,
                s == iter.remaining(),
                source.obeys_prophetic_iter_laws(),
                source.decrease() is Some,
                0 <= taken <= s.len(),
                self@ == b + s.take(taken),
                source.remaining() == s.skip(taken),
            decreases source.decrease()->0,
        {
            match source.next() {
                Some(item) => {
                    match self.try_push(item) {
                        Ok(()) => {},
                        Err(e) => {
                            return Err(e);
                        },
                    }
                    proof {
                        taken = taken + 1;
                        assert(self@ =~= b + s.take(taken));
                        assert(source.remaining() =~= s.skip(taken));
                    }
                },
                None => {
                    proof {
                        assert(s.take(taken) =~= s);
                    }
                    return Ok(());
                },
            }
        }
    }

    fn try_push(&mut self, item: T) -> (r: Result<(), TryReserveError>) {
        reserve_additional(self, 1)?;
        self.push(item);
        Ok(())
    }

    fn try_insert(&mut self, index: usize, element: T) -> (r: Result<(), TryReserveError>) {
        reserve_additional(self, 1)?;
        self.insert(index, element);
        Ok(())
    }

    fn try_splice_in<I: Iterator<Item = T>>(
        &mut self,
        range: Range<usize>,
        replace_with: I,
    ) -> (r: Result<(), TryReserveError>) {
        let ghost b = self@;
        let ghost rs = replace_with.remaining();
        let start = range.start;
        let end = range.end;
        let mut source = replace_with;
        let mut index = start;
        // Overwrite the range in place while replacement elements remain.
        while index < end
            invariant
                b == old(self)@,
                rs == replace_with.remaining(),
                start == range.start,
                end == range.end,
                start <= index <= end <= b.len(),
                index - start <= rs.len(),
                self@ == spliced(b, start as int, index as int, rs.take(index - start)),
                source.obeys_prophetic_iter_laws(),
                source.decrease() is Some,
                source.remaining() == rs.skip(index - start),
            decreases end - index,
        {
            match source.next() {
                Some(item) => {
                    self.set(index, item);
                    index = index + 1;
                    proof {
                        assert(self@ =~= spliced(
                            b,
                            start as int,
                            index as int,
                            rs.take(index - start),
                        ));
                        assert(source.remaining() =~= rs.skip(index - start));
                    }
                },
                None => {
                    let ghost before = self@;
                    remove_range(self, index, end);
                    proof {
                        assert(rs.len() == index - start);
                        assert(rs.take(index - start) =~= rs);
                        assert(before.take(index as int) =~= b.take(start as int) + rs);
                        assert(before.skip(end as int) =~= b.skip(end as int));
                        assert(self@ =~= spliced(b, start as int, end as int, rs));
                    }
                    return Ok(());
                },
            }
        }
        let width = end - start;
        proof {
            assert(rs.take(width as int) == rs.take(index - start));
        }
        // Place directly the elements that the source promises beyond the
        // range, behind those already in place.
        let hint = size_lower_bound(&source);
        let ghost mut placed: int = width as int;
        if hint > 0 {
            reserve_additional(self, hint)?;
            let ghost filled = self@;
            let mut added: usize = 0;
            while added < hint
                invariant
                    added <= hint,
                    width as int <= placed <= rs.len(),
                    placed == width + added,
                    self@ == filled + rs.subrange(width as int, placed),
                    source.obeys_prophetic_iter_laws(),
                    source.decrease() is Some,
                    source.remaining() == rs.skip(placed),
                decreases hint - added,
            {
                match source.next() {
                    Some(item) => {
                        self.push(item);
                        added = added + 1;
                        proof {
                            placed = placed + 1;
                            assert(self@ =~= filled + rs.subrange(width as int, placed));
                            assert(source.remaining() =~= rs.skip(placed));
                        }
                    },
                    None => {
                        break;
                    },
                }
            }
            rotate_tail_right(self, index, added);
            index = index + added;
            proof {
                assert(self@ =~= spliced(b, start as int, end as int, rs.take(placed)));
            }
        }
        assert(self@ == spliced(b, start as int, end as int, rs.take(placed)));
        // Gather whatever is left and move it in behind the placed elements.
        let mut rest = source.try_collect()?;
        move_tail(self, index, &mut rest)?;
        proof {
            assert(rs.take(placed) + rs.skip(placed) =~= rs);
            assert(self@ =~= spliced(b, start as int, end as int, rs));
        }
        Ok(())
    }

    fn try_extend_from_slice(&mut self, slice: &[T]) -> (r: Result<(), TryReserveError>) where
        T: Clone,
     {
        reserve_additional(self, slice.len())?;
        let ghost b = self@;
        let mut i: usize = 0;
        while i < slice.len()
            invariant
                i <= slice@.len(),
                self@.len() == b.len() + i,
                self@.take(b.len() as int) == b,
                forall|j: int| 0 <= j < i ==> cloned::<T>(slice@[j], #[trigger] self@[b.len() + j]),
            decreases slice@.len() - i,
        {
            let item = slice[i].clone();
            self.push(item);
            proof {
                assert(self@.take(b.len() as int) =~= b);
            }
            i = i + 1;
        }
        Ok(())
    }

    fn try_resize(&mut self, new_len: usize, item: T) -> (r: Result<(), TryReserveError>) where
        T: Clone,
     {
        let len = self.len();
        if new_len <= len {
            self.truncate(new_len);
            return Ok(());
        }
        reserve_additional(self, new_len - len)?;
        let ghost b = self@;
        while self.len() < new_len
            invariant
                b.len() == len < new_len,
                len <= self@.len() <= new_len,
                self@.take(len as int) == b,
                forall|j: int| len <= j < self@.len() ==> cloned::<T>(item, #[trigger] self@[j]),
            decreases new_len - self@.len(),
        {
            let copy = item.clone();
            self.push(copy);
            proof {
                assert(self@.take(len as int) =~= b);
            }
        }
        Ok(())
    }

    fn try_resize_with<F: FnMut() -> T>(&mut self, new_len: usize, f: F) -> (r: Result<
        (),
        TryReserveError,
    >) {
        let mut f = f;
        let len = self.len();
        if new_len <= len {
            self.truncate(new_len);
            return Ok(());
        }
        reserve_additional(self, new_len - len)?;
        let ghost b = self@;
        let ghost g = f;
        while self.len() < new_len
            invariant
                b.len() == len < new_len,
                len <= self@.len() <= new_len,
                self@.take(len as int) == b,
                f == g,
                forall|| #[trigger] g.requires(()),
                forall|j: int| len <= j < self@.len() ==> g.ensures((), #[trigger] self@[j]),
            decreases new_len - self@.len(),
        {
            let value = f();
            self.push(value);
            proof {
                assert(self@.take(len as int) =~= b);
            }
        }
        Ok(())
    }
}

} // verus!

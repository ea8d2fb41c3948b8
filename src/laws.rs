use vstd::prelude::*;

use crate::error::TryReserveError;
use crate::vec_ops::{splice_outcome, spliced};

verus! {

/// The contents after pushing each element of `vs`, first to last, onto `b`.
pub open spec fn pushed_all<T>(b: Seq<T>, vs: Seq<T>) -> Seq<T>
    decreases vs.len(),
{
    if vs.len() == 0 {
        b
    } else {
        pushed_all(b, vs.drop_last()).push(vs.last())
    }
}

/// Pushing `v1, ..., vn` in order onto a buffer appends exactly `[v1, ..., vn]`;
/// onto an empty buffer it gives `[v1, ..., vn]` itself.
pub proof fn lemma_pushes_keep_order<T>(b: Seq<T>, vs: Seq<T>)
    ensures
        pushed_all(b, vs) == b + vs,
        pushed_all(Seq::<T>::empty(), vs) == vs,
    decreases vs.len(),
{
    if vs.len() > 0 {
        lemma_pushes_keep_order(b, vs.drop_last());
        lemma_pushes_keep_order(Seq::<T>::empty(), vs.drop_last());
        assert((b + vs.drop_last()).push(vs.last()) =~= b + vs);
        assert(vs.drop_last().push(vs.last()) =~= vs);
    } else {
        assert(b + vs =~= b);
    }
}

/// Inserting `x` at `i` keeps the elements before `i`, puts `x` at `i` and
/// moves each element from `i` on one place to the right; inserting at the
/// end is the same as pushing.
pub proof fn lemma_insert_shifts_right<T>(a: Seq<T>, i: int, x: T)
    requires
        0 <= i <= a.len(),
    ensures
        a.insert(i, x).len() == a.len() + 1,
        a.insert(i, x)[i] == x,
        forall|j: int| 0 <= j < i ==> #[trigger] a.insert(i, x)[j] == a[j],
        forall|j: int| i < j <= a.len() ==> #[trigger] a.insert(i, x)[j] == a[j - 1],
        a.insert(a.len() as int, x) == a.push(x),
{
    assert(a.insert(a.len() as int, x) =~= a.push(x));
}

/// Replacing a range by the elements it already holds changes nothing.
pub proof fn lemma_splice_own_range_is_noop<T>(b: Seq<T>, start: int, end: int)
    requires
        0 <= start <= end <= b.len(),
    ensures
        spliced(b, start, end, b.subrange(start, end)) == b,
{
    assert(spliced(b, start, end, b.subrange(start, end)) =~= b);
}

/// Two successful splices of the same range by sources that yield the same
/// elements leave the same contents, whatever length each source promised
/// up front: a source with no length hint and one that states its length
/// exactly give one result.
pub proof fn lemma_splice_ignores_length_hint<T>(
    b: Seq<T>,
    start: int,
    end: int,
    rs: Seq<T>,
    after_a: Seq<T>,
    after_b: Seq<T>,
)
    requires
        0 <= start <= end <= b.len(),
        splice_outcome::<T>(b, start, end, rs, after_a, Ok::<(), TryReserveError>(())),
        splice_outcome::<T>(b, start, end, rs, after_b, Ok::<(), TryReserveError>(())),
    ensures
        after_a == after_b,
        after_a == spliced(b, start, end, rs),
{
}

} // verus!

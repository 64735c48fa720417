//! Alignment-agnostic dispatch: consecutive `N`-element chunks of both
//! operands go to the vector kernel, the remainder is done element by element.

use vstd::prelude::*;

use crate::element::{defined_on, elementwise, Element, Op};
use crate::scalar::{applied_on_range, apply_range, defined_on_range};
use crate::Simd;

verus! {

/// Copies the `N` elements of `s` that start at `start` into an array.
fn load<T: Copy, const N: usize>(s: &[T], start: usize) -> (r: [T; N])
    requires
        N >= 1,
        start + N <= s@.len(),
    ensures
        r@ == s@.subrange(start as int, start + N),
{
    let mut a = [s[start]; N];
    let mut j: usize = 0;
    while j < N
        invariant
            j <= N,
            a@.len() == N,
            start + N <= s.len(),
            forall|k: int| 0 <= k < j ==> a@[k] == s@[start + k],
        decreases N - j,
    {
        a[j] = s[start + j];
        j += 1;
    }
    assert(a@ =~= s@.subrange(start as int, start + N));
    a
}

/// Writes the array `a` over the `N` elements of `s` that start at `start`.
fn store<T: Copy, const N: usize>(s: &mut [T], start: usize, a: [T; N])
    requires
        start + N <= old(s)@.len(),
    ensures
        final(s)@.len() == old(s)@.len(),
        forall|k: int| start <= k < start + N ==> final(s)@[k] == a@[k - start],
        forall|k: int|
            0 <= k < old(s)@.len() && !(start <= k < start + N) ==> final(s)@[k] == old(s)@[k],
{
    let ghost before = s@;
    let mut j: usize = 0;
    while j < N
        invariant
            j <= N,
            a@.len() == N,
            start + N <= s.len(),
            s@.len() == before.len(),
            forall|k: int| start <= k < start + j ==> s@[k] == a@[k - start],
            forall|k: int| 0 <= k < before.len() && !(start <= k < start + j) ==> s@[k] == before[k],
        decreases N - j,
    {
        s[start + j] = a[j];
        j += 1;
    }
}

/// Applies `op` to the `N` pairs that start at `start` with one call of the
/// vector kernel.
pub(crate) fn apply_chunk<T: Element, const N: usize>(
    op: Op,
    left: &mut [T],
    right: &[T],
    start: usize,
)
    requires
        N >= 1,
        old(left)@.len() == right@.len(),
        start + N <= right@.len(),
        defined_on_range(op, old(left)@, right@, start as int, start + N),
    ensures
        applied_on_range(op, old(left)@, final(left)@, right@, start as int, start + N),
{
    let x = load::<T, N>(left, start);
    let y = load::<T, N>(right, start);
    let ghost before = left@;
    assert(defined_on(op, x@, y@)) by {
        assert forall|i: int| 0 <= i < x@.len() && i < y@.len() implies T::defined(
            op,
            x@[i],
            y@[i],
        ) by {
            assert(T::defined(op, before[start + i], right@[start + i]));
            assert(x@[i] == before[start + i]);
            assert(y@[i] == right@[start + i]);
        }
    }
    let z = Simd::from_array(x).lanewise(op, Simd::from_array(y)).to_array();
    store::<T, N>(left, start, z);
    assert forall|k: int| start <= k < start + N implies #[trigger] left@[k] == T::apply_spec(
        op,
        before[k],
        right@[k],
    ) by {
        assert(z@[k - start] == T::apply_spec(op, x@[k - start], y@[k - start]));
    }
}

/// Applies `op` chunk by chunk, in increasing order, to the full chunks of
/// `N` pairs that fit from `start` up to `end`. Returns where the last chunk
/// ends.
pub(crate) fn apply_chunks<T: Element, const N: usize>(
    op: Op,
    left: &mut [T],
    right: &[T],
    start: usize,
    end: usize,
) -> (stop: usize)
    requires
        N >= 1,
        old(left)@.len() == right@.len(),
        start <= end <= right@.len(),
        defined_on_range(op, old(left)@, right@, start as int, end as int),
    ensures
        start <= stop <= end,
        stop == start + ((end - start) / (N as int)) * N,
        applied_on_range(op, old(left)@, final(left)@, right@, start as int, stop as int),
{
    let ghost before = left@;
    let ghost mut done: int = 0;
    let mut cur: usize = start;
    while N <= end - cur
        invariant
            N >= 1,
            start <= cur <= end,
            end <= right@.len(),
            before.len() == right@.len(),
            cur == start + done * N,
            0 <= done,
            defined_on_range(op, before, right@, start as int, end as int),
            applied_on_range(op, before, left@, right@, start as int, cur as int),
        decreases end - cur,
    {
        assert(defined_on_range(op, left@, right@, cur as int, cur + N)) by {
            assert forall|k: int| cur <= k < cur + N implies #[trigger] T::defined(
                op,
                left@[k],
                right@[k],
            ) by {
                assert(T::defined(op, before[k], right@[k]));
            }
        }
        apply_chunk::<T, N>(op, left, right, cur);
        cur += N;
        proof {
            done = done + 1;
            assert(cur == start + done * N) by (nonlinear_arith)
                requires
                    cur == start + (done - 1) * N + N,
            ;
        }
    }
    proof {
        let span = end - start;
        assert(done == span / (N as int)) by (nonlinear_arith)
            requires
                span - done * N < N,
                done * N <= span,
                0 <= done,
                N >= 1,
        ;
    }
    cur
}

/// Chunked dispatch with a fixed lane count `N`: the `len / N` full chunks
/// of both operands pair by index and go to the vector kernel in increasing
/// order; the remaining `len % N` elements are done one at a time.
pub fn chunked_apply<T: Element, const N: usize>(op: Op, left: &mut [T], right: &[T])
    requires
        N >= 1,
        old(left)@.len() == right@.len(),
        defined_on(op, old(left)@, right@),
    ensures
        final(left)@ == elementwise(op, old(left)@, right@),
{
    let ghost before = left@;
    let len = left.len();
    let stop = apply_chunks::<T, N>(op, left, right, 0, len);
    assert(defined_on_range(op, left@, right@, stop as int, len as int)) by {
        assert forall|k: int| stop <= k < len implies #[trigger] T::defined(
            op,
            left@[k],
            right@[k],
        ) by {
            assert(T::defined(op, before[k], right@[k]));
        }
    }
    apply_range(op, left, right, stop, len);
    assert(left@ =~= elementwise(op, before, right@));
}

} // verus!

//! Element-at-a-time application of an operator.

use vstd::prelude::*;

use crate::element::{defined_on, elementwise, Element, Op};
use crate::DispatchError;

verus! {

/// `left[k]` for `k` in `start..end` is `op` of the old `left[k]` and
/// `right[k]`; every other element of `left` is unchanged.
pub open spec fn applied_on_range<T: Element>(
    op: Op,
    before: Seq<T>,
    after: Seq<T>,
    right: Seq<T>,
    start: int,
    end: int,
) -> bool {
    &&& after.len() == before.len()
    &&& forall|k: int| start <= k < end ==> #[trigger] after[k] == T::apply_spec(op, before[k], right[k])
    &&& forall|k: int| 0 <= k < before.len() && !(start <= k < end) ==> #[trigger] after[k] == before[k]
}

/// `op` is defined on every pair at an index in `start..end`.
pub open spec fn defined_on_range<T: Element>(
    op: Op,
    a: Seq<T>,
    b: Seq<T>,
    start: int,
    end: int,
) -> bool {
    forall|k: int| start <= k < end ==> #[trigger] T::defined(op, a[k], b[k])
}

/// Applies `op` to the pairs at indices `start..end`, in increasing order.
pub(crate) fn apply_range<T: Element>(
    op: Op,
    left: &mut [T],
    right: &[T],
    start: usize,
    end: usize,
)
    requires
        old(left)@.len() == right@.len(),
        start <= end <= right@.len(),
        defined_on_range(op, old(left)@, right@, start as int, end as int),
    ensures
        applied_on_range(op, old(left)@, final(left)@, right@, start as int, end as int),
{
    let ghost before = left@;
    let mut i: usize = start;
    while i < end
        invariant
            start <= i <= end,
            end <= right@.len(),
            before.len() == right@.len(),
            defined_on_range(op, before, right@, start as int, end as int),
            applied_on_range(op, before, left@, right@, start as int, i as int),
        decreases end - i,
    {
        let x = left[i];
        let y = right[i];
        left[i] = T::apply(op, x, y);
        i += 1;
    }
}

/// Applies `op` element by element over the whole of both slices, with no
/// vector step at all.
pub fn scalar_apply<T: Element>(op: Op, left: &mut [T], right: &[T]) -> (r: Result<
    (),
    DispatchError,
>)
    requires
        defined_on(op, old(left)@, right@),
    ensures
        r is Err <==> old(left)@.len() != right@.len(),
        r is Err ==> r == Err::<(), DispatchError>(DispatchError::LengthMismatch) && final(left)@
            == old(left)@,
        r is Ok ==> final(left)@ == elementwise(op, old(left)@, right@),
{
    if left.len() != right.len() {
        return Err(DispatchError::LengthMismatch);
    }
    let ghost before = left@;
    assert(defined_on_range(op, before, right@, 0, before.len() as int));
    apply_range(op, left, right, 0, right.len());
    assert(left@ =~= elementwise(op, before, right@));
    Ok(())
}

} // verus!

//! The operator-generic entry points: choose a lane count for the call, then
//! hand the slices to the strategy that this lane count calls for.

use vstd::prelude::*;

use crate::chunked::chunked_apply;
use crate::element::{defined_on, elementwise, Element, Op};
use crate::mixed::{mixed_apply, prefix_len};
use crate::scalar::scalar_apply;
use crate::{nearest_spec, DispatchError, Lanes};

verus! {

/// The lane count that a call on `len` elements of `T` works with.
pub open spec fn lanes_for<T>(len: nat) -> nat {
    nearest_spec(vstd::layout::size_of::<T>(), len)
}

/// Applies `op` in place, `left[i] = op(left[i], right[i])`, with the
/// alignment-agnostic chunked strategy: the lane count is chosen from the
/// element size and the length; with no lane or one lane every element is
/// done on its own.
pub fn apply<T: Element>(op: Op, left: &mut [T], right: &[T]) -> (r: Result<(), DispatchError>)
    requires
        defined_on(op, old(left)@, right@),
    ensures
        r is Err <==> old(left)@.len() != right@.len(),
        r is Err ==> r == Err::<(), DispatchError>(DispatchError::LengthMismatch) && final(left)@
            == old(left)@,
        r is Ok ==> final(left)@ == elementwise(op, old(left)@, right@),
{
    if left.len() != right.len() {
        return Err(DispatchError::LengthMismatch);
    }
    proof {
        T::lemma_byte_size();
    }
    let ghost before = left@;
    match Lanes::nearest::<T>(left.len()) {
        Lanes::Zero => {
            assert(left@ =~= elementwise(op, before, right@));
            Ok(())
        },
        Lanes::One => scalar_apply(op, left, right),
        Lanes::Two => {
            chunked_apply::<T, 2>(op, left, right);
            Ok(())
        },
        Lanes::Four => {
            chunked_apply::<T, 4>(op, left, right);
            Ok(())
        },
        Lanes::Eight => {
            chunked_apply::<T, 8>(op, left, right);
            Ok(())
        },
        Lanes::Sixteen => {
            chunked_apply::<T, 16>(op, left, right);
            Ok(())
        },
        Lanes::ThirtyTwo => {
            chunked_apply::<T, 32>(op, left, right);
            Ok(())
        },
        Lanes::SixtyFour => {
            chunked_apply::<T, 64>(op, left, right);
            Ok(())
        },
    }
}

/// Applies `op` in place with the alignment-aware mixed strategy.
/// `left_addr` and `right_addr` are the base addresses of the operands; they
/// decide where each operand's aligned middle begins. With two or more lanes
/// the call fails with `SplitMismatch`, touching nothing, when the two
/// operands' prefixes differ in length.
pub fn apply_mixed<T: Element>(
    op: Op,
    left: &mut [T],
    right: &[T],
    left_addr: usize,
    right_addr: usize,
) -> (r: Result<(), DispatchError>)
    requires
        defined_on(op, old(left)@, right@),
    ensures
        r == Err::<(), DispatchError>(DispatchError::LengthMismatch) <==> old(left)@.len()
            != right@.len(),
        r == Err::<(), DispatchError>(DispatchError::SplitMismatch) <==> old(left)@.len()
            == right@.len() && lanes_for::<T>(right@.len()) >= 2 && prefix_len(
            left_addr as nat,
            vstd::layout::size_of::<T>(),
            lanes_for::<T>(right@.len()),
            right@.len(),
        ) != prefix_len(
            right_addr as nat,
            vstd::layout::size_of::<T>(),
            lanes_for::<T>(right@.len()),
            right@.len(),
        ),
        r is Err ==> final(left)@ == old(left)@,
        r is Ok ==> final(left)@ == elementwise(op, old(left)@, right@),
{
    if left.len() != right.len() {
        return Err(DispatchError::LengthMismatch);
    }
    proof {
        T::lemma_byte_size();
    }
    let ghost before = left@;
    match Lanes::nearest::<T>(left.len()) {
        Lanes::Zero => {
            assert(left@ =~= elementwise(op, before, right@));
            Ok(())
        },
        Lanes::One => scalar_apply(op, left, right),
        Lanes::Two => mixed_apply::<T, 2>(op, left, right, left_addr, right_addr),
        Lanes::Four => mixed_apply::<T, 4>(op, left, right, left_addr, right_addr),
        Lanes::Eight => mixed_apply::<T, 8>(op, left, right, left_addr, right_addr),
        Lanes::Sixteen => mixed_apply::<T, 16>(op, left, right, left_addr, right_addr),
        Lanes::ThirtyTwo => mixed_apply::<T, 32>(op, left, right, left_addr, right_addr),
        Lanes::SixtyFour => mixed_apply::<T, 64>(op, left, right, left_addr, right_addr),
    }
}

} // verus!

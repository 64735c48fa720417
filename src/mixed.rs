//! Alignment-aware dispatch: each operand is split by its own base address
//! into an unaligned prefix, a middle of naturally aligned `N`-element
//! chunks, and an unaligned suffix.

use vstd::prelude::*;

use crate::chunked::apply_chunks;
use crate::element::{defined_on, elementwise, Element, Op};
use crate::scalar::{apply_range, defined_on_range};
use crate::{is_vector_width, DispatchError};

verus! {

/// How many bytes past `addr` the next multiple of `align` lies.
pub open spec fn align_gap(addr: nat, align: nat) -> nat {
    ((align - addr % align) as nat) % align
}

/// The length of the unaligned prefix of `len` elements of `size` bytes that
/// start at address `addr`, for vectors of `n` lanes: the number of elements
/// before the first address that is a multiple of `n * size`, or the whole
/// slice when no element starts at such an address within it.
pub open spec fn prefix_len(addr: nat, size: nat, n: nat, len: nat) -> nat {
    let gap = align_gap(addr, n * size);
    if gap % size == 0 && gap / size <= len {
        gap / size
    } else {
        len
    }
}

/// The length of the aligned middle: as many whole `n`-element chunks as fit
/// after the prefix.
pub open spec fn middle_len(addr: nat, size: nat, n: nat, len: nat) -> nat {
    (((len - prefix_len(addr, size, n, len)) as nat) / n) * n
}

/// The number of edge elements, prefix and suffix together.
pub open spec fn edge_len(addr: nat, size: nat, n: nat, len: nat) -> nat {
    (len - middle_len(addr, size, n, len)) as nat
}

/// For two operands of equal length split for the same lane count, each
/// split covers at most the whole slice with a middle of whole chunks; the
/// edge counts agree exactly when the middle lengths agree; and both agree
/// whenever the prefixes do.
pub proof fn lemma_split_counts(left_addr: nat, right_addr: nat, size: nat, n: nat, len: nat)
    requires
        1 <= size,
        1 <= n,
    ensures
        prefix_len(left_addr, size, n, len) + middle_len(left_addr, size, n, len) <= len,
        middle_len(left_addr, size, n, len) % n == 0,
        edge_len(left_addr, size, n, len) == edge_len(right_addr, size, n, len) <==> middle_len(
            left_addr,
            size,
            n,
            len,
        ) == middle_len(right_addr, size, n, len),
        prefix_len(left_addr, size, n, len) == prefix_len(right_addr, size, n, len) ==> (middle_len(
            left_addr,
            size,
            n,
            len,
        ) == middle_len(right_addr, size, n, len) && edge_len(left_addr, size, n, len) == edge_len(
            right_addr,
            size,
            n,
            len,
        )),
{
    let rest = (len - prefix_len(left_addr, size, n, len)) as nat;
    let q = rest / n;
    assert(q * n <= rest) by (nonlinear_arith)
        requires
            1 <= n,
            q == rest / n,
    ;
    vstd::arithmetic::div_mod::lemma_mod_multiples_basic(q as int, n as int);
    let rest_r = (len - prefix_len(right_addr, size, n, len)) as nat;
    let q_r = rest_r / n;
    assert(q_r * n <= rest_r) by (nonlinear_arith)
        requires
            1 <= n,
            q_r == rest_r / n,
    ;
}

/// Splits `len` elements of `size` bytes at address `addr` for vectors of
/// `n` lanes; returns the prefix and middle lengths.
pub fn split_at_alignment(addr: usize, size: usize, n: usize, len: usize) -> (r: (usize, usize))
    requires
        1 <= size,
        1 <= n,
        n * size <= usize::MAX,
    ensures
        r.0 == prefix_len(addr as nat, size as nat, n as nat, len as nat),
        r.1 == middle_len(addr as nat, size as nat, n as nat, len as nat),
        r.0 + r.1 <= len,
{
    proof {
        assert(n * size >= 1) by (nonlinear_arith)
            requires
                1 <= size,
                1 <= n,
        ;
    }
    let align = n * size;
    let gap = (align - addr % align) % align;
    let prefix = if gap % size == 0 && gap / size <= len {
        gap / size
    } else {
        len
    };
    let rest = len - prefix;
    let chunks = rest / n;
    proof {
        assert(chunks * n <= rest) by (nonlinear_arith)
            requires
                1 <= n,
                chunks == rest / n,
        ;
    }
    (prefix, chunks * n)
}

/// Mixed dispatch with a fixed lane count `N`. `left_addr` and `right_addr`
/// are the base addresses of the two operands. Edge elements are done one at
/// a time and middle chunks by the vector kernel, each in increasing index
/// order; the call works through prefix, middle and suffix in turn.
///
/// The two splits are computed independently and then checked against each
/// other before any element is written: pairing edges with edges and middles
/// with middles keeps indices in step only when both operands have the same
/// prefix length, so on any other pair of splits the call fails with
/// `SplitMismatch`.
pub fn mixed_apply<T: Element, const N: usize>(
    op: Op,
    left: &mut [T],
    right: &[T],
    left_addr: usize,
    right_addr: usize,
) -> (r: Result<(), DispatchError>)
    requires
        is_vector_width(N as nat),
        defined_on(op, old(left)@, right@),
    ensures
        r == Err::<(), DispatchError>(DispatchError::LengthMismatch) <==> old(left)@.len()
            != right@.len(),
        r == Err::<(), DispatchError>(DispatchError::SplitMismatch) <==> old(left)@.len()
            == right@.len() && prefix_len(
            left_addr as nat,
            vstd::layout::size_of::<T>(),
            N as nat,
            right@.len(),
        ) != prefix_len(right_addr as nat, vstd::layout::size_of::<T>(), N as nat, right@.len()),
        r is Err ==> final(left)@ == old(left)@,
        r is Ok ==> final(left)@ == elementwise(op, old(left)@, right@),
{
    if left.len() != right.len() {
        return Err(DispatchError::LengthMismatch);
    }
    let len = left.len();
    proof {
        T::lemma_byte_size();
    }
    let size = core::mem::size_of::<T>();
    let (left_prefix, left_middle) = split_at_alignment(left_addr, size, N, len);
    let (right_prefix, right_middle) = split_at_alignment(right_addr, size, N, len);
    if left_prefix != right_prefix || left_middle != right_middle {
        return Err(DispatchError::SplitMismatch);
    }
    let ghost before = left@;
    let suffix_start = left_prefix + left_middle;
    // Prefix, aligned middle and suffix, in index order.
    assert(defined_on_range(op, left@, right@, 0, left_prefix as int));
    apply_range(op, left, right, 0, left_prefix);
    let ghost after_prefix = left@;
    assert(defined_on_range(op, left@, right@, left_prefix as int, len as int)) by {
        assert forall|k: int| left_prefix <= k < len implies #[trigger] T::defined(
            op,
            left@[k],
            right@[k],
        ) by {
            assert(T::defined(op, before[k], right@[k]));
        }
    }
    let stop = apply_chunks::<T, N>(op, left, right, left_prefix, len);
    assert(stop == suffix_start);
    let ghost after_middle = left@;
    assert(defined_on_range(op, left@, right@, suffix_start as int, len as int)) by {
        assert forall|k: int| suffix_start <= k < len implies #[trigger] T::defined(
            op,
            left@[k],
            right@[k],
        ) by {
            assert(T::defined(op, before[k], right@[k]));
        }
    }
    apply_range(op, left, right, suffix_start, len);
    assert(left@ =~= elementwise(op, before, right@)) by {
        assert forall|k: int| 0 <= k < len implies left@[k] == T::apply_spec(
            op,
            before[k],
            right@[k],
        ) by {
            if k < left_prefix {
                assert(after_prefix[k] == T::apply_spec(op, before[k], right@[k]));
            } else if k < suffix_start {
                assert(after_middle[k] == T::apply_spec(op, after_prefix[k], right@[k]));
            } else {
                assert(after_middle[k] == before[k]);
            }
        }
    }
    Ok(())
}

} // verus!

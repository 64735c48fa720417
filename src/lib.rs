//! In-place elementwise binary operations over pairs of numeric slices,
//! carved into the widest vector-sized pieces that the element type and the
//! slice length allow, with a scalar remainder.

use vstd::prelude::*;

pub mod chunked;
pub mod dispatch;
pub mod element;
pub mod mixed;
pub mod scalar;

use crate::element::{defined_on, elementwise, Element, Op};

verus! {

/// Why a dispatch refused to touch its operands.
#[derive(Clone, Copy, Debug, PartialEq, Eq)]
pub enum DispatchError {
    /// The two operand slices differ in length.
    LengthMismatch,
    /// The aligned splits of the two operands would pair elements of
    /// different indices.
    SplitMismatch,
}

/// The widest vector register, in bytes, that a lane count may fill.
pub const MAX_VECTOR_BYTES: usize = 64;

/// A fixed-width vector of `N` elements, operated on as one unit.
#[derive(Clone, Copy, Debug)]
pub struct Simd<T, const N: usize>([T; N]);

impl<T, const N: usize> View for Simd<T, N> {
    type V = Seq<T>;

    closed spec fn view(&self) -> Seq<T> {
        self.0@
    }
}

impl<T: Copy, const N: usize> Simd<T, N> {
    pub fn from_array(array: [T; N]) -> (r: Self)
        ensures
            r@ == array@,
    {
        Self(array)
    }

    pub fn to_array(self) -> (r: [T; N])
        ensures
            r@ == self@,
    {
        self.0
    }
}

impl<T: Element, const N: usize> Simd<T, N> {
    /// The vector kernel: `op` applied lane by lane to `self` and `other`.
    /// Both operands are read before the result is formed, so a vector
    /// combined with itself is combined with its own unchanged lanes.
    pub fn lanewise(self, op: Op, other: Self) -> (r: Self)
        requires
            defined_on(op, self@, other@),
        ensures
            r@ == elementwise(op, self@, other@),
    {
        let mut out = self.0;
        let mut i: usize = 0;
        while i < N
            invariant
                i <= N,
                out@.len() == N,
                self.0@.len() == N,
                other.0@.len() == N,
                defined_on(op, self.0@, other.0@),
                forall|k: int| 0 <= k < i ==> out@[k] == T::apply_spec(op, self.0@[k], other.0@[k]),
            decreases N - i,
        {
            out[i] = T::apply(op, self.0[i], other.0[i]);
            i += 1;
        }
        assert(out@ =~= elementwise(op, self.0@, other.0@));
        Simd(out)
    }
}

/// A supported vector width, in lanes.
#[derive(Clone, Copy, Debug, PartialEq, Eq)]
pub enum Lanes {
    Zero,
    One,
    Two,
    Four,
    Eight,
    Sixteen,
    ThirtyTwo,
    SixtyFour,
}

/// `n` is a lane count that a vector kernel can be built for.
pub open spec fn is_vector_width(n: nat) -> bool {
    n == 1 || n == 2 || n == 4 || n == 8 || n == 16 || n == 32 || n == 64
}

/// The largest supported lane count not above `n`, for `n` up to 64.
pub open spec fn floor_lane_count(n: nat) -> nat {
    if n >= 64 {
        64
    } else if n >= 32 {
        32
    } else if n >= 16 {
        16
    } else if n >= 8 {
        8
    } else if n >= 4 {
        4
    } else if n >= 2 {
        2
    } else {
        n
    }
}

/// How many elements of `size` bytes one vector register holds at most.
pub open spec fn register_capacity(size: nat) -> nat {
    MAX_VECTOR_BYTES as nat / size
}

/// `len` clamped to the register's capacity for elements of `size` bytes.
pub open spec fn capped_len(size: nat, len: nat) -> nat {
    if len <= register_capacity(size) {
        len
    } else {
        register_capacity(size)
    }
}

/// The lane count chosen for `len` elements of `size` bytes each: the largest
/// power of two not above `len` nor above the register's capacity.
pub open spec fn nearest_spec(size: nat, len: nat) -> nat {
    floor_lane_count(capped_len(size, len))
}

impl Lanes {
    pub open spec fn count_spec(self) -> nat {
        match self {
            Lanes::Zero => 0,
            Lanes::One => 1,
            Lanes::Two => 2,
            Lanes::Four => 4,
            Lanes::Eight => 8,
            Lanes::Sixteen => 16,
            Lanes::ThirtyTwo => 32,
            Lanes::SixtyFour => 64,
        }
    }

    /// The number of lanes as an integer.
    pub fn count(self) -> (r: usize)
        ensures
            r == self.count_spec(),
    {
        match self {
            Lanes::Zero => 0,
            Lanes::One => 1,
            Lanes::Two => 2,
            Lanes::Four => 4,
            Lanes::Eight => 8,
            Lanes::Sixteen => 16,
            Lanes::ThirtyTwo => 32,
            Lanes::SixtyFour => 64,
        }
    }

    /// Returns the nearest supported lane count for `len` elements of `T`.
    pub fn nearest<T>(len: usize) -> (r: Self)
        requires
            1 <= vstd::layout::size_of::<T>() <= MAX_VECTOR_BYTES,
        ensures
            r.count_spec() == nearest_spec(vstd::layout::size_of::<T>(), len as nat),
            r == Lanes::Zero <==> len == 0,
            r.count_spec() * vstd::layout::size_of::<T>() <= MAX_VECTOR_BYTES,
            len > 0 ==> r.count_spec() <= capped_len(vstd::layout::size_of::<T>(), len as nat) < 2
                * r.count_spec(),
    {
        let size = core::mem::size_of::<T>();
        let capacity = MAX_VECTOR_BYTES / size;
        let capped = if len <= capacity {
            len
        } else {
            capacity
        };
        proof {
            let s = size as nat;
            assert(capacity * s <= MAX_VECTOR_BYTES) by (nonlinear_arith)
                requires
                    capacity == MAX_VECTOR_BYTES as nat / s,
                    s >= 1,
            ;
            assert(1 <= capacity <= 64) by (nonlinear_arith)
                requires
                    capacity == MAX_VECTOR_BYTES as nat / s,
                    1 <= s <= 64,
            ;
            assert(capped <= capacity);
            assert(floor_lane_count(capped as nat) * s <= MAX_VECTOR_BYTES) by (nonlinear_arith)
                requires
                    floor_lane_count(capped as nat) <= capped,
                    capped <= capacity,
                    capacity * s <= MAX_VECTOR_BYTES,
            ;
        }
        if capped >= 64 {
            Lanes::SixtyFour
        } else if capped >= 32 {
            Lanes::ThirtyTwo
        } else if capped >= 16 {
            Lanes::Sixteen
        } else if capped >= 8 {
            Lanes::Eight
        } else if capped >= 4 {
            Lanes::Four
        } else if capped >= 2 {
            Lanes::Two
        } else if capped == 1 {
            Lanes::One
        } else {
            Lanes::Zero
        }
    }
}

/// Lane selection is idempotent: choosing again for a length equal to the
/// chosen lane count gives that same lane count.
pub proof fn lemma_nearest_idempotent(size: nat, len: nat)
    requires
        1 <= size <= MAX_VECTOR_BYTES,
    ensures
        nearest_spec(size, nearest_spec(size, len)) == nearest_spec(size, len),
{
}

} // verus!

//! Operator tags, the element types they act on, and the elementwise model
//! that every dispatch strategy is held to.

use vstd::prelude::*;
use vstd::wrapping::{
    i16_specs, i32_specs, i64_specs, i8_specs, u16_specs, u32_specs, u64_specs, u8_specs,
};

verus! {

/// One of the ten binary operator kinds.
#[derive(Clone, Copy, Debug, PartialEq, Eq)]
pub enum Op {
    Add,
    Sub,
    Mul,
    Div,
    Rem,
    BitAnd,
    BitOr,
    BitXor,
    Shl,
    Shr,
}

/// A numeric element type that the operators are defined on.
///
/// `apply_spec` is the mathematical meaning of one operator on one pair of
/// elements; `defined` says on which pairs the operator may be applied (no
/// division by zero, no signed division of the lowest value by `-1`, no
/// shift by a negative amount or by the bit width or more). Addition,
/// subtraction and multiplication wrap, as the vector units do; signed
/// division rounds toward zero and the remainder takes the dividend's sign.
pub trait Element: Copy + Sized {
    spec fn apply_spec(op: Op, a: Self, b: Self) -> Self;

    spec fn defined(op: Op, a: Self, b: Self) -> bool;

    /// Every element type fits in one vector register many times over.
    proof fn lemma_byte_size()
        ensures
            1 <= vstd::layout::size_of::<Self>() <= 8,
    ;

    /// Tells whether `op` may be applied to `a` and `b`.
    fn is_defined(op: Op, a: Self, b: Self) -> (r: bool)
        ensures
            r == Self::defined(op, a, b),
    ;

    /// Applies `op` to one pair of elements.
    fn apply(op: Op, a: Self, b: Self) -> (r: Self)
        requires
            Self::defined(op, a, b),
        ensures
            r == Self::apply_spec(op, a, b),
    ;
}

/// The elementwise result of `op` over two sequences of equal length.
pub open spec fn elementwise<T: Element>(op: Op, a: Seq<T>, b: Seq<T>) -> Seq<T> {
    Seq::new(a.len(), |i: int| T::apply_spec(op, a[i], b[i]))
}

/// `op` is defined on every pair of elements at a shared index.
pub open spec fn defined_on<T: Element>(op: Op, a: Seq<T>, b: Seq<T>) -> bool {
    forall|i: int| 0 <= i < a.len() && i < b.len() ==> #[trigger] T::defined(op, a[i], b[i])
}

/// An operand combined with a snapshot of itself: each element is combined
/// once with its own old value, and nothing is applied twice.
pub proof fn lemma_self_operand<T: Element>(op: Op, s: Seq<T>, snapshot: Seq<T>)
    requires
        snapshot == s,
    ensures
        elementwise(op, s, snapshot).len() == s.len(),
        forall|i: int|
            0 <= i < s.len() ==> #[trigger] elementwise(op, s, snapshot)[i] == T::apply_spec(
                op,
                s[i],
                s[i],
            ),
{
}

impl Element for u8 {
    open spec fn apply_spec(op: Op, a: u8, b: u8) -> u8 {
        match op {
            Op::Add => u8_specs::wrapping_add(a, b),
            Op::Sub => u8_specs::wrapping_sub(a, b),
            Op::Mul => u8_specs::wrapping_mul(a, b),
            Op::Div => a / b,
            Op::Rem => a % b,
            Op::BitAnd => a & b,
            Op::BitOr => a | b,
            Op::BitXor => a ^ b,
            Op::Shl => a << b,
            Op::Shr => a >> b,
        }
    }

    open spec fn defined(op: Op, a: u8, b: u8) -> bool {
        match op {
            Op::Div | Op::Rem => b != 0,
            Op::Shl | Op::Shr => b < 8,
            _ => true,
        }
    }

    proof fn lemma_byte_size() {
        broadcast use vstd::layout::layout_of_primitives;

        assert(vstd::layout::size_of::<u8>() == 1);
    }

    fn is_defined(op: Op, a: u8, b: u8) -> (r: bool) {
        match op {
            Op::Div | Op::Rem => b != 0,
            Op::Shl | Op::Shr => b < 8,
            _ => true,
        }
    }

    fn apply(op: Op, a: u8, b: u8) -> (r: u8) {
        match op {
            Op::Add => a.wrapping_add(b),
            Op::Sub => a.wrapping_sub(b),
            Op::Mul => a.wrapping_mul(b),
            Op::Div => a / b,
            Op::Rem => a % b,
            Op::BitAnd => a & b,
            Op::BitOr => a | b,
            Op::BitXor => a ^ b,
            Op::Shl => a << b,
            Op::Shr => a >> b,
        }
    }
}

impl Element for u16 {
    open spec fn apply_spec(op: Op, a: u16, b: u16) -> u16 {
        match op {
            Op::Add => u16_specs::wrapping_add(a, b),
            Op::Sub => u16_specs::wrapping_sub(a, b),
            Op::Mul => u16_specs::wrapping_mul(a, b),
            Op::Div => a / b,
            Op::Rem => a % b,
            Op::BitAnd => a & b,
            Op::BitOr => a | b,
            Op::BitXor => a ^ b,
            Op::Shl => a << b,
            Op::Shr => a >> b,
        }
    }

    open spec fn defined(op: Op, a: u16, b: u16) -> bool {
        match op {
            Op::Div | Op::Rem => b != 0,
            Op::Shl | Op::Shr => b < 16,
            _ => true,
        }
    }

    proof fn lemma_byte_size() {
        broadcast use vstd::layout::layout_of_primitives;

        assert(vstd::layout::size_of::<u16>() == 2);
    }

    fn is_defined(op: Op, a: u16, b: u16) -> (r: bool) {
        match op {
            Op::Div | Op::Rem => b != 0,
            Op::Shl | Op::Shr => b < 16,
            _ => true,
        }
    }

    fn apply(op: Op, a: u16, b: u16) -> (r: u16) {
        match op {
            Op::Add => a.wrapping_add(b),
            Op::Sub => a.wrapping_sub(b),
            Op::Mul => a.wrapping_mul(b),
            Op::Div => a / b,
            Op::Rem => a % b,
            Op::BitAnd => a & b,
            Op::BitOr => a | b,
            Op::BitXor => a ^ b,
            Op::Shl => a << b,
            Op::Shr => a >> b,
        }
    }
}

impl Element for u32 {
    open spec fn apply_spec(op: Op, a: u32, b: u32) -> u32 {
        match op {
            Op::Add => u32_specs::wrapping_add(a, b),
            Op::Sub => u32_specs::wrapping_sub(a, b),
            Op::Mul => u32_specs::wrapping_mul(a, b),
            Op::Div => a / b,
            Op::Rem => a % b,
            Op::BitAnd => a & b,
            Op::BitOr => a | b,
            Op::BitXor => a ^ b,
            Op::Shl => a << b,
            Op::Shr => a >> b,
        }
    }

    open spec fn defined(op: Op, a: u32, b: u32) -> bool {
        match op {
            Op::Div | Op::Rem => b != 0,
            Op::Shl | Op::Shr => b < 32,
            _ => true,
        }
    }

    proof fn lemma_byte_size() {
        broadcast use vstd::layout::layout_of_primitives;

        assert(vstd::layout::size_of::<u32>() == 4);
    }

    fn is_defined(op: Op, a: u32, b: u32) -> (r: bool) {
        match op {
            Op::Div | Op::Rem => b != 0,
            Op::Shl | Op::Shr => b < 32,
            _ => true,
        }
    }

    fn apply(op: Op, a: u32, b: u32) -> (r: u32) {
        match op {
            Op::Add => a.wrapping_add(b),
            Op::Sub => a.wrapping_sub(b),
            Op::Mul => a.wrapping_mul(b),
            Op::Div => a / b,
            Op::Rem => a % b,
            Op::BitAnd => a & b,
            Op::BitOr => a | b,
            Op::BitXor => a ^ b,
            Op::Shl => a << b,
            Op::Shr => a >> b,
        }
    }
}

impl Element for u64 {
    open spec fn apply_spec(op: Op, a: u64, b: u64) -> u64 {
        match op {
            Op::Add => u64_specs::wrapping_add(a, b),
            Op::Sub => u64_specs::wrapping_sub(a, b),
            Op::Mul => u64_specs::wrapping_mul(a, b),
            Op::Div => a / b,
            Op::Rem => a % b,
            Op::BitAnd => a & b,
            Op::BitOr => a | b,
            Op::BitXor => a ^ b,
            Op::Shl => a << b,
            Op::Shr => a >> b,
        }
    }

    open spec fn defined(op: Op, a: u64, b: u64) -> bool {
        match op {
            Op::Div | Op::Rem => b != 0,
            Op::Shl | Op::Shr => b < 64,
            _ => true,
        }
    }

    proof fn lemma_byte_size() {
        broadcast use vstd::layout::layout_of_primitives;

        assert(vstd::layout::size_of::<u64>() == 8);
    }

    fn is_defined(op: Op, a: u64, b: u64) -> (r: bool) {
        match op {
            Op::Div | Op::Rem => b != 0,
            Op::Shl | Op::Shr => b < 64,
            _ => true,
        }
    }

    fn apply(op: Op, a: u64, b: u64) -> (r: u64) {
        match op {
            Op::Add => a.wrapping_add(b),
            Op::Sub => a.wrapping_sub(b),
            Op::Mul => a.wrapping_mul(b),
            Op::Div => a / b,
            Op::Rem => a % b,
            Op::BitAnd => a & b,
            Op::BitOr => a | b,
            Op::BitXor => a ^ b,
            Op::Shl => a << b,
            Op::Shr => a >> b,
        }
    }
}

/// Division rounding toward zero, as Rust's `/` on signed integers does.
pub open spec fn quotient_toward_zero(x: int, d: int) -> int {
    if x == 0 {
        0
    } else if x > 0 && d > 0 {
        x / d
    } else if x < 0 && d < 0 {
        (x * -1) / (d * -1)
    } else if x < 0 {
        ((x * -1) / d) * -1
    } else {
        (x / (d * -1)) * -1
    }
}

/// A signed quotient leaves the range `-hi - 1 ..= hi` of its operands only
/// for the lowest value divided by `-1`.
proof fn lemma_quotient_in_range(x: int, d: int, hi: int)
    requires
        hi >= 1,
        -hi - 1 <= x <= hi,
        d != 0,
        -hi - 1 <= d <= hi,
        !(x == -hi - 1 && d == -1),
    ensures
        -hi - 1 <= quotient_toward_zero(x, d) <= hi,
{
    if x > 0 && d > 0 {
        assert(0 <= x / d <= x) by (nonlinear_arith)
            requires
                x > 0,
                d > 0,
        ;
    } else if x < 0 && d < 0 {
        let a = x * -1;
        let b = d * -1;
        if b == 1 {
            assert(a / b == a);
        } else {
            assert(0 <= a / b <= a / 2) by (nonlinear_arith)
                requires
                    a > 0,
                    b >= 2,
            ;
        }
    } else if x < 0 {
        let a = x * -1;
        assert(0 <= a / d <= a) by (nonlinear_arith)
            requires
                a > 0,
                d > 0,
        ;
    } else if x > 0 {
        let b = d * -1;
        assert(0 <= x / b <= x) by (nonlinear_arith)
            requires
                x > 0,
                b > 0,
        ;
    }
}

impl Element for i8 {
    open spec fn apply_spec(op: Op, a: i8, b: i8) -> i8 {
        match op {
            Op::Add => i8_specs::wrapping_add(a, b),
            Op::Sub => i8_specs::wrapping_sub(a, b),
            Op::Mul => i8_specs::wrapping_mul(a, b),
            Op::Div => quotient_toward_zero(a as int, b as int) as i8,
            Op::Rem => a.checked_rem(b).unwrap(),
            Op::BitAnd => a & b,
            Op::BitOr => a | b,
            Op::BitXor => a ^ b,
            Op::Shl => a << b,
            Op::Shr => a >> b,
        }
    }

    open spec fn defined(op: Op, a: i8, b: i8) -> bool {
        match op {
            Op::Div | Op::Rem => b != 0 && !(a == i8::MIN && b == -1),
            Op::Shl | Op::Shr => 0 <= b < 8,
            _ => true,
        }
    }

    proof fn lemma_byte_size() {
        broadcast use vstd::layout::layout_of_primitives;

        assert(vstd::layout::size_of::<i8>() == 1);
    }

    fn is_defined(op: Op, a: i8, b: i8) -> (r: bool) {
        match op {
            Op::Div | Op::Rem => b != 0 && !(a == i8::MIN && b == -1),
            Op::Shl | Op::Shr => 0 <= b && b < 8,
            _ => true,
        }
    }

    fn apply(op: Op, a: i8, b: i8) -> (r: i8) {
        match op {
            Op::Add => a.wrapping_add(b),
            Op::Sub => a.wrapping_sub(b),
            Op::Mul => a.wrapping_mul(b),
            Op::Div => {
                proof {
                    lemma_quotient_in_range(a as int, b as int, i8::MAX as int);
                }
                a.checked_div(b).unwrap()
            },
            Op::Rem => a.checked_rem(b).unwrap(),
            Op::BitAnd => a & b,
            Op::BitOr => a | b,
            Op::BitXor => a ^ b,
            Op::Shl => a << b,
            Op::Shr => a >> b,
        }
    }
}

impl Element for i16 {
    open spec fn apply_spec(op: Op, a: i16, b: i16) -> i16 {
        match op {
            Op::Add => i16_specs::wrapping_add(a, b),
            Op::Sub => i16_specs::wrapping_sub(a, b),
            Op::Mul => i16_specs::wrapping_mul(a, b),
            Op::Div => quotient_toward_zero(a as int, b as int) as i16,
            Op::Rem => a.checked_rem(b).unwrap(),
            Op::BitAnd => a & b,
            Op::BitOr => a | b,
            Op::BitXor => a ^ b,
            Op::Shl => a << b,
            Op::Shr => a >> b,
        }
    }

    open spec fn defined(op: Op, a: i16, b: i16) -> bool {
        match op {
            Op::Div | Op::Rem => b != 0 && !(a == i16::MIN && b == -1),
            Op::Shl | Op::Shr => 0 <= b < 16,
            _ => true,
        }
    }

    proof fn lemma_byte_size() {
        broadcast use vstd::layout::layout_of_primitives;

        assert(vstd::layout::size_of::<i16>() == 2);
    }

    fn is_defined(op: Op, a: i16, b: i16) -> (r: bool) {
        match op {
            Op::Div | Op::Rem => b != 0 && !(a == i16::MIN && b == -1),
            Op::Shl | Op::Shr => 0 <= b && b < 16,
            _ => true,
        }
    }

    fn apply(op: Op, a: i16, b: i16) -> (r: i16) {
        match op {
            Op::Add => a.wrapping_add(b),
            Op::Sub => a.wrapping_sub(b),
            Op::Mul => a.wrapping_mul(b),
            Op::Div => {
                proof {
                    lemma_quotient_in_range(a as int, b as int, i16::MAX as int);
                }
                a.checked_div(b).unwrap()
            },
            Op::Rem => a.checked_rem(b).unwrap(),
            Op::BitAnd => a & b,
            Op::BitOr => a | b,
            Op::BitXor => a ^ b,
            Op::Shl => a << b,
            Op::Shr => a >> b,
        }
    }
}

impl Element for i32 {
    open spec fn apply_spec(op: Op, a: i32, b: i32) -> i32 {
        match op {
            Op::Add => i32_specs::wrapping_add(a, b),
            Op::Sub => i32_specs::wrapping_sub(a, b),
            Op::Mul => i32_specs::wrapping_mul(a, b),
            Op::Div => quotient_toward_zero(a as int, b as int) as i32,
            Op::Rem => a.checked_rem(b).unwrap(),
            Op::BitAnd => a & b,
            Op::BitOr => a | b,
            Op::BitXor => a ^ b,
            Op::Shl => a << b,
            Op::Shr => a >> b,
        }
    }

    open spec fn defined(op: Op, a: i32, b: i32) -> bool {
        match op {
            Op::Div | Op::Rem => b != 0 && !(a == i32::MIN && b == -1),
            Op::Shl | Op::Shr => 0 <= b < 32,
            _ => true,
        }
    }

    proof fn lemma_byte_size() {
        broadcast use vstd::layout::layout_of_primitives;

        assert(vstd::layout::size_of::<i32>() == 4);
    }

    fn is_defined(op: Op, a: i32, b: i32) -> (r: bool) {
        match op {
            Op::Div | Op::Rem => b != 0 && !(a == i32::MIN && b == -1),
            Op::Shl | Op::Shr => 0 <= b && b < 32,
            _ => true,
        }
    }

    fn apply(op: Op, a: i32, b: i32) -> (r: i32) {
        match op {
            Op::Add => a.wrapping_add(b),
            Op::Sub => a.wrapping_sub(b),
            Op::Mul => a.wrapping_mul(b),
            Op::Div => {
                proof {
                    lemma_quotient_in_range(a as int, b as int, i32::MAX as int);
                }
                a.checked_div(b).unwrap()
            },
            Op::Rem => a.checked_rem(b).unwrap(),
            Op::BitAnd => a & b,
            Op::BitOr => a | b,
            Op::BitXor => a ^ b,
            Op::Shl => a << b,
            Op::Shr => a >> b,
        }
    }
}

impl Element for i64 {
    open spec fn apply_spec(op: Op, a: i64, b: i64) -> i64 {
        match op {
            Op::Add => i64_specs::wrapping_add(a, b),
            Op::Sub => i64_specs::wrapping_sub(a, b),
            Op::Mul => i64_specs::wrapping_mul(a, b),
            Op::Div => quotient_toward_zero(a as int, b as int) as i64,
            Op::Rem => a.checked_rem(b).unwrap(),
            Op::BitAnd => a & b,
            Op::BitOr => a | b,
            Op::BitXor => a ^ b,
            Op::Shl => a << b,
            Op::Shr => a >> b,
        }
    }

    open spec fn defined(op: Op, a: i64, b: i64) -> bool {
        match op {
            Op::Div | Op::Rem => b != 0 && !(a == i64::MIN && b == -1),
            Op::Shl | Op::Shr => 0 <= b < 64,
            _ => true,
        }
    }

    proof fn lemma_byte_size() {
        broadcast use vstd::layout::layout_of_primitives;

        assert(vstd::layout::size_of::<i64>() == 8);
    }

    fn is_defined(op: Op, a: i64, b: i64) -> (r: bool) {
        match op {
            Op::Div | Op::Rem => b != 0 && !(a == i64::MIN && b == -1),
            Op::Shl | Op::Shr => 0 <= b && b < 64,
            _ => true,
        }
    }

    fn apply(op: Op, a: i64, b: i64) -> (r: i64) {
        match op {
            Op::Add => a.wrapping_add(b),
            Op::Sub => a.wrapping_sub(b),
            Op::Mul => a.wrapping_mul(b),
            Op::Div => {
                proof {
                    lemma_quotient_in_range(a as int, b as int, i64::MAX as int);
                }
                a.checked_div(b).unwrap()
            },
            Op::Rem => a.checked_rem(b).unwrap(),
            Op::BitAnd => a & b,
            Op::BitOr => a | b,
            Op::BitXor => a ^ b,
            Op::Shl => a << b,
            Op::Shr => a >> b,
        }
    }
}

} // verus!

use lanewise::chunked::chunked_apply;
use lanewise::dispatch::{apply, apply_mixed};
use lanewise::element::{Element, Op};
use lanewise::mixed::{mixed_apply, split_at_alignment};
use lanewise::scalar::scalar_apply;
use lanewise::{DispatchError, Lanes, Simd};
use std::fmt::Debug;

const LENGTHS: [usize; 21] = [
    0, 1, 2, 3, 4, 5, 7, 8, 9, 15, 16, 17, 31, 32, 33, 63, 64, 65, 127, 128, 129,
];

const ALL_OPS: [Op; 10] = [
    Op::Add,
    Op::Sub,
    Op::Mul,
    Op::Div,
    Op::Rem,
    Op::BitAnd,
    Op::BitOr,
    Op::BitXor,
    Op::Shl,
    Op::Shr,
];

fn truth_u8(op: Op, a: u8, b: u8) -> u8 {
    match op {
        Op::Add => a.wrapping_add(b),
        Op::Sub => a.wrapping_sub(b),
        Op::Mul => a.wrapping_mul(b),
        Op::Div => a / b,
        Op::Rem => a % b,
        Op::BitAnd => a & b,
        Op::BitOr => a | b,
        Op::BitXor => a ^ b,
        Op::Shl => a << b,
        Op::Shr => a >> b,
    }
}

fn truth_u16(op: Op, a: u16, b: u16) -> u16 {
    match op {
        Op::Add => a.wrapping_add(b),
        Op::Sub => a.wrapping_sub(b),
        Op::Mul => a.wrapping_mul(b),
        Op::Div => a / b,
        Op::Rem => a % b,
        Op::BitAnd => a & b,
        Op::BitOr => a | b,
        Op::BitXor => a ^ b,
        Op::Shl => a << b,
        Op::Shr => a >> b,
    }
}

fn truth_u32(op: Op, a: u32, b: u32) -> u32 {
    match op {
        Op::Add => a.wrapping_add(b),
        Op::Sub => a.wrapping_sub(b),
        Op::Mul => a.wrapping_mul(b),
        Op::Div => a / b,
        Op::Rem => a % b,
        Op::BitAnd => a & b,
        Op::BitOr => a | b,
        Op::BitXor => a ^ b,
        Op::Shl => a << b,
        Op::Shr => a >> b,
    }
}

fn truth_u64(op: Op, a: u64, b: u64) -> u64 {
    match op {
        Op::Add => a.wrapping_add(b),
        Op::Sub => a.wrapping_sub(b),
        Op::Mul => a.wrapping_mul(b),
        Op::Div => a / b,
        Op::Rem => a % b,
        Op::BitAnd => a & b,
        Op::BitOr => a | b,
        Op::BitXor => a ^ b,
        Op::Shl => a << b,
        Op::Shr => a >> b,
    }
}

/// Left operand values, large enough that additions and products wrap.
fn left_value(i: usize) -> u64 {
    (i as u64).wrapping_mul(0x9E37_79B9_7F4A_7C15) ^ 0xF0F0_F0F0_F0F0_F0F7
}

/// Right operand values: never zero, and small enough to be a shift amount.
fn right_value(i: usize) -> u64 {
    (i as u64 % 7) + 1
}

#[test]
fn every_length_matches_scalar_truth_u8() {
    for &op in ALL_OPS.iter() {
        for &len in LENGTHS.iter() {
            let left: Vec<u8> = (0..len).map(|i| left_value(i) as u8).collect();
            let right: Vec<u8> = (0..len).map(|i| right_value(i) as u8).collect();
            let want: Vec<u8> = (0..len).map(|i| truth_u8(op, left[i], right[i])).collect();
            let mut a = left.clone();
            assert_eq!(apply(op, &mut a, &right), Ok(()));
            assert_eq!(a, want);
            let mut b = left.clone();
            assert_eq!(apply_mixed(op, &mut b, &right, 0x40, 0x80), Ok(()));
            assert_eq!(b, want);
            let mut c = left.clone();
            assert_eq!(scalar_apply(op, &mut c, &right), Ok(()));
            assert_eq!(c, want);
        }
    }
}

#[test]
fn every_length_matches_scalar_truth_u16() {
    for &op in ALL_OPS.iter() {
        for &len in LENGTHS.iter() {
            let left: Vec<u16> = (0..len).map(|i| left_value(i) as u16).collect();
            let right: Vec<u16> = (0..len).map(|i| right_value(i) as u16).collect();
            let want: Vec<u16> = (0..len).map(|i| truth_u16(op, left[i], right[i])).collect();
            let mut a = left.clone();
            assert_eq!(apply(op, &mut a, &right), Ok(()));
            assert_eq!(a, want);
            let mut b = left.clone();
            assert_eq!(apply_mixed(op, &mut b, &right, 0x42, 0x82), Ok(()));
            assert_eq!(b, want);
        }
    }
}

#[test]
fn every_length_matches_scalar_truth_u32() {
    for &op in ALL_OPS.iter() {
        for &len in LENGTHS.iter() {
            let left: Vec<u32> = (0..len).map(|i| left_value(i) as u32).collect();
            let right: Vec<u32> = (0..len).map(|i| right_value(i) as u32).collect();
            let want: Vec<u32> = (0..len).map(|i| truth_u32(op, left[i], right[i])).collect();
            let mut a = left.clone();
            assert_eq!(apply(op, &mut a, &right), Ok(()));
            assert_eq!(a, want);
            let mut b = left.clone();
            assert_eq!(apply_mixed(op, &mut b, &right, 0x44, 0x1004), Ok(()));
            assert_eq!(b, want);
        }
    }
}

#[test]
fn every_length_matches_scalar_truth_u64() {
    for &op in ALL_OPS.iter() {
        for &len in LENGTHS.iter() {
            let left: Vec<u64> = (0..len).map(left_value).collect();
            let right: Vec<u64> = (0..len).map(right_value).collect();
            let want: Vec<u64> = (0..len).map(|i| truth_u64(op, left[i], right[i])).collect();
            let mut a = left.clone();
            assert_eq!(apply(op, &mut a, &right), Ok(()));
            assert_eq!(a, want);
            let mut b = left.clone();
            assert_eq!(apply_mixed(op, &mut b, &right, 0x48, 0x88), Ok(()));
            assert_eq!(b, want);
        }
    }
}

#[test]
fn chunked_with_fixed_lane_counts() {
    let left: Vec<u32> = (0..37).map(|i| left_value(i) as u32).collect();
    let right: Vec<u32> = (0..37).map(|i| right_value(i) as u32).collect();
    let want: Vec<u32> = (0..37).map(|i| truth_u32(Op::Mul, left[i], right[i])).collect();
    let mut a = left.clone();
    chunked_apply::<u32, 1>(Op::Mul, &mut a, &right);
    assert_eq!(a, want);
    let mut b = left.clone();
    chunked_apply::<u32, 4>(Op::Mul, &mut b, &right);
    assert_eq!(b, want);
    let mut c = left.clone();
    chunked_apply::<u32, 64>(Op::Mul, &mut c, &right);
    assert_eq!(c, want);
}

#[test]
fn nearest_zero_only_for_empty() {
    assert_eq!(Lanes::nearest::<u8>(0), Lanes::Zero);
    assert_eq!(Lanes::nearest::<u64>(0), Lanes::Zero);
    assert_eq!(Lanes::nearest::<u64>(1), Lanes::One);
    assert_eq!(Lanes::nearest::<u8>(1), Lanes::One);
}

#[test]
fn nearest_largest_power_of_two() {
    assert_eq!(Lanes::nearest::<u32>(15), Lanes::Eight);
    assert_eq!(Lanes::nearest::<u32>(16), Lanes::Sixteen);
    assert_eq!(Lanes::nearest::<u32>(17), Lanes::Sixteen);
    assert_eq!(Lanes::nearest::<u8>(3), Lanes::Two);
    assert_eq!(Lanes::nearest::<u8>(33), Lanes::ThirtyTwo);
    assert_eq!(Lanes::nearest::<u8>(129), Lanes::SixtyFour);
}

#[test]
fn nearest_capped_by_register_bytes() {
    assert_eq!(Lanes::nearest::<u64>(100), Lanes::Eight);
    assert_eq!(Lanes::nearest::<u32>(100), Lanes::Sixteen);
    assert_eq!(Lanes::nearest::<u16>(100), Lanes::ThirtyTwo);
    assert_eq!(Lanes::nearest::<u8>(100), Lanes::SixtyFour);
    assert_eq!(Lanes::nearest::<[u8; 64]>(5), Lanes::One);
    for &len in LENGTHS.iter() {
        assert!(Lanes::nearest::<u64>(len).count() * 8 <= 64);
        assert!(Lanes::nearest::<u16>(len).count() * 2 <= 64);
    }
}

#[test]
fn nearest_idempotent() {
    for &len in LENGTHS.iter() {
        let once = Lanes::nearest::<u16>(len);
        assert_eq!(Lanes::nearest::<u16>(once.count()), once);
        let once = Lanes::nearest::<u8>(len);
        assert_eq!(Lanes::nearest::<u8>(once.count()), once);
        assert_eq!(Lanes::nearest::<u8>(len), once);
    }
}

#[test]
fn lane_counts() {
    assert_eq!(Lanes::Zero.count(), 0);
    assert_eq!(Lanes::One.count(), 1);
    assert_eq!(Lanes::Two.count(), 2);
    assert_eq!(Lanes::Four.count(), 4);
    assert_eq!(Lanes::Eight.count(), 8);
    assert_eq!(Lanes::Sixteen.count(), 16);
    assert_eq!(Lanes::ThirtyTwo.count(), 32);
    assert_eq!(Lanes::SixtyFour.count(), 64);
}

#[test]
fn split_prefix_middle_suffix() {
    // 16-byte alignment, 4-byte elements at address 4: three elements first.
    assert_eq!(split_at_alignment(4, 4, 4, 20), (3, 16));
    assert_eq!(split_at_alignment(16, 4, 4, 20), (0, 20));
    assert_eq!(split_at_alignment(16, 4, 4, 19), (0, 16));
    // An address that no element can bring to alignment: all prefix.
    assert_eq!(split_at_alignment(2, 4, 4, 20), (20, 0));
    // Too short to reach the aligned address.
    assert_eq!(split_at_alignment(4, 4, 4, 2), (2, 0));
}

#[test]
fn mixed_edge_and_middle_counts_match_for_same_alignment() {
    let a = split_at_alignment(0x1004, 4, 8, 33);
    let b = split_at_alignment(0x2004, 4, 8, 33);
    assert_eq!(a, b);
    assert_eq!(a, (7, 24));
}

#[test]
fn mixed_refuses_mismatched_splits() {
    let mut x = [5_u32; 8];
    let y = [1_u32; 8];
    // Prefixes of 0 and 3 elements for four lanes of 4 bytes.
    let r = mixed_apply::<u32, 4>(Op::Add, &mut x, &y, 0x100, 0x104);
    assert_eq!(r, Err(DispatchError::SplitMismatch));
    assert_eq!(x, [5_u32; 8]);
    // Prefixes of 0 and 1: equal middles, but indices would still be mispaired.
    let mut x9 = [5_u32; 9];
    let y9 = [1_u32; 9];
    let r = mixed_apply::<u32, 4>(Op::Add, &mut x9, &y9, 0x100, 0x10C);
    assert_eq!(r, Err(DispatchError::SplitMismatch));
    assert_eq!(x9, [5_u32; 9]);
}

#[test]
fn apply_mixed_refuses_mismatched_splits() {
    let mut x = [7_u64; 16];
    let y = [1_u64; 16];
    let r = apply_mixed(Op::Sub, &mut x, &y, 0x200, 0x208);
    assert_eq!(r, Err(DispatchError::SplitMismatch));
    assert_eq!(x, [7_u64; 16]);
    // A single element is done without any split.
    let mut one = [7_u64; 1];
    assert_eq!(apply_mixed(Op::Sub, &mut one, &[1_u64], 0x200, 0x208), Ok(()));
    assert_eq!(one, [6_u64]);
}

#[test]
fn mixed_with_unaligned_but_equal_prefixes() {
    let left: Vec<u16> = (0..40).map(|i| left_value(i) as u16).collect();
    let right: Vec<u16> = (0..40).map(|i| right_value(i) as u16).collect();
    let want: Vec<u16> = (0..40).map(|i| truth_u16(Op::Sub, left[i], right[i])).collect();
    let mut a = left.clone();
    assert_eq!(mixed_apply::<u16, 8>(Op::Sub, &mut a, &right, 0x106, 0x206), Ok(()));
    assert_eq!(a, want);
}

#[test]
fn self_operand_snapshot() {
    let mut s: Vec<u32> = (0..33).map(|i| left_value(i) as u32).collect();
    let original = s.clone();
    let snapshot = s.clone();
    assert_eq!(apply(Op::BitXor, &mut s, &snapshot), Ok(()));
    assert!(s.iter().all(|&v| v == 0));

    let mut t = original.clone();
    let snapshot = t.clone();
    assert_eq!(apply(Op::Add, &mut t, &snapshot), Ok(()));
    let doubled: Vec<u32> = original.iter().map(|v| v.wrapping_add(*v)).collect();
    assert_eq!(t, doubled);
}

#[test]
fn scenario_remainder_decomposition() {
    let mut x = [1_u32; 15];
    let y = [2_u32; 15];
    assert_eq!(apply(Op::Add, &mut x, &y), Ok(()));
    assert_eq!(x, [3_u32; 15]);
}

#[test]
fn scenario_exact_power_of_two_bytes() {
    let mut x = [1_u8; 16];
    let y = [2_u8; 16];
    assert_eq!(apply(Op::BitXor, &mut x, &y), Ok(()));
    assert_eq!(x, [3_u8; 16]);
}

#[test]
fn scenario_empty_slices() {
    for &op in ALL_OPS.iter() {
        let mut x: [u32; 0] = [];
        let y: [u32; 0] = [];
        assert_eq!(apply(op, &mut x, &y), Ok(()));
        assert_eq!(apply_mixed(op, &mut x, &y, 0, 4), Ok(()));
        assert_eq!(scalar_apply(op, &mut x, &y), Ok(()));
    }
}

#[test]
fn scenario_length_mismatch() {
    let mut x = [9_u32, 8, 7, 6];
    let y = [1_u32, 1, 1, 1, 1];
    assert_eq!(apply(Op::Sub, &mut x, &y), Err(DispatchError::LengthMismatch));
    assert_eq!(x, [9_u32, 8, 7, 6]);
    assert_eq!(
        apply_mixed(Op::Sub, &mut x, &y, 0, 0),
        Err(DispatchError::LengthMismatch)
    );
    assert_eq!(scalar_apply(Op::Sub, &mut x, &y), Err(DispatchError::LengthMismatch));
    assert_eq!(
        mixed_apply::<u32, 4>(Op::Sub, &mut x, &y, 0, 0),
        Err(DispatchError::LengthMismatch)
    );
    assert_eq!(x, [9_u32, 8, 7, 6]);
}

#[test]
fn vector_kernel_lanes() {
    let a = Simd::from_array([10_u8, 20, 30, 255]);
    let b = Simd::from_array([3_u8, 4, 5, 2]);
    assert_eq!(a.lanewise(Op::Div, b).to_array(), [3, 5, 6, 127]);
    assert_eq!(a.lanewise(Op::Add, b).to_array(), [13, 24, 35, 1]);
    assert_eq!(a.lanewise(Op::Shl, b).to_array(), [80, 64, 192, 252]);
    assert_eq!(a.to_array(), [10, 20, 30, 255]);
}

#[test]
fn element_definedness() {
    assert!(!u8::is_defined(Op::Div, 1, 0));
    assert!(!u32::is_defined(Op::Rem, 1, 0));
    assert!(!u16::is_defined(Op::Shl, 1, 16));
    assert!(u16::is_defined(Op::Shr, 1, 15));
    assert!(u64::is_defined(Op::Add, u64::MAX, 1));
    assert_eq!(u64::apply(Op::Add, u64::MAX, 2), 1);
    assert_eq!(u8::apply(Op::Sub, 0, 1), 255);
    assert_eq!(u16::apply(Op::Mul, 300, 300), 24464);
    assert_eq!(u32::apply(Op::Rem, 17, 5), 2);
}

fn truth_i64(op: Op, a: i64, b: i64) -> i64 {
    match op {
        Op::Add => a.wrapping_add(b),
        Op::Sub => a.wrapping_sub(b),
        Op::Mul => a.wrapping_mul(b),
        Op::Div => a / b,
        Op::Rem => a % b,
        Op::BitAnd => a & b,
        Op::BitOr => a | b,
        Op::BitXor => a ^ b,
        Op::Shl => a << b,
        Op::Shr => a >> b,
    }
}

/// Every operator over every listed length, through both strategies, against
/// a per-element loop; `narrow` brings an `i64` into the element type.
fn check_signed<T: Element + PartialEq + Debug>(narrow: fn(i64) -> T, widen: fn(T) -> i64) {
    for &op in ALL_OPS.iter() {
        for &len in LENGTHS.iter() {
            let left: Vec<T> = (0..len).map(|i| narrow(left_value(i) as i64)).collect();
            let right: Vec<T> = (0..len).map(|i| narrow(right_value(i) as i64)).collect();
            let want: Vec<T> = (0..len)
                .map(|i| narrow(truth_i64(op, widen(left[i]), widen(right[i]))))
                .collect();
            let mut a = left.clone();
            assert_eq!(apply(op, &mut a, &right), Ok(()));
            assert_eq!(a, want, "{:?} over {} elements", op, len);
            let mut b = left.clone();
            assert_eq!(apply_mixed(op, &mut b, &right, 0x100, 0x300), Ok(()));
            assert_eq!(b, want, "{:?} over {} elements", op, len);
        }
    }
}

#[test]
fn every_length_matches_scalar_truth_i8() {
    check_signed::<i8>(|v| v as i8, |v| v as i64);
}

#[test]
fn every_length_matches_scalar_truth_i16() {
    check_signed::<i16>(|v| v as i16, |v| v as i64);
}

#[test]
fn every_length_matches_scalar_truth_i32() {
    check_signed::<i32>(|v| v as i32, |v| v as i64);
}

#[test]
fn every_length_matches_scalar_truth_i64() {
    check_signed::<i64>(|v| v, |v| v);
}

#[test]
fn signed_division_rounds_toward_zero() {
    let mut x = [-7_i32, 7, -7, 7, i32::MIN, 0, 9, -9, 100];
    let y = [2_i32, -2, -2, 2, 1, -5, 3, 4, -7];
    assert_eq!(apply(Op::Div, &mut x, &y), Ok(()));
    assert_eq!(x, [-3, -3, 3, 3, i32::MIN, 0, 3, -2, -14]);
    let mut r = [-7_i16, 7, -7, 7, i16::MIN, 0, 9, -9, 100];
    let s = [2_i16, -2, -2, 2, 3, -5, 3, 4, -7];
    assert_eq!(apply(Op::Rem, &mut r, &s), Ok(()));
    assert_eq!(r, [-1, 1, -1, 1, -2, 0, 0, -1, 2]);
}

#[test]
fn signed_shifts_and_wrapping() {
    let mut x = [-8_i8, -8, 64, i8::MAX, i8::MIN];
    let y = [1_i8, 7, 1, 1, -1];
    let mut shifted = x;
    assert_eq!(apply(Op::Shr, &mut shifted[..4], &y[..4]), Ok(()));
    assert_eq!(shifted[..4], [-4, -1, 32, 63]);
    assert_eq!(apply(Op::Add, &mut x, &y), Ok(()));
    assert_eq!(x, [-7, -1, 65, i8::MIN, i8::MAX]);
    assert!(!i8::is_defined(Op::Div, i8::MIN, -1));
    assert!(!i8::is_defined(Op::Shl, 1, -1));
    assert!(i8::is_defined(Op::Shl, 1, 7));
}

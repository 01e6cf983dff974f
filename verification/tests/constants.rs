//! Tests of constant folding and its broadcasting law: element `k` of a
//! fold is the element-wise operation applied to `L[k mod w_L]` and
//! `R[k mod w_R]`.

use waveling::constant::{Constant, ConstantConstructionError, ConstantFoldingError};
use waveling::host::HostNumerics;

struct NativeHost;

impl HostNumerics for NativeHost {
    fn s_add(&self, a: u32, b: u32) -> u32 {
        (f32::from_bits(a) + f32::from_bits(b)).to_bits()
    }
    fn s_sub(&self, a: u32, b: u32) -> u32 {
        (f32::from_bits(a) - f32::from_bits(b)).to_bits()
    }
    fn s_mul(&self, a: u32, b: u32) -> u32 {
        (f32::from_bits(a) * f32::from_bits(b)).to_bits()
    }
    fn s_div(&self, a: u32, b: u32) -> u32 {
        (f32::from_bits(a) / f32::from_bits(b)).to_bits()
    }
    fn s_rem(&self, a: u32, b: u32) -> u32 {
        (f32::from_bits(a) % f32::from_bits(b)).to_bits()
    }
    fn s_min(&self, a: u32, b: u32) -> u32 {
        f32::from_bits(a).min(f32::from_bits(b)).to_bits()
    }
    fn s_max(&self, a: u32, b: u32) -> u32 {
        f32::from_bits(a).max(f32::from_bits(b)).to_bits()
    }
    fn s_pow(&self, a: u32, b: u32) -> u32 {
        f32::from_bits(a).powf(f32::from_bits(b)).to_bits()
    }
    fn s_sin(&self, a: u32) -> u32 {
        f32::from_bits(a).sin().to_bits()
    }
    fn s_cos(&self, a: u32) -> u32 {
        f32::from_bits(a).cos().to_bits()
    }
    fn s_tan(&self, a: u32) -> u32 {
        f32::from_bits(a).tan().to_bits()
    }
    fn s_sinh(&self, a: u32) -> u32 {
        f32::from_bits(a).sinh().to_bits()
    }
    fn s_cosh(&self, a: u32) -> u32 {
        f32::from_bits(a).cosh().to_bits()
    }
    fn s_tanh(&self, a: u32) -> u32 {
        f32::from_bits(a).tanh().to_bits()
    }
    fn d_add(&self, a: u64, b: u64) -> u64 {
        (f64::from_bits(a) + f64::from_bits(b)).to_bits()
    }
    fn d_sub(&self, a: u64, b: u64) -> u64 {
        (f64::from_bits(a) - f64::from_bits(b)).to_bits()
    }
    fn d_mul(&self, a: u64, b: u64) -> u64 {
        (f64::from_bits(a) * f64::from_bits(b)).to_bits()
    }
    fn d_div(&self, a: u64, b: u64) -> u64 {
        (f64::from_bits(a) / f64::from_bits(b)).to_bits()
    }
    fn d_rem(&self, a: u64, b: u64) -> u64 {
        (f64::from_bits(a) % f64::from_bits(b)).to_bits()
    }
    fn d_min(&self, a: u64, b: u64) -> u64 {
        f64::from_bits(a).min(f64::from_bits(b)).to_bits()
    }
    fn d_max(&self, a: u64, b: u64) -> u64 {
        f64::from_bits(a).max(f64::from_bits(b)).to_bits()
    }
    fn d_pow(&self, a: u64, b: u64) -> u64 {
        f64::from_bits(a).powf(f64::from_bits(b)).to_bits()
    }
    fn d_sin(&self, a: u64) -> u64 {
        f64::from_bits(a).sin().to_bits()
    }
    fn d_cos(&self, a: u64) -> u64 {
        f64::from_bits(a).cos().to_bits()
    }
    fn d_tan(&self, a: u64) -> u64 {
        f64::from_bits(a).tan().to_bits()
    }
    fn d_sinh(&self, a: u64) -> u64 {
        f64::from_bits(a).sinh().to_bits()
    }
    fn d_cosh(&self, a: u64) -> u64 {
        f64::from_bits(a).cosh().to_bits()
    }
    fn d_tanh(&self, a: u64) -> u64 {
        f64::from_bits(a).tanh().to_bits()
    }
    fn i32_to_s(&self, a: i32) -> u32 {
        (a as f32).to_bits()
    }
    fn i64_to_s(&self, a: i64) -> u32 {
        (a as f32).to_bits()
    }
    fn d_to_s(&self, a: u64) -> u32 {
        (f64::from_bits(a) as f32).to_bits()
    }
    fn i32_to_d(&self, a: i32) -> u64 {
        (a as f64).to_bits()
    }
    fn i64_to_d(&self, a: i64) -> u64 {
        (a as f64).to_bits()
    }
    fn s_to_d(&self, a: u32) -> u64 {
        (f32::from_bits(a) as f64).to_bits()
    }
    fn s_to_i32(&self, a: u32) -> i32 {
        f32::from_bits(a) as i32
    }
    fn s_to_i64(&self, a: u32) -> i64 {
        f32::from_bits(a) as i64
    }
    fn d_to_i32(&self, a: u64) -> i32 {
        f64::from_bits(a) as i32
    }
    fn d_to_i64(&self, a: u64) -> i64 {
        f64::from_bits(a) as i64
    }
}

fn as_i32(c: Constant) -> Vec<i32> {
    match c {
        Constant::I32(v) => v,
        other => panic!("expected an i32 constant, got {:?}", other),
    }
}

fn as_f32(c: Constant) -> Vec<f32> {
    match c {
        Constant::F32(v) => v.into_iter().map(f32::from_bits).collect(),
        other => panic!("expected an f32 constant, got {:?}", other),
    }
}

#[test]
fn broadcasting_law_integers() {
    let h = NativeHost;
    // widths (4, 1): the scalar is virtually repeated.
    let l = Constant::I32(vec![1, 2, 3, 4]);
    let r = Constant::I32(vec![10]);
    assert_eq!(as_i32(l.fold_add(&r, &h).unwrap()), vec![11, 12, 13, 14]);
    // widths (1, 4), the other way round.
    assert_eq!(as_i32(r.fold_sub(&l, &h).unwrap()), vec![9, 8, 7, 6]);
    // equal widths line up element by element.
    let a = Constant::I32(vec![3, 4]);
    let b = Constant::I32(vec![5, 6]);
    assert_eq!(as_i32(a.fold_mul(&b, &h).unwrap()), vec![15, 24]);
    // element k is computed from element k mod w of each operand.
    let wide = Constant::I32(vec![10, 20, 30]);
    let narrow = Constant::I32(vec![7]);
    let got = as_i32(wide.fold_add(&narrow, &h).unwrap());
    let lv = [10, 20, 30];
    let rv = [7];
    for (k, item) in got.iter().enumerate() {
        assert_eq!(*item, lv[k % lv.len()] + rv[k % rv.len()]);
    }
    // min and max.
    let lo = Constant::I32(vec![1, 9]);
    let hi = Constant::I32(vec![5]);
    assert_eq!(as_i32(lo.fold_min(&hi, &h).unwrap()), vec![1, 5]);
    assert_eq!(as_i32(lo.fold_max(&hi, &h).unwrap()), vec![5, 9]);
    // division truncates; the remainder is positive-biased.
    let n = Constant::I32(vec![7, -7]);
    let d = Constant::I32(vec![3]);
    assert_eq!(as_i32(n.fold_div(&d, &h).unwrap()), vec![2, -2]);
    assert_eq!(as_i32(n.fold_rem(&d, &h).unwrap()), vec![1, 2]);
}

#[test]
fn broadcasting_law_floats() {
    let h = NativeHost;
    let l = Constant::F32(vec![1.0f32.to_bits(), 2.0f32.to_bits()]);
    let r = Constant::F32(vec![3.0f32.to_bits()]);
    assert_eq!(as_f32(l.fold_add(&r, &h).unwrap()), vec![4.0, 5.0]);
    assert_eq!(as_f32(l.fold_mul(&r, &h).unwrap()), vec![3.0, 6.0]);
    let p = Constant::F32(vec![2.0f32.to_bits()]);
    let e = Constant::F32(vec![3.0f32.to_bits(), 4.0f32.to_bits()]);
    assert_eq!(as_f32(p.fold_pow(&e, &h).unwrap()), vec![8.0, 16.0]);
}

#[test]
fn folding_error_kinds() {
    let h = NativeHost;
    let empty = Constant::I32(vec![]);
    let one = Constant::I32(vec![1]);
    assert_eq!(
        one.fold_add(&empty, &h).unwrap_err(),
        ConstantFoldingError::ZeroWidthConstant
    );
    let two = Constant::I32(vec![1, 2]);
    let three = Constant::I32(vec![1, 2, 3]);
    assert_eq!(
        two.fold_add(&three, &h).unwrap_err(),
        ConstantFoldingError::IncompatibleWidths
    );
    let f = Constant::F32(vec![1.0f32.to_bits()]);
    assert_eq!(
        one.fold_add(&f, &h).unwrap_err(),
        ConstantFoldingError::IncompatibleTypes
    );
    let b = Constant::Bool(vec![true]);
    assert_eq!(
        b.fold_add(&Constant::Bool(vec![false]), &h).unwrap_err(),
        ConstantFoldingError::UnsupportedType
    );
    // power is floating point only.
    assert_eq!(
        one.fold_pow(&one, &h).unwrap_err(),
        ConstantFoldingError::UnsupportedType
    );
}

#[test]
fn negation_is_exact() {
    let c = Constant::I32(vec![1, -2, 0]);
    assert_eq!(as_i32(c.fold_neg().unwrap()), vec![-1, 2, 0]);
    // floating-point negation flips the sign bit, so even zero is signed.
    let z = Constant::F32(vec![0.0f32.to_bits(), 1.5f32.to_bits()]);
    let negated = z.fold_neg().unwrap();
    match &negated {
        Constant::F32(bits) => {
            assert_eq!(bits[0], (-0.0f32).to_bits());
            assert_eq!(bits[1], (-1.5f32).to_bits());
        }
        other => panic!("expected f32, got {:?}", other),
    }
    assert_eq!(
        Constant::I64(vec![]).fold_neg().unwrap_err(),
        ConstantFoldingError::ZeroWidthConstant
    );
    assert_eq!(
        Constant::Bool(vec![true]).fold_neg().unwrap_err(),
        ConstantFoldingError::UnsupportedType
    );
}

#[test]
fn clamp_is_max_of_lo_and_min_of_hi() {
    let h = NativeHost;
    let x = Constant::I32(vec![5, -5, 2]);
    let lo = Constant::I32(vec![0]);
    let hi = Constant::I32(vec![3]);
    assert_eq!(as_i32(x.fold_clamp(&lo, &hi, &h).unwrap()), vec![3, 0, 2]);
}

#[test]
fn checked_creators_reject_empty() {
    assert_eq!(
        Constant::new_integral(vec![]).unwrap_err(),
        ConstantConstructionError::ZeroWidth
    );
    assert_eq!(
        Constant::new_boolean(vec![]).unwrap_err(),
        ConstantConstructionError::ZeroWidth
    );
    assert_eq!(
        Constant::new_float(vec![]).unwrap_err(),
        ConstantConstructionError::ZeroWidth
    );
    let c = Constant::new_integral(vec![4, 5]).unwrap();
    assert_eq!(c.width(), 2);
    assert!(c.is_integral());
    assert_eq!(c.as_integral().unwrap(), vec![4, 5]);
}

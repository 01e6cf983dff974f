//! Host-supplied floating-point arithmetic.
//!
//! This library carries IEEE 754 values as raw bit patterns (`u32` for
//! single precision, `u64` for double), because floating point itself sits
//! outside the verified core.  Every arithmetic step on those bit patterns —
//! the interpreter's element operations, constant folding, and numeric casts
//! — is delegated to an implementation of [`HostNumerics`] supplied by the
//! embedder, which performs the native operation on the host.
//!
//! Nothing is assumed about the results: contracts that involve these
//! operations state shape (primitive and width) only, and hold whatever the
//! host returns.  The one exception is negation, which is pure sign-bit
//! arithmetic and therefore implemented and verified inside the library.

use vstd::prelude::*;

verus! {

/// Native numeric operations on raw IEEE 754 bit patterns.
///
/// `s` prefixes take and return single-precision (`u32`) bit patterns, `d`
/// prefixes double-precision (`u64`) ones.  Casts follow the host language's
/// numeric cast semantics.
pub trait HostNumerics {
    fn s_add(&self, a: u32, b: u32) -> u32;

    fn s_sub(&self, a: u32, b: u32) -> u32;

    fn s_mul(&self, a: u32, b: u32) -> u32;

    fn s_div(&self, a: u32, b: u32) -> u32;

    fn s_rem(&self, a: u32, b: u32) -> u32;

    fn s_min(&self, a: u32, b: u32) -> u32;

    fn s_max(&self, a: u32, b: u32) -> u32;

    fn s_pow(&self, a: u32, b: u32) -> u32;

    fn s_sin(&self, a: u32) -> u32;

    fn s_cos(&self, a: u32) -> u32;

    fn s_tan(&self, a: u32) -> u32;

    fn s_sinh(&self, a: u32) -> u32;

    fn s_cosh(&self, a: u32) -> u32;

    fn s_tanh(&self, a: u32) -> u32;

    fn d_add(&self, a: u64, b: u64) -> u64;

    fn d_sub(&self, a: u64, b: u64) -> u64;

    fn d_mul(&self, a: u64, b: u64) -> u64;

    fn d_div(&self, a: u64, b: u64) -> u64;

    fn d_rem(&self, a: u64, b: u64) -> u64;

    fn d_min(&self, a: u64, b: u64) -> u64;

    fn d_max(&self, a: u64, b: u64) -> u64;

    fn d_pow(&self, a: u64, b: u64) -> u64;

    fn d_sin(&self, a: u64) -> u64;

    fn d_cos(&self, a: u64) -> u64;

    fn d_tan(&self, a: u64) -> u64;

    fn d_sinh(&self, a: u64) -> u64;

    fn d_cosh(&self, a: u64) -> u64;

    fn d_tanh(&self, a: u64) -> u64;

    /// `i32 as f32`.
    fn i32_to_s(&self, a: i32) -> u32;

    /// `i64 as f32`.
    fn i64_to_s(&self, a: i64) -> u32;

    /// `f64 as f32`.
    fn d_to_s(&self, a: u64) -> u32;

    /// `i32 as f64`.
    fn i32_to_d(&self, a: i32) -> u64;

    /// `i64 as f64`.
    fn i64_to_d(&self, a: i64) -> u64;

    /// `f32 as f64`.
    fn s_to_d(&self, a: u32) -> u64;

    /// `f32 as i32`.
    fn s_to_i32(&self, a: u32) -> i32;

    /// `f32 as i64`.
    fn s_to_i64(&self, a: u32) -> i64;

    /// `f64 as i32`.
    fn d_to_i32(&self, a: u64) -> i32;

    /// `f64 as i64`.
    fn d_to_i64(&self, a: u64) -> i64;
}

} // verus!

//! The instruction enum.
//!
//! The convenient interface, which also enforces the shape rules, is
//! [`crate::ir::inst_builder`].  Instructions have zero or more value
//! inputs and at most one output value; binary and ternary arithmetic
//! broadcasts a width-1 operand against a wider one.  The fast
//! trigonometric instructions are only required to be accurate on
//! `[-2pi, 2pi]` and must run on a floating-point type.

use vstd::prelude::*;

use crate::ir::context::{StateRef, ValueRef};

verus! {

#[derive(Debug, Eq, PartialEq, Structural, Copy, Clone)]
pub enum Instruction {
    Add { output: ValueRef, left: ValueRef, right: ValueRef },
    Sub { output: ValueRef, left: ValueRef, right: ValueRef },
    Mul { output: ValueRef, left: ValueRef, right: ValueRef },
    Div { output: ValueRef, left: ValueRef, right: ValueRef },
    /// Power; floating-point operands only.
    Pow { output: ValueRef, base: ValueRef, exponent: ValueRef },
    /// Modulus of two values guaranteed to be positive.
    ModPositive { output: ValueRef, input: ValueRef, divisor: ValueRef },
    Min { output: ValueRef, left: ValueRef, right: ValueRef },
    Max { output: ValueRef, left: ValueRef, right: ValueRef },
    /// `clamp(input, lower, upper) = max(lower, min(upper, input))`.
    Clamp { output: ValueRef, input: ValueRef, lower: ValueRef, upper: ValueRef },
    /// Negation; non-boolean operand.
    Negate { output: ValueRef, input: ValueRef },
    FastSin { output: ValueRef, input: ValueRef },
    FastCos { output: ValueRef, input: ValueRef },
    FastTan { output: ValueRef, input: ValueRef },
    /// Hyperbolic sine.
    FastSinh { output: ValueRef, input: ValueRef },
    /// Hyperbolic cosine.
    FastCosh { output: ValueRef, input: ValueRef },
    /// Hyperbolic tangent.
    FastTanh { output: ValueRef, input: ValueRef },
    ToF32 { output: ValueRef, input: ValueRef },
    ToF64 { output: ValueRef, input: ValueRef },
    /// Read a state at a given index; the index is an integral scalar and
    /// wraps modulo the state's buffer length.
    ReadState { output: ValueRef, state: StateRef, index: ValueRef },
    /// Read a state at an index relative to the current sample modulo the
    /// buffer length; the shared counter makes ringbuffers cheap.
    ReadStateRelative { output: ValueRef, state: StateRef, index: ValueRef },
    WriteState { state: StateRef, input: ValueRef, index: ValueRef },
    WriteStateRelative { state: StateRef, input: ValueRef, index: ValueRef },
    /// The current time in samples, an i64 scalar.
    ReadTimeSamples { output: ValueRef },
    /// The current time in seconds, an f64 scalar.
    ReadTimeSeconds { output: ValueRef },
    /// Read a program input at the current sample index.
    ReadInput { output: ValueRef, input_index: usize },
    /// Write a program output at the current sample index.
    WriteOutput { input: ValueRef, output_index: usize },
    /// Read a property; properties are f64 scalars.
    ReadProperty { output: ValueRef, property_index: usize },
}

} // verus!

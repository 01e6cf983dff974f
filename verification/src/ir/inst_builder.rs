//! Typed constructors for instructions.
//!
//! Programs build their instruction list by calling these in order.  Every
//! shape and type rule is checked before anything is materialized: an
//! instruction and its output value are only added if the whole contract is
//! satisfied, so the program stays well-formed on failure.

use vstd::prelude::*;

use crate::ir::context::{Context, StateRef, ValueDescriptor, ValueKind, ValueRef};
use crate::ir::instruction::Instruction;
use crate::ir::types::{Primitive, Type};

verus! {

/// Ways an instruction cannot be built.
#[derive(Debug, Eq, PartialEq, Structural, Copy, Clone)]
pub enum BuilderError {
    /// A value handle does not resolve against this context.
    UnresolvedValue,
    /// A state handle does not resolve against this context.
    UnresolvedState,
    /// The operands are of different primitive types.
    PrimitiveMismatch,
    /// Neither width is 1 and they differ, so they cannot broadcast.
    IncompatibleWidths,
    /// This instruction does not work on buffers.
    BufferOperand,
    /// This instruction requires a floating-point operand.
    NonFloatOperand,
    /// This instruction rejects boolean operands.
    BoolOperand,
    /// A state index must be an integral value.
    NonIntegralIndex,
    /// A state index must be a scalar.
    NonScalarIndex,
    /// The input index does not exist.
    UnknownInput,
    /// The output index does not exist.
    UnknownOutput,
    /// The property index does not exist.
    UnknownProperty,
    /// The value's type does not match the declared output type.
    OutputTypeMismatch,
    /// The value's type does not match one frame of the state.
    StateTypeMismatch,
}

/// The type of value `v` in `ctx`, if the handle resolves.
pub open spec fn value_type_of(ctx: &Context, v: ValueRef) -> Option<Type> {
    if v.index < ctx.values@.len() {
        Some(ctx.values@[v.index as int].value_type)
    } else {
        None
    }
}

/// The type of state `s` in `ctx`, if the handle resolves.
pub open spec fn state_type_of(ctx: &Context, s: StateRef) -> Option<Type> {
    if s.index < ctx.states@.len() {
        Some(ctx.states@[s.index as int].state_type)
    } else {
        None
    }
}

/// Can two operand widths broadcast: equal, or one is 1?
pub open spec fn widths_broadcast(w1: u64, w2: u64) -> bool {
    w1 == w2 || w1 == 1 || w2 == 1
}

/// The widest of three operand widths.
pub open spec fn max3_width(a: u64, b: u64, c: u64) -> u64 {
    if a >= b && a >= c {
        a
    } else if b >= c {
        b
    } else {
        c
    }
}

/// Is this primitive floating point?
pub open spec fn is_float_primitive(p: Primitive) -> bool {
    p == Primitive::F32 || p == Primitive::F64
}

/// Is this primitive integral?
pub open spec fn is_integral_primitive(p: Primitive) -> bool {
    p == Primitive::I32 || p == Primitive::I64
}

/// The context after one instruction was appended: a fresh computed output
/// value of type `vty` (when there is one), the instruction in the arena
/// and at the end of the schedule, everything else untouched.
pub open spec fn ctx_appended(pre: &Context, post: &Context, vty: Type, inst: Instruction) -> bool {
    &&& post.values@ == pre.values@.push(
        ValueDescriptor { kind: ValueKind::Computed, value_type: vty },
    )
    &&& post.instructions@ == pre.instructions@.push(inst)
    &&& post.program@ == pre.program@.push(
        crate::ir::context::InstRef { index: pre.instructions@.len() as usize },
    )
    &&& post.constants@ == pre.constants@
    &&& post.states@ == pre.states@
    &&& post.inputs@ == pre.inputs@
    &&& post.outputs@ == pre.outputs@
    &&& post.properties@ == pre.properties@
    &&& post.block_size == pre.block_size
    &&& post.sample_rate == pre.sample_rate
}

/// Nothing about the context changed.
pub open spec fn ctx_unchanged(pre: &Context, post: &Context) -> bool {
    *post == *pre
}

/// The first failure a two-operand arithmetic check finds: unresolved
/// handles, then primitive mismatch, then widths, then buffers.
pub open spec fn arith_failure(ctx: &Context, left: ValueRef, right: ValueRef) -> Option<
    BuilderError,
> {
    match (value_type_of(ctx, left), value_type_of(ctx, right)) {
        (Some(t1), Some(t2)) => {
            if t1.primitive_spec() != t2.primitive_spec() {
                Some(BuilderError::PrimitiveMismatch)
            } else if !widths_broadcast(t1.vector_width_spec(), t2.vector_width_spec()) {
                Some(BuilderError::IncompatibleWidths)
            } else if t1.buffer_length_spec() > 1 || t2.buffer_length_spec() > 1 {
                Some(BuilderError::BufferOperand)
            } else {
                None
            }
        },
        _ => Some(BuilderError::UnresolvedValue),
    }
}

/// The result of a successful arithmetic build on operand types `t1`, `t2`.
pub open spec fn is_arith_result(t1: Type, t2: Type, r: Type) -> bool {
    &&& r.primitive_spec() == t1.primitive_spec()
    &&& r.vector_width_spec() == (if t1.vector_width_spec() >= t2.vector_width_spec() {
        t1.vector_width_spec()
    } else {
        t2.vector_width_spec()
    })
    &&& r.buffer_length_spec() == 1
}

/// Check that two values exist, share a primitive, broadcast, and are not
/// buffers; give back the broadcast result type.
fn validate_arith_and_get_ty(ctx: &Context, left: ValueRef, right: ValueRef) -> (r: Result<
    Type,
    BuilderError,
>)
    ensures
        match arith_failure(ctx, left, right) {
            Some(e) => r == Err::<Type, _>(e),
            None => r matches Ok(t) && is_arith_result(
                value_type_of(ctx, left).unwrap(),
                value_type_of(ctx, right).unwrap(),
                t,
            ),
        },
{
    let t1 = match left.get_type(ctx) {
        Ok(t) => t,
        Err(_) => {
            return Err(BuilderError::UnresolvedValue);
        },
    };
    let t2 = match right.get_type(ctx) {
        Ok(t) => t,
        Err(_) => {
            return Err(BuilderError::UnresolvedValue);
        },
    };
    if t1.get_primitive() != t2.get_primitive() {
        return Err(BuilderError::PrimitiveMismatch);
    }
    let w1 = t1.get_vector_width();
    let w2 = t2.get_vector_width();
    if w1 != w2 && w1 != 1 && w2 != 1 {
        return Err(BuilderError::IncompatibleWidths);
    }
    if t1.get_buffer_length() > 1 || t2.get_buffer_length() > 1 {
        return Err(BuilderError::BufferOperand);
    }
    let w = if w1 >= w2 {
        w1
    } else {
        w2
    };
    match Type::new_vector(t1.get_primitive(), w) {
        Ok(t) => Ok(t),
        Err(_) => {
            proof {
                assert(false);
            }
            Err(BuilderError::UnresolvedValue)
        },
    }
}

/// The binary arithmetic instructions the shared builder serves.
#[derive(Debug, Eq, PartialEq, Structural, Copy, Clone)]
pub enum ArithKind {
    Add,
    Sub,
    Mul,
    Div,
    Min,
    Max,
    Pow,
    ModPositive,
}

/// The instruction one arithmetic build appends.
pub open spec fn arith_inst(kind: ArithKind, output: ValueRef, a: ValueRef, b: ValueRef) -> Instruction {
    match kind {
        ArithKind::Add => Instruction::Add { output, left: a, right: b },
        ArithKind::Sub => Instruction::Sub { output, left: a, right: b },
        ArithKind::Mul => Instruction::Mul { output, left: a, right: b },
        ArithKind::Div => Instruction::Div { output, left: a, right: b },
        ArithKind::Min => Instruction::Min { output, left: a, right: b },
        ArithKind::Max => Instruction::Max { output, left: a, right: b },
        ArithKind::Pow => Instruction::Pow { output, base: a, exponent: b },
        ArithKind::ModPositive => Instruction::ModPositive { output, input: a, divisor: b },
    }
}

/// What every binary arithmetic builder guarantees.
pub open spec fn arith_build_post(
    kind: ArithKind,
    pre: &Context,
    post: &Context,
    a: ValueRef,
    b: ValueRef,
    r: Result<ValueRef, BuilderError>,
) -> bool {
    match arith_failure(pre, a, b) {
        Some(e) => r == Err::<ValueRef, BuilderError>(e) && ctx_unchanged(pre, post),
        None => {
            &&& r matches Ok(out)
            &&& out.index == pre.values@.len()
            &&& exists|t: Type|
                is_arith_result(
                    value_type_of(pre, a).unwrap(),
                    value_type_of(pre, b).unwrap(),
                    t,
                ) && #[trigger] ctx_appended(pre, post, t, arith_inst(kind, out, a, b))
        },
    }
}

/// Build one binary arithmetic instruction.
fn build_arith(ctx: &mut Context, kind: ArithKind, a: ValueRef, b: ValueRef) -> (r: Result<
    ValueRef,
    BuilderError,
>)
    requires
        old(ctx).wf(),
    ensures
        final(ctx).wf(),
        arith_build_post(kind, old(ctx), final(ctx), a, b, r),
{
    let ty = match validate_arith_and_get_ty(ctx, a, b) {
        Ok(t) => t,
        Err(e) => {
            return Err(e);
        },
    };
    let output = ctx.new_value(ty);
    let inst = match kind {
        ArithKind::Add => Instruction::Add { output, left: a, right: b },
        ArithKind::Sub => Instruction::Sub { output, left: a, right: b },
        ArithKind::Mul => Instruction::Mul { output, left: a, right: b },
        ArithKind::Div => Instruction::Div { output, left: a, right: b },
        ArithKind::Min => Instruction::Min { output, left: a, right: b },
        ArithKind::Max => Instruction::Max { output, left: a, right: b },
        ArithKind::Pow => Instruction::Pow { output, base: a, exponent: b },
        ArithKind::ModPositive => Instruction::ModPositive { output, input: a, divisor: b },
    };
    ctx.new_instruction(inst);
    proof {
        assert(ctx_appended(old(ctx), ctx, ty, arith_inst(kind, output, a, b)));
    }
    Ok(output)
}

/// Addition, with broadcasting.
pub fn add(ctx: &mut Context, left: ValueRef, right: ValueRef) -> (r: Result<
    ValueRef,
    BuilderError,
>)
    requires
        old(ctx).wf(),
    ensures
        final(ctx).wf(),
        arith_build_post(ArithKind::Add, old(ctx), final(ctx), left, right, r),
{
    build_arith(ctx, ArithKind::Add, left, right)
}

/// Subtraction, with broadcasting.
pub fn sub(ctx: &mut Context, left: ValueRef, right: ValueRef) -> (r: Result<
    ValueRef,
    BuilderError,
>)
    requires
        old(ctx).wf(),
    ensures
        final(ctx).wf(),
        arith_build_post(ArithKind::Sub, old(ctx), final(ctx), left, right, r),
{
    build_arith(ctx, ArithKind::Sub, left, right)
}

/// Multiplication, with broadcasting.
pub fn mul(ctx: &mut Context, left: ValueRef, right: ValueRef) -> (r: Result<
    ValueRef,
    BuilderError,
>)
    requires
        old(ctx).wf(),
    ensures
        final(ctx).wf(),
        arith_build_post(ArithKind::Mul, old(ctx), final(ctx), left, right, r),
{
    build_arith(ctx, ArithKind::Mul, left, right)
}

/// Division, with broadcasting.
pub fn div(ctx: &mut Context, left: ValueRef, right: ValueRef) -> (r: Result<
    ValueRef,
    BuilderError,
>)
    requires
        old(ctx).wf(),
    ensures
        final(ctx).wf(),
        arith_build_post(ArithKind::Div, old(ctx), final(ctx), left, right, r),
{
    build_arith(ctx, ArithKind::Div, left, right)
}

/// Element-wise minimum, with broadcasting.
pub fn min(ctx: &mut Context, left: ValueRef, right: ValueRef) -> (r: Result<
    ValueRef,
    BuilderError,
>)
    requires
        old(ctx).wf(),
    ensures
        final(ctx).wf(),
        arith_build_post(ArithKind::Min, old(ctx), final(ctx), left, right, r),
{
    build_arith(ctx, ArithKind::Min, left, right)
}

/// Element-wise maximum, with broadcasting.
pub fn max(ctx: &mut Context, left: ValueRef, right: ValueRef) -> (r: Result<
    ValueRef,
    BuilderError,
>)
    requires
        old(ctx).wf(),
    ensures
        final(ctx).wf(),
        arith_build_post(ArithKind::Max, old(ctx), final(ctx), left, right, r),
{
    build_arith(ctx, ArithKind::Max, left, right)
}

/// Power; the operands must be floating point.
pub fn pow(ctx: &mut Context, base: ValueRef, exponent: ValueRef) -> (r: Result<
    ValueRef,
    BuilderError,
>)
    requires
        old(ctx).wf(),
    ensures
        final(ctx).wf(),
        arith_failure(old(ctx), base, exponent) is None && !is_float_primitive(
            value_type_of(old(ctx), base).unwrap().primitive_spec(),
        ) ==> r == Err::<ValueRef, _>(BuilderError::NonFloatOperand) && ctx_unchanged(
            old(ctx),
            final(ctx),
        ),
        arith_failure(old(ctx), base, exponent) is Some || is_float_primitive(
            value_type_of(old(ctx), base).unwrap().primitive_spec(),
        ) ==> arith_build_post(
            ArithKind::Pow,
            old(ctx),
            final(ctx),
            base,
            exponent,
            r,
        ),
{
    let ty = match validate_arith_and_get_ty(ctx, base, exponent) {
        Ok(t) => t,
        Err(e) => {
            return Err(e);
        },
    };
    if !matches!(ty.get_primitive(), Primitive::F32 | Primitive::F64) {
        // only floating point can be raised to a power; the shared checks
        // would let integrals through.
        return Err(BuilderError::NonFloatOperand);
    }
    let output = ctx.new_value(ty);
    ctx.new_instruction(Instruction::Pow { output, base, exponent });
    proof {
        assert(ctx_appended(old(ctx), ctx, ty, arith_inst(ArithKind::Pow, output, base, exponent)));
    }
    Ok(output)
}

/// Modulus of two guaranteed-to-be-positive values, with broadcasting.
pub fn mod_positive(ctx: &mut Context, input: ValueRef, divisor: ValueRef) -> (r: Result<
    ValueRef,
    BuilderError,
>)
    requires
        old(ctx).wf(),
    ensures
        final(ctx).wf(),
        arith_build_post(ArithKind::ModPositive, old(ctx), final(ctx), input, divisor, r),
{
    build_arith(ctx, ArithKind::ModPositive, input, divisor)
}

/// `clamp(input, lower, upper)`: all three operands share a primitive and
/// broadcast pairwise; the result takes the widest width.
pub fn clamp(ctx: &mut Context, input: ValueRef, lower: ValueRef, upper: ValueRef) -> (r: Result<
    ValueRef,
    BuilderError,
>)
    requires
        old(ctx).wf(),
    ensures
        final(ctx).wf(),
        arith_failure(old(ctx), input, lower) matches Some(e) ==> r == Err::<ValueRef, _>(e)
            && ctx_unchanged(old(ctx), final(ctx)),
        arith_failure(old(ctx), input, lower) is None ==> (arith_failure(old(ctx), input, upper)
            matches Some(e) ==> r == Err::<ValueRef, _>(e) && ctx_unchanged(old(ctx), final(ctx))),
        arith_failure(old(ctx), input, lower) is None && arith_failure(old(ctx), input, upper)
            is None ==> {
            &&& r matches Ok(out)
            &&& out.index == old(ctx).values@.len()
            &&& exists|t: Type|
                {
                    &&& t.primitive_spec() == value_type_of(old(ctx), input).unwrap().primitive_spec()
                    &&& t.vector_width_spec() == max3_width(
                        value_type_of(old(ctx), input).unwrap().vector_width_spec(),
                        value_type_of(old(ctx), lower).unwrap().vector_width_spec(),
                        value_type_of(old(ctx), upper).unwrap().vector_width_spec(),
                    )
                    &&& t.buffer_length_spec() == 1
                    &&& #[trigger] ctx_appended(
                        old(ctx),
                        final(ctx),
                        t,
                        Instruction::Clamp { output: out, input, lower, upper },
                    )
                }
        },
{
    let t1 = match validate_arith_and_get_ty(ctx, input, lower) {
        Ok(t) => t,
        Err(e) => {
            return Err(e);
        },
    };
    let t2 = match validate_arith_and_get_ty(ctx, input, upper) {
        Ok(t) => t,
        Err(e) => {
            return Err(e);
        },
    };
    let w1 = t1.get_vector_width();
    let w2 = t2.get_vector_width();
    let w = if w1 >= w2 {
        w1
    } else {
        w2
    };
    let otype = match Type::new_vector(t1.get_primitive(), w) {
        Ok(t) => t,
        Err(_) => {
            proof {
                assert(false);
            }
            return Err(BuilderError::UnresolvedValue);
        },
    };
    let output = ctx.new_value(otype);
    ctx.new_instruction(Instruction::Clamp { output, input, lower, upper });
    proof {
        assert(ctx_appended(
            old(ctx),
            ctx,
            otype,
            Instruction::Clamp { output, input, lower, upper },
        ));
    }
    Ok(output)
}

/// What a unary build (negate, conversions, trigonometry) checks and
/// appends, given the output type it computes from the operand type.
pub open spec fn unary_ok(pre: &Context, post: &Context, out: ValueRef, vty: Type, inst: Instruction) -> bool {
    &&& out.index == pre.values@.len()
    &&& ctx_appended(pre, post, vty, inst)
}

/// Negation; the operand must be a non-boolean non-buffer.  The result
/// keeps the operand's type.
pub fn negate(ctx: &mut Context, input: ValueRef) -> (r: Result<ValueRef, BuilderError>)
    requires
        old(ctx).wf(),
    ensures
        final(ctx).wf(),
        value_type_of(old(ctx), input) is None ==> r == Err::<ValueRef, _>(
            BuilderError::UnresolvedValue,
        ) && ctx_unchanged(old(ctx), final(ctx)),
        value_type_of(old(ctx), input) matches Some(t) ==> {
            if t.buffer_length_spec() > 1 {
                r == Err::<ValueRef, BuilderError>(BuilderError::BufferOperand) && ctx_unchanged(
                    old(ctx),
                    final(ctx),
                )
            } else if t.primitive_spec() == Primitive::Bool {
                r == Err::<ValueRef, BuilderError>(BuilderError::BoolOperand) && ctx_unchanged(
                    old(ctx),
                    final(ctx),
                )
            } else {
                r matches Ok(out) && unary_ok(
                    old(ctx),
                    final(ctx),
                    out,
                    t,
                    Instruction::Negate { output: out, input },
                )
            }
        },
{
    let ty = match input.get_type(ctx) {
        Ok(t) => t,
        Err(_) => {
            return Err(BuilderError::UnresolvedValue);
        },
    };
    if ty.get_buffer_length() > 1 {
        return Err(BuilderError::BufferOperand);
    }
    if matches!(ty.get_primitive(), Primitive::Bool) {
        return Err(BuilderError::BoolOperand);
    }
    let output = ctx.new_value(ty);
    ctx.new_instruction(Instruction::Negate { output, input });
    Ok(output)
}

/// Conversion to f32; the operand must not be a buffer.  The result keeps
/// the operand's width.
pub fn to_f32(ctx: &mut Context, input: ValueRef) -> (r: Result<ValueRef, BuilderError>)
    requires
        old(ctx).wf(),
    ensures
        final(ctx).wf(),
        value_type_of(old(ctx), input) is None ==> r == Err::<ValueRef, _>(
            BuilderError::UnresolvedValue,
        ) && ctx_unchanged(old(ctx), final(ctx)),
        value_type_of(old(ctx), input) matches Some(t) ==> {
            if t.buffer_length_spec() > 1 {
                r == Err::<ValueRef, BuilderError>(BuilderError::BufferOperand) && ctx_unchanged(
                    old(ctx),
                    final(ctx),
                )
            } else {
                r matches Ok(out) && exists|vt: Type|
                    vt.primitive_spec() == Primitive::F32 && vt.vector_width_spec()
                        == t.vector_width_spec() && vt.buffer_length_spec() == 1
                        && #[trigger] unary_ok(
                        old(ctx),
                        final(ctx),
                        out,
                        vt,
                        Instruction::ToF32 { output: out, input },
                    )
            }
        },
{
    let ty = match input.get_type(ctx) {
        Ok(t) => t,
        Err(_) => {
            return Err(BuilderError::UnresolvedValue);
        },
    };
    if ty.get_buffer_length() > 1 {
        return Err(BuilderError::BufferOperand);
    }
    let otype = match Type::new_vector(Primitive::F32, ty.get_vector_width()) {
        Ok(t) => t,
        Err(_) => {
            proof {
                assert(false);
            }
            return Err(BuilderError::UnresolvedValue);
        },
    };
    let output = ctx.new_value(otype);
    ctx.new_instruction(Instruction::ToF32 { output, input });
    proof {
        assert(unary_ok(old(ctx), ctx, output, otype, Instruction::ToF32 { output, input }));
    }
    Ok(output)
}

/// Conversion to f64; the operand must not be a buffer.  The result keeps
/// the operand's width.
pub fn to_f64(ctx: &mut Context, input: ValueRef) -> (r: Result<ValueRef, BuilderError>)
    requires
        old(ctx).wf(),
    ensures
        final(ctx).wf(),
        value_type_of(old(ctx), input) is None ==> r == Err::<ValueRef, _>(
            BuilderError::UnresolvedValue,
        ) && ctx_unchanged(old(ctx), final(ctx)),
        value_type_of(old(ctx), input) matches Some(t) ==> {
            if t.buffer_length_spec() > 1 {
                r == Err::<ValueRef, BuilderError>(BuilderError::BufferOperand) && ctx_unchanged(
                    old(ctx),
                    final(ctx),
                )
            } else {
                r matches Ok(out) && exists|vt: Type|
                    vt.primitive_spec() == Primitive::F64 && vt.vector_width_spec()
                        == t.vector_width_spec() && vt.buffer_length_spec() == 1
                        && #[trigger] unary_ok(
                        old(ctx),
                        final(ctx),
                        out,
                        vt,
                        Instruction::ToF64 { output: out, input },
                    )
            }
        },
{
    let ty = match input.get_type(ctx) {
        Ok(t) => t,
        Err(_) => {
            return Err(BuilderError::UnresolvedValue);
        },
    };
    if ty.get_buffer_length() > 1 {
        return Err(BuilderError::BufferOperand);
    }
    let otype = match Type::new_vector(Primitive::F64, ty.get_vector_width()) {
        Ok(t) => t,
        Err(_) => {
            proof {
                assert(false);
            }
            return Err(BuilderError::UnresolvedValue);
        },
    };
    let output = ctx.new_value(otype);
    ctx.new_instruction(Instruction::ToF64 { output, input });
    proof {
        assert(unary_ok(old(ctx), ctx, output, otype, Instruction::ToF64 { output, input }));
    }
    Ok(output)
}

/// The trigonometric instructions the shared builder serves.
#[derive(Debug, Eq, PartialEq, Structural, Copy, Clone)]
pub enum TrigKind {
    Sin,
    Cos,
    Tan,
    Sinh,
    Cosh,
    Tanh,
}

/// The instruction one trigonometric build appends.
pub open spec fn trig_inst(kind: TrigKind, output: ValueRef, input: ValueRef) -> Instruction {
    match kind {
        TrigKind::Sin => Instruction::FastSin { output, input },
        TrigKind::Cos => Instruction::FastCos { output, input },
        TrigKind::Tan => Instruction::FastTan { output, input },
        TrigKind::Sinh => Instruction::FastSinh { output, input },
        TrigKind::Cosh => Instruction::FastCosh { output, input },
        TrigKind::Tanh => Instruction::FastTanh { output, input },
    }
}

/// What every trigonometric builder guarantees: a non-buffer floating
/// operand, and a result of the operand's own type.
pub open spec fn trig_build_post(
    kind: TrigKind,
    pre: &Context,
    post: &Context,
    input: ValueRef,
    r: Result<ValueRef, BuilderError>,
) -> bool {
    match value_type_of(pre, input) {
        None => r == Err::<ValueRef, BuilderError>(BuilderError::UnresolvedValue) && ctx_unchanged(
            pre,
            post,
        ),
        Some(t) => {
            if t.buffer_length_spec() > 1 {
                r == Err::<ValueRef, BuilderError>(BuilderError::BufferOperand) && ctx_unchanged(
                    pre,
                    post,
                )
            } else if !is_float_primitive(t.primitive_spec()) {
                r == Err::<ValueRef, BuilderError>(BuilderError::NonFloatOperand) && ctx_unchanged(
                    pre,
                    post,
                )
            } else {
                r matches Ok(out) && unary_ok(pre, post, out, t, trig_inst(kind, out, input))
            }
        },
    }
}

/// Build one trigonometric instruction.
fn build_trig(ctx: &mut Context, kind: TrigKind, input: ValueRef) -> (r: Result<
    ValueRef,
    BuilderError,
>)
    requires
        old(ctx).wf(),
    ensures
        final(ctx).wf(),
        trig_build_post(kind, old(ctx), final(ctx), input, r),
{
    let ty = match input.get_type(ctx) {
        Ok(t) => t,
        Err(_) => {
            return Err(BuilderError::UnresolvedValue);
        },
    };
    if ty.get_buffer_length() > 1 {
        return Err(BuilderError::BufferOperand);
    }
    if !matches!(ty.get_primitive(), Primitive::F32 | Primitive::F64) {
        return Err(BuilderError::NonFloatOperand);
    }
    let output = ctx.new_value(ty);
    let inst = match kind {
        TrigKind::Sin => Instruction::FastSin { output, input },
        TrigKind::Cos => Instruction::FastCos { output, input },
        TrigKind::Tan => Instruction::FastTan { output, input },
        TrigKind::Sinh => Instruction::FastSinh { output, input },
        TrigKind::Cosh => Instruction::FastCosh { output, input },
        TrigKind::Tanh => Instruction::FastTanh { output, input },
    };
    ctx.new_instruction(inst);
    Ok(output)
}

pub fn fast_sin(ctx: &mut Context, input: ValueRef) -> (r: Result<ValueRef, BuilderError>)
    requires
        old(ctx).wf(),
    ensures
        final(ctx).wf(),
        trig_build_post(TrigKind::Sin, old(ctx), final(ctx), input, r),
{
    build_trig(ctx, TrigKind::Sin, input)
}

pub fn fast_cos(ctx: &mut Context, input: ValueRef) -> (r: Result<ValueRef, BuilderError>)
    requires
        old(ctx).wf(),
    ensures
        final(ctx).wf(),
        trig_build_post(TrigKind::Cos, old(ctx), final(ctx), input, r),
{
    build_trig(ctx, TrigKind::Cos, input)
}

pub fn fast_tan(ctx: &mut Context, input: ValueRef) -> (r: Result<ValueRef, BuilderError>)
    requires
        old(ctx).wf(),
    ensures
        final(ctx).wf(),
        trig_build_post(TrigKind::Tan, old(ctx), final(ctx), input, r),
{
    build_trig(ctx, TrigKind::Tan, input)
}

pub fn fast_sinh(ctx: &mut Context, input: ValueRef) -> (r: Result<ValueRef, BuilderError>)
    requires
        old(ctx).wf(),
    ensures
        final(ctx).wf(),
        trig_build_post(TrigKind::Sinh, old(ctx), final(ctx), input, r),
{
    build_trig(ctx, TrigKind::Sinh, input)
}

pub fn fast_cosh(ctx: &mut Context, input: ValueRef) -> (r: Result<ValueRef, BuilderError>)
    requires
        old(ctx).wf(),
    ensures
        final(ctx).wf(),
        trig_build_post(TrigKind::Cosh, old(ctx), final(ctx), input, r),
{
    build_trig(ctx, TrigKind::Cosh, input)
}

pub fn fast_tanh(ctx: &mut Context, input: ValueRef) -> (r: Result<ValueRef, BuilderError>)
    requires
        old(ctx).wf(),
    ensures
        final(ctx).wf(),
        trig_build_post(TrigKind::Tanh, old(ctx), final(ctx), input, r),
{
    build_trig(ctx, TrigKind::Tanh, input)
}

/// Is this type an integral scalar, as state indices must be?
pub open spec fn integral_scalar(t: Type) -> bool {
    is_integral_primitive(t.primitive_spec()) && t.vector_width_spec() == 1
        && t.buffer_length_spec() == 1
}

/// Check a state-index operand: it must resolve to an integral scalar.
fn validate_state_index(ctx: &Context, index: ValueRef) -> (r: Result<(), BuilderError>)
    ensures
        match value_type_of(ctx, index) {
            None => r == Err::<(), BuilderError>(BuilderError::UnresolvedValue),
            Some(t) => {
                if !is_integral_primitive(t.primitive_spec()) {
                    r == Err::<(), BuilderError>(BuilderError::NonIntegralIndex)
                } else if !(t.vector_width_spec() == 1 && t.buffer_length_spec() == 1) {
                    r == Err::<(), BuilderError>(BuilderError::NonScalarIndex)
                } else {
                    r is Ok
                }
            },
        },
{
    let ty = match index.get_type(ctx) {
        Ok(t) => t,
        Err(_) => {
            return Err(BuilderError::UnresolvedValue);
        },
    };
    if !matches!(ty.get_primitive(), Primitive::I32 | Primitive::I64) {
        return Err(BuilderError::NonIntegralIndex);
    }
    if !(ty.get_vector_width() == 1 && ty.get_buffer_length() == 1) {
        return Err(BuilderError::NonScalarIndex);
    }
    Ok(())
}

/// The instruction a state read appends.
pub open spec fn state_read_inst(
    relative: bool,
    out: ValueRef,
    state: StateRef,
    index: ValueRef,
) -> Instruction {
    if relative {
        Instruction::ReadStateRelative { output: out, state, index }
    } else {
        Instruction::ReadState { output: out, state, index }
    }
}

/// What a state read leaves behind: the output takes the vector part of the
/// state's type (buffer length 1).
pub open spec fn state_read_post(
    relative: bool,
    pre: &Context,
    post: &Context,
    state: StateRef,
    index: ValueRef,
    r: Result<ValueRef, BuilderError>,
) -> bool {
    match state_type_of(pre, state) {
        None => r == Err::<ValueRef, BuilderError>(BuilderError::UnresolvedState) && ctx_unchanged(
            pre,
            post,
        ),
        Some(st) => {
            match value_type_of(pre, index) {
                None => r == Err::<ValueRef, BuilderError>(BuilderError::UnresolvedValue)
                    && ctx_unchanged(pre, post),
                Some(it) => {
                    if !is_integral_primitive(it.primitive_spec()) {
                        r == Err::<ValueRef, BuilderError>(BuilderError::NonIntegralIndex)
                            && ctx_unchanged(pre, post)
                    } else if !(it.vector_width_spec() == 1 && it.buffer_length_spec() == 1) {
                        r == Err::<ValueRef, BuilderError>(BuilderError::NonScalarIndex)
                            && ctx_unchanged(pre, post)
                    } else {
                        r matches Ok(out) && exists|vt: Type|
                            vt.primitive_spec() == st.primitive_spec() && vt.vector_width_spec()
                                == st.vector_width_spec() && vt.buffer_length_spec() == 1
                                && #[trigger] unary_ok(
                                pre,
                                post,
                                out,
                                vt,
                                state_read_inst(relative, out, state, index),
                            )
                    }
                },
            }
        },
    }
}

/// Build a state read at a fixed index (wrapping modulo the length).
pub fn read_state(ctx: &mut Context, state: StateRef, index: ValueRef) -> (r: Result<
    ValueRef,
    BuilderError,
>)
    requires
        old(ctx).wf(),
    ensures
        final(ctx).wf(),
        state_read_post(false, old(ctx), final(ctx), state, index, r),
{
    build_state_read(ctx, false, state, index)
}

/// Build a state read relative to the current sample modulo the length.
pub fn read_state_relative(ctx: &mut Context, state: StateRef, index: ValueRef) -> (r: Result<
    ValueRef,
    BuilderError,
>)
    requires
        old(ctx).wf(),
    ensures
        final(ctx).wf(),
        state_read_post(true, old(ctx), final(ctx), state, index, r),
{
    build_state_read(ctx, true, state, index)
}

fn build_state_read(ctx: &mut Context, relative: bool, state: StateRef, index: ValueRef) -> (r:
    Result<ValueRef, BuilderError>)
    requires
        old(ctx).wf(),
    ensures
        final(ctx).wf(),
        state_read_post(relative, old(ctx), final(ctx), state, index, r),
{
    let st = match state.get_type(ctx) {
        Ok(t) => t,
        Err(_) => {
            return Err(BuilderError::UnresolvedState);
        },
    };
    match validate_state_index(ctx, index) {
        Ok(()) => {},
        Err(e) => {
            return Err(e);
        },
    }
    let otype = match Type::new_vector(st.get_primitive(), st.get_vector_width()) {
        Ok(t) => t,
        Err(_) => {
            proof {
                assert(false);
            }
            return Err(BuilderError::UnresolvedState);
        },
    };
    let output = ctx.new_value(otype);
    let inst = if relative {
        Instruction::ReadStateRelative { output, state, index }
    } else {
        Instruction::ReadState { output, state, index }
    };
    ctx.new_instruction(inst);
    proof {
        assert(unary_ok(old(ctx), ctx, output, otype, state_read_inst(relative, output, state, index)));
    }
    Ok(output)
}

/// The context after a no-output instruction was appended.
pub open spec fn ctx_appended_no_value(pre: &Context, post: &Context, inst: Instruction) -> bool {
    &&& post.values@ == pre.values@
    &&& post.instructions@ == pre.instructions@.push(inst)
    &&& post.program@ == pre.program@.push(
        crate::ir::context::InstRef { index: pre.instructions@.len() as usize },
    )
    &&& post.constants@ == pre.constants@
    &&& post.states@ == pre.states@
    &&& post.inputs@ == pre.inputs@
    &&& post.outputs@ == pre.outputs@
    &&& post.properties@ == pre.properties@
    &&& post.block_size == pre.block_size
    &&& post.sample_rate == pre.sample_rate
}

/// What a state write leaves behind: the written value's type must be one
/// frame of the state.
pub open spec fn state_write_post(
    relative: bool,
    pre: &Context,
    post: &Context,
    state: StateRef,
    input: ValueRef,
    index: ValueRef,
    r: Result<(), BuilderError>,
) -> bool {
    match state_type_of(pre, state) {
        None => r == Err::<(), BuilderError>(BuilderError::UnresolvedState) && ctx_unchanged(
            pre,
            post,
        ),
        Some(st) => {
            match value_type_of(pre, input) {
                None => r == Err::<(), BuilderError>(BuilderError::UnresolvedValue)
                    && ctx_unchanged(pre, post),
                Some(vt) => {
                    if !(vt.primitive_spec() == st.primitive_spec() && vt.vector_width_spec()
                        == st.vector_width_spec() && vt.buffer_length_spec() == 1) {
                        r == Err::<(), BuilderError>(BuilderError::StateTypeMismatch)
                            && ctx_unchanged(pre, post)
                    } else {
                        match value_type_of(pre, index) {
                            None => r == Err::<(), BuilderError>(BuilderError::UnresolvedValue)
                                && ctx_unchanged(pre, post),
                            Some(it) => {
                                if !is_integral_primitive(it.primitive_spec()) {
                                    r == Err::<(), BuilderError>(BuilderError::NonIntegralIndex)
                                        && ctx_unchanged(pre, post)
                                } else if !(it.vector_width_spec() == 1 && it.buffer_length_spec()
                                    == 1) {
                                    r == Err::<(), BuilderError>(BuilderError::NonScalarIndex)
                                        && ctx_unchanged(pre, post)
                                } else {
                                    r is Ok && ctx_appended_no_value(
                                        pre,
                                        post,
                                        if relative {
                                            Instruction::WriteStateRelative { state, input, index }
                                        } else {
                                            Instruction::WriteState { state, input, index }
                                        },
                                    )
                                }
                            },
                        }
                    }
                },
            }
        },
    }
}

/// Build a state write at a fixed index (wrapping modulo the length).
pub fn write_state(ctx: &mut Context, state: StateRef, input: ValueRef, index: ValueRef) -> (r:
    Result<(), BuilderError>)
    requires
        old(ctx).wf(),
    ensures
        final(ctx).wf(),
        state_write_post(false, old(ctx), final(ctx), state, input, index, r),
{
    build_state_write(ctx, false, state, input, index)
}

/// Build a state write relative to the current sample modulo the length.
pub fn write_state_relative(
    ctx: &mut Context,
    state: StateRef,
    input: ValueRef,
    index: ValueRef,
) -> (r: Result<(), BuilderError>)
    requires
        old(ctx).wf(),
    ensures
        final(ctx).wf(),
        state_write_post(true, old(ctx), final(ctx), state, input, index, r),
{
    build_state_write(ctx, true, state, input, index)
}

fn build_state_write(
    ctx: &mut Context,
    relative: bool,
    state: StateRef,
    input: ValueRef,
    index: ValueRef,
) -> (r: Result<(), BuilderError>)
    requires
        old(ctx).wf(),
    ensures
        final(ctx).wf(),
        state_write_post(relative, old(ctx), final(ctx), state, input, index, r),
{
    let st = match state.get_type(ctx) {
        Ok(t) => t,
        Err(_) => {
            return Err(BuilderError::UnresolvedState);
        },
    };
    let vt = match input.get_type(ctx) {
        Ok(t) => t,
        Err(_) => {
            return Err(BuilderError::UnresolvedValue);
        },
    };
    if !(vt.get_primitive() == st.get_primitive() && vt.get_vector_width()
        == st.get_vector_width() && vt.get_buffer_length() == 1) {
        return Err(BuilderError::StateTypeMismatch);
    }
    match validate_state_index(ctx, index) {
        Ok(()) => {},
        Err(e) => {
            return Err(e);
        },
    }
    let inst = if relative {
        Instruction::WriteStateRelative { state, input, index }
    } else {
        Instruction::WriteState { state, input, index }
    };
    ctx.new_instruction(inst);
    Ok(())
}

/// The current time in samples: an i64 scalar.
pub fn read_time_samples(ctx: &mut Context) -> (r: Result<ValueRef, BuilderError>)
    requires
        old(ctx).wf(),
    ensures
        final(ctx).wf(),
        r is Ok,
        r matches Ok(out) ==> unary_ok(
            old(ctx),
            final(ctx),
            out,
            Type::scalar_spec(Primitive::I64),
            Instruction::ReadTimeSamples { output: out },
        ),
{
    let otype = match Type::new_scalar(Primitive::I64) {
        Ok(t) => t,
        Err(_) => {
            proof {
                assert(false);
            }
            return Err(BuilderError::UnresolvedValue);
        },
    };
    let output = ctx.new_value(otype);
    ctx.new_instruction(Instruction::ReadTimeSamples { output });
    Ok(output)
}

/// The current time in seconds: an f64 scalar.
pub fn read_time_seconds(ctx: &mut Context) -> (r: Result<ValueRef, BuilderError>)
    requires
        old(ctx).wf(),
    ensures
        final(ctx).wf(),
        r is Ok,
        r matches Ok(out) ==> unary_ok(
            old(ctx),
            final(ctx),
            out,
            Type::scalar_spec(Primitive::F64),
            Instruction::ReadTimeSeconds { output: out },
        ),
{
    let otype = match Type::new_scalar(Primitive::F64) {
        Ok(t) => t,
        Err(_) => {
            proof {
                assert(false);
            }
            return Err(BuilderError::UnresolvedValue);
        },
    };
    let output = ctx.new_value(otype);
    ctx.new_instruction(Instruction::ReadTimeSeconds { output });
    Ok(output)
}

/// Read program input `index`; the result takes the declared input type.
pub fn read_input(ctx: &mut Context, index: usize) -> (r: Result<ValueRef, BuilderError>)
    requires
        old(ctx).wf(),
    ensures
        final(ctx).wf(),
        index >= old(ctx).inputs@.len() ==> r == Err::<ValueRef, _>(BuilderError::UnknownInput)
            && ctx_unchanged(old(ctx), final(ctx)),
        index < old(ctx).inputs@.len() ==> (r matches Ok(out) && unary_ok(
            old(ctx),
            final(ctx),
            out,
            old(ctx).inputs@[index as int],
            Instruction::ReadInput { output: out, input_index: index },
        )),
{
    let ty = match ctx.get_input_type(index) {
        Some(t) => t,
        None => {
            return Err(BuilderError::UnknownInput);
        },
    };
    let output = ctx.new_value(ty);
    ctx.new_instruction(Instruction::ReadInput { output, input_index: index });
    Ok(output)
}

/// Read program property `property`; the result takes the declared type.
pub fn read_property(ctx: &mut Context, property: usize) -> (r: Result<ValueRef, BuilderError>)
    requires
        old(ctx).wf(),
    ensures
        final(ctx).wf(),
        property >= old(ctx).properties@.len() ==> r == Err::<ValueRef, _>(
            BuilderError::UnknownProperty,
        ) && ctx_unchanged(old(ctx), final(ctx)),
        property < old(ctx).properties@.len() ==> (r matches Ok(out) && unary_ok(
            old(ctx),
            final(ctx),
            out,
            old(ctx).properties@[property as int],
            Instruction::ReadProperty { output: out, property_index: property },
        )),
{
    let ty = match ctx.get_property_type(property) {
        Some(t) => t,
        None => {
            return Err(BuilderError::UnknownProperty);
        },
    };
    let output = ctx.new_value(ty);
    ctx.new_instruction(Instruction::ReadProperty { output, property_index: property });
    Ok(output)
}

/// Write `input` to program output `index`; the value's type must equal the
/// declared output type exactly.
pub fn write_output(ctx: &mut Context, input: ValueRef, index: usize) -> (r: Result<
    (),
    BuilderError,
>)
    requires
        old(ctx).wf(),
    ensures
        final(ctx).wf(),
        index >= old(ctx).outputs@.len() ==> r == Err::<(), _>(BuilderError::UnknownOutput)
            && ctx_unchanged(old(ctx), final(ctx)),
        index < old(ctx).outputs@.len() && value_type_of(old(ctx), input) is None ==> r
            == Err::<(), _>(BuilderError::UnresolvedValue) && ctx_unchanged(old(ctx), final(ctx)),
        index < old(ctx).outputs@.len() ==> (value_type_of(old(ctx), input) matches Some(t) ==> {
            if t != old(ctx).outputs@[index as int] {
                r == Err::<(), BuilderError>(BuilderError::OutputTypeMismatch) && ctx_unchanged(
                    old(ctx),
                    final(ctx),
                )
            } else {
                r is Ok && ctx_appended_no_value(
                    old(ctx),
                    final(ctx),
                    Instruction::WriteOutput { input, output_index: index },
                )
            }
        }),
{
    let ty = match ctx.get_output_type(index) {
        Some(t) => t,
        None => {
            return Err(BuilderError::UnknownOutput);
        },
    };
    let ity = match input.get_type(ctx) {
        Ok(t) => t,
        Err(_) => {
            return Err(BuilderError::UnresolvedValue);
        },
    };
    if ty != ity {
        return Err(BuilderError::OutputTypeMismatch);
    }
    ctx.new_instruction(Instruction::WriteOutput { input, output_index: index });
    Ok(())
}

} // verus!

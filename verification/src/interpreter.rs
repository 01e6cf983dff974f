//! The reference interpreter.
//!
//! It executes a context's instruction schedule sample by sample over one
//! block, managing state memory and the host I/O buffers.  It is slow on
//! purpose: its job is to be the oracle other backends are compared
//! against.  All floating-point data lives as raw IEEE 754 bit patterns;
//! the arithmetic on them comes from the embedder's [`HostNumerics`].
//! Integer lanes are specified exactly.  The interpreter fails fast on the
//! first runtime violation: DSP execution has no meaningful
//! partial-recovery semantics.

use vstd::prelude::*;

use crate::constant::{
    broadcast_d, broadcast_i32, broadcast_i64, broadcast_s, broadcast_width, broadcast_widths_ok,
    div_pair_safe_i32, div_pair_safe_i64, elem_i32, elem_i64, Constant, FoldOp,
};
use crate::host::HostNumerics;
use crate::ir::context::{Context, StateRef, ValueKind, ValueRef};
use crate::ir::instruction::Instruction;
use crate::ir::types::{Primitive, Type};

verus! {

/// Runtime failures; the interpreter stops at the first one.
#[derive(Debug, Eq, PartialEq, Structural, Copy, Clone)]
pub enum RuntimeError {
    /// A value handle does not resolve against the context.
    UnresolvedValue,
    /// A needed input value has not been computed.
    MissingValue,
    /// An attempt to set a value twice in one sample.
    DoubleSetValue,
    /// Operand types do not line up; an internal invariant violation.
    TypeMismatch,
    /// Operand widths cannot broadcast; an internal invariant violation.
    WidthMismatch,
    /// A state index value is not integral.
    NonIntegralStateIndex,
    /// A state index value is not scalar.
    NonScalarStateIndex,
    /// An input, output, property or state index is out of range.
    IndexOutOfRange,
    /// A state's storage does not match its declared size.
    StateSizeMismatch,
    /// A buffer's storage does not match its declared size.
    BufferSizeMismatch,
    /// Booleans (and integer power) are not supported here.
    UnsupportedType,
    /// Integer division or remainder by zero (or overflowing MIN / -1).
    DivisionByZero,
    /// A declared size does not fit the machine.
    SizeOverflow,
}

/// The trigonometric functions the interpreter serves.
#[derive(Debug, Eq, PartialEq, Structural, Copy, Clone)]
enum TrigFn {
    Sin,
    Cos,
    Tan,
    Sinh,
    Cosh,
    Tanh,
}

/// A runtime value: a flat array of one primitive.  Floating-point
/// elements are IEEE 754 bit patterns.
#[derive(Debug)]
pub enum Value {
    I32(Vec<i32>),
    I64(Vec<i64>),
    F32(Vec<u32>),
    F64(Vec<u64>),
}

impl Value {
    /// The number of elements.
    pub open spec fn len_spec(&self) -> nat {
        match self {
            Value::I32(v) => v@.len(),
            Value::I64(v) => v@.len(),
            Value::F32(v) => v@.len(),
            Value::F64(v) => v@.len(),
        }
    }

    pub fn len(&self) -> (r: usize)
        ensures
            r == self.len_spec(),
    {
        match self {
            Value::I32(v) => v.len(),
            Value::I64(v) => v.len(),
            Value::F32(v) => v.len(),
            Value::F64(v) => v.len(),
        }
    }

    /// An all-zero value of the given type, `width x length` elements.
    /// Booleans are not supported.
    pub fn new_zero_from_ty(ty: &Type) -> (r: Result<Value, RuntimeError>)
        ensures
            r matches Ok(v) ==> v.len_spec() == ty.vector_width_spec() * ty.buffer_length_spec()
                && is_zero_value(&v, ty.primitive_spec()),
            ty.primitive_spec() == Primitive::Bool ==> r == Err::<Value, _>(
                RuntimeError::UnsupportedType,
            ),
            ty.primitive_spec() != Primitive::Bool && ty.vector_width_spec()
                * ty.buffer_length_spec() <= usize::MAX ==> r is Ok,
    {
        if matches!(ty.get_primitive(), Primitive::Bool) {
            return Err(RuntimeError::UnsupportedType);
        }
        let w = ty.get_vector_width();
        let l = ty.get_buffer_length();
        let total64 = match w.checked_mul(l) {
            Some(t) => t,
            None => {
                return Err(RuntimeError::SizeOverflow);
            },
        };
        if total64 > usize::MAX as u64 {
            return Err(RuntimeError::SizeOverflow);
        }
        let total = total64 as usize;
        match ty.get_primitive() {
            Primitive::Bool => {
                proof {
                    assert(false);
                }
                Err(RuntimeError::UnsupportedType)
            },
            Primitive::I32 => {
                let mut v: Vec<i32> = Vec::new();
                let mut k: usize = 0;
                while k < total
                    invariant
                        k <= total,
                        v@.len() == k,
                        forall|j: int| 0 <= j < k ==> v@[j] == 0i32,
                    decreases total - k,
                {
                    v.push(0i32);
                    k += 1;
                }
                Ok(Value::I32(v))
            },
            Primitive::I64 => {
                let mut v: Vec<i64> = Vec::new();
                let mut k: usize = 0;
                while k < total
                    invariant
                        k <= total,
                        v@.len() == k,
                        forall|j: int| 0 <= j < k ==> v@[j] == 0i64,
                    decreases total - k,
                {
                    v.push(0i64);
                    k += 1;
                }
                Ok(Value::I64(v))
            },
            Primitive::F32 => {
                let mut v: Vec<u32> = Vec::new();
                let mut k: usize = 0;
                while k < total
                    invariant
                        k <= total,
                        v@.len() == k,
                        forall|j: int| 0 <= j < k ==> v@[j] == 0u32,
                    decreases total - k,
                {
                    v.push(0u32);
                    k += 1;
                }
                Ok(Value::F32(v))
            },
            Primitive::F64 => {
                let mut v: Vec<u64> = Vec::new();
                let mut k: usize = 0;
                while k < total
                    invariant
                        k <= total,
                        v@.len() == k,
                        forall|j: int| 0 <= j < k ==> v@[j] == 0u64,
                    decreases total - k,
                {
                    v.push(0u64);
                    k += 1;
                }
                Ok(Value::F64(v))
            },
        }
    }
}

/// Is `v` the all-zero value of primitive `p`?  Zero bit patterns are
/// exactly positive floating-point zero.
pub open spec fn is_zero_value(v: &Value, p: Primitive) -> bool {
    match v {
        Value::I32(x) => p == Primitive::I32 && forall|j: int| 0 <= j < x@.len() ==> x@[j] == 0i32,
        Value::I64(x) => p == Primitive::I64 && forall|j: int| 0 <= j < x@.len() ==> x@[j] == 0i64,
        Value::F32(x) => p == Primitive::F32 && forall|j: int| 0 <= j < x@.len() ==> x@[j] == 0u32,
        Value::F64(x) => p == Primitive::F64 && forall|j: int| 0 <= j < x@.len() ==> x@[j] == 0u64,
    }
}

/// Do the operand variants and widths admit this element-wise operation?
/// Booleans never arrive here (a [`Value`] cannot hold them); integer
/// power is rejected, and integer division must be safe for every pair
/// the broadcast will touch.
pub open spec fn value_binop_ok(op: FoldOp, l: &Value, r: &Value) -> bool {
    &&& l.len_spec() > 0
    &&& r.len_spec() > 0
    &&& broadcast_widths_ok(l.len_spec(), r.len_spec())
    &&& match (l, r) {
        (Value::I32(a), Value::I32(b)) => op != FoldOp::Pow && ((op == FoldOp::Div || op
            == FoldOp::Rem) ==> forall|k: int|
            0 <= k < broadcast_width(a@.len(), b@.len()) ==> #[trigger] div_pair_safe_i32(
                a@[k % (a@.len() as int)],
                b@[k % (b@.len() as int)],
            )),
        (Value::I64(a), Value::I64(b)) => op != FoldOp::Pow && ((op == FoldOp::Div || op
            == FoldOp::Rem) ==> forall|k: int|
            0 <= k < broadcast_width(a@.len(), b@.len()) ==> #[trigger] div_pair_safe_i64(
                a@[k % (a@.len() as int)],
                b@[k % (b@.len() as int)],
            )),
        (Value::F32(_), Value::F32(_)) => true,
        (Value::F64(_), Value::F64(_)) => true,
        _ => false,
    }
}

/// The element-wise result: integer lanes exactly, float lanes by length.
pub open spec fn is_value_binop(op: FoldOp, l: &Value, r: &Value, out: &Value) -> bool {
    match (l, r, out) {
        (Value::I32(a), Value::I32(b), Value::I32(c)) => {
            &&& c@.len() == broadcast_width(a@.len(), b@.len())
            &&& forall|k: int|
                0 <= k < c@.len() ==> #[trigger] c@[k] == elem_i32(
                    op,
                    a@[k % (a@.len() as int)],
                    b@[k % (b@.len() as int)],
                )
        },
        (Value::I64(a), Value::I64(b), Value::I64(c)) => {
            &&& c@.len() == broadcast_width(a@.len(), b@.len())
            &&& forall|k: int|
                0 <= k < c@.len() ==> #[trigger] c@[k] == elem_i64(
                    op,
                    a@[k % (a@.len() as int)],
                    b@[k % (b@.len() as int)],
                )
        },
        (Value::F32(a), Value::F32(b), Value::F32(c)) => c@.len() == broadcast_width(
            a@.len(),
            b@.len(),
        ),
        (Value::F64(a), Value::F64(b), Value::F64(c)) => c@.len() == broadcast_width(
            a@.len(),
            b@.len(),
        ),
        _ => false,
    }
}

/// Check the divisor lane of an integer division element by element.
fn div_ok_i32(a: &Vec<i32>, b: &Vec<i32>) -> (r: bool)
    requires
        a@.len() > 0,
        b@.len() > 0,
    ensures
        r <==> forall|k: int|
            0 <= k < broadcast_width(a@.len(), b@.len()) ==> #[trigger] div_pair_safe_i32(
                a@[k % (a@.len() as int)],
                b@[k % (b@.len() as int)],
            ),
{
    let n: usize = if a.len() >= b.len() {
        a.len()
    } else {
        b.len()
    };
    let mut k: usize = 0;
    let mut ok = true;
    while k < n
        invariant
            a@.len() > 0,
            b@.len() > 0,
            n == broadcast_width(a@.len(), b@.len()),
            k <= n,
            ok <==> forall|j: int|
                0 <= j < k ==> #[trigger] div_pair_safe_i32(
                    a@[j % (a@.len() as int)],
                    b@[j % (b@.len() as int)],
                ),
        decreases n - k,
    {
        let x = a[k % a.len()];
        let y = b[k % b.len()];
        proof {
            assert(x == a@[k as int % (a@.len() as int)]);
            assert(y == b@[k as int % (b@.len() as int)]);
            assert(div_pair_safe_i32(
                a@[k as int % (a@.len() as int)],
                b@[k as int % (b@.len() as int)],
            ) <==> (y != 0 && !(x == i32::MIN && y == -1)));
        }
        if y == 0 || (x == i32::MIN && y == -1) {
            ok = false;
        }
        k += 1;
    }
    ok
}

fn div_ok_i64(a: &Vec<i64>, b: &Vec<i64>) -> (r: bool)
    requires
        a@.len() > 0,
        b@.len() > 0,
    ensures
        r <==> forall|k: int|
            0 <= k < broadcast_width(a@.len(), b@.len()) ==> #[trigger] div_pair_safe_i64(
                a@[k % (a@.len() as int)],
                b@[k % (b@.len() as int)],
            ),
{
    let n: usize = if a.len() >= b.len() {
        a.len()
    } else {
        b.len()
    };
    let mut k: usize = 0;
    let mut ok = true;
    while k < n
        invariant
            a@.len() > 0,
            b@.len() > 0,
            n == broadcast_width(a@.len(), b@.len()),
            k <= n,
            ok <==> forall|j: int|
                0 <= j < k ==> #[trigger] div_pair_safe_i64(
                    a@[j % (a@.len() as int)],
                    b@[j % (b@.len() as int)],
                ),
        decreases n - k,
    {
        let x = a[k % a.len()];
        let y = b[k % b.len()];
        proof {
            assert(x == a@[k as int % (a@.len() as int)]);
            assert(y == b@[k as int % (b@.len() as int)]);
            assert(div_pair_safe_i64(
                a@[k as int % (a@.len() as int)],
                b@[k as int % (b@.len() as int)],
            ) <==> (y != 0 && !(x == i64::MIN && y == -1)));
        }
        if y == 0 || (x == i64::MIN && y == -1) {
            ok = false;
        }
        k += 1;
    }
    ok
}

/// Copy `w` elements starting at `off`.
fn read_segment<T: Copy>(v: &Vec<T>, off: usize, w: usize) -> (r: Vec<T>)
    requires
        off + w <= v@.len(),
    ensures
        r@ == v@.subrange(off as int, off + w),
{
    let n = v.len();
    let mut out: Vec<T> = Vec::new();
    let mut k: usize = 0;
    while k < w
        invariant
            n == v@.len(),
            off + w <= v@.len(),
            k <= w,
            out@.len() == k,
            forall|j: int| 0 <= j < k ==> out@[j] == v@[off + j],
        decreases w - k,
    {
        out.push(v[off + k]);
        k += 1;
    }
    proof {
        assert(out@ =~= v@.subrange(off as int, off + w));
    }
    out
}

/// Replace `data.len()` elements of `v` starting at `off`.
fn write_segment<T: Copy>(v: &mut Vec<T>, off: usize, data: &Vec<T>)
    requires
        off + data@.len() <= old(v)@.len(),
    ensures
        final(v)@.len() == old(v)@.len(),
        forall|j: int|
            0 <= j < old(v)@.len() ==> #[trigger] final(v)@[j] == (if off <= j < off
                + data@.len() {
                data@[j - off]
            } else {
                old(v)@[j]
            }),
{
    let n = v.len();
    let mut k: usize = 0;
    while k < data.len()
        invariant
            n == old(v)@.len(),
            v@.len() == old(v)@.len(),
            off + data@.len() <= v@.len(),
            k <= data@.len(),
            forall|j: int|
                0 <= j < v@.len() ==> #[trigger] v@[j] == (if off <= j < off + k {
                    data@[j - off]
                } else {
                    old(v)@[j]
                }),
        decreases data@.len() - k,
    {
        v[off + k] = data[k];
        k += 1;
    }
}

/// `out` is the `w`-wide frame of `stored` at frame index `off`.
pub open spec fn frame_of(stored: &Value, off: int, w: int, out: &Value) -> bool {
    match (stored, out) {
        (Value::I32(b), Value::I32(d)) => 0 <= off && 0 <= w && off * w + w <= b@.len() && d@
            == b@.subrange(off * w, off * w + w),
        (Value::I64(b), Value::I64(d)) => 0 <= off && 0 <= w && off * w + w <= b@.len() && d@
            == b@.subrange(off * w, off * w + w),
        (Value::F32(b), Value::F32(d)) => 0 <= off && 0 <= w && off * w + w <= b@.len() && d@
            == b@.subrange(off * w, off * w + w),
        (Value::F64(b), Value::F64(d)) => 0 <= off && 0 <= w && off * w + w <= b@.len() && d@
            == b@.subrange(off * w, off * w + w),
        _ => false,
    }
}

/// `post` is `pre` with its `w`-wide frame at frame index `off` replaced by
/// `data`.
pub open spec fn frame_written(pre: &Value, off: int, w: int, data: &Value, post: &Value) -> bool {
    match (pre, data, post) {
        (Value::I32(b), Value::I32(d), Value::I32(n)) => spliced(b@, off, w, d@, n@),
        (Value::I64(b), Value::I64(d), Value::I64(n)) => spliced(b@, off, w, d@, n@),
        (Value::F32(b), Value::F32(d), Value::F32(n)) => spliced(b@, off, w, d@, n@),
        (Value::F64(b), Value::F64(d), Value::F64(n)) => spliced(b@, off, w, d@, n@),
        _ => false,
    }
}

/// `post` equals `pre` except for the `w` elements at `off x w`, which come
/// from `data`.
pub open spec fn spliced<T>(pre: Seq<T>, off: int, w: int, data: Seq<T>, post: Seq<T>) -> bool {
    &&& 0 <= off
    &&& data.len() == w
    &&& off * w + w <= pre.len()
    &&& post.len() == pre.len()
    &&& forall|j: int|
        0 <= j < pre.len() ==> #[trigger] post[j] == (if off * w <= j < off * w + w {
            data[j - off * w]
        } else {
            pre[j]
        })
}

/// The interpreter: host buffers, the transient and constant value tables,
/// state memory, and the block position.  State memory persists across
/// blocks; the transient table is cleared every sample.
#[derive(Debug)]
pub struct Interpreter<H: HostNumerics> {
    pub host: H,
    /// One buffer per program input, `width x block_size` single-precision
    /// bit patterns.
    pub inputs: Vec<Vec<u32>>,
    /// One buffer per program output, sized like the inputs.
    pub outputs: Vec<Vec<u32>>,
    /// One double-precision bit pattern per property.
    pub properties: Vec<u64>,
    /// The transient value table, reset on every sample.
    pub values: Vec<Option<Value>>,
    /// Pre-resolved constants; never change after construction.
    pub constant_values: Vec<Option<Value>>,
    /// State memory, keyed by state index.
    pub state: Vec<Value>,
    pub block_offset: u64,
    pub block_counter: u64,
}

/// The current sample index of an interpreter, as the wrapping product
/// plus offset.
pub open spec fn sample_time<H: HostNumerics>(it: &Interpreter<H>, ctx: &Context) -> u64 {
    it.block_counter.wrapping_mul(ctx.block_size as u64).wrapping_add(it.block_offset)
}

/// The reduced frame index of a state access: the raw index — plus the
/// current sample for the relative forms — wrapped positive-biased modulo
/// the buffer length `l`.  The relative form is pinned as long as the
/// sample index fits an `i64` (beyond that the time is truncated).
pub open spec fn offset_reduces<H: HostNumerics>(
    it: &Interpreter<H>,
    ctx: &Context,
    relative: bool,
    raw: i64,
    l: i64,
    off: usize,
) -> bool {
    &&& !relative ==> raw.checked_rem_euclid(l) == Some(off as i64)
    &&& (relative && sample_time(it, ctx) <= i64::MAX) ==> raw.wrapping_add(
        sample_time(it, ctx) as i64,
    ).checked_rem_euclid(l) == Some(off as i64)
}

/// The `i64` a scalar integral index value carries, if it is one.
pub open spec fn index_scalar_value(v: &Value) -> Option<i64> {
    match v {
        Value::I32(a) => if a@.len() == 1 {
            Some(a@[0] as i64)
        } else {
            None
        },
        Value::I64(a) => if a@.len() == 1 {
            Some(a@[0])
        } else {
            None
        },
        _ => None,
    }
}

/// A single-precision trigonometric result: the same float variant at the
/// same length, the elements being whatever the host computed.
pub open spec fn is_trig_result(v: &Value, out: &Value) -> bool {
    match (v, out) {
        (Value::F32(a), Value::F32(c)) => c@.len() == a@.len(),
        (Value::F64(a), Value::F64(c)) => c@.len() == a@.len(),
        _ => false,
    }
}

/// The result of negation: exact on every lane (integers wrap, floats flip
/// the sign bit).
pub open spec fn is_negated(v: &Value, out: &Value) -> bool {
    match (v, out) {
        (Value::I32(a), Value::I32(c)) => c@.len() == a@.len() && (forall|k: int|
            0 <= k < a@.len() ==> c@[k] == (0i32).wrapping_sub(a@[k])),
        (Value::I64(a), Value::I64(c)) => c@.len() == a@.len() && (forall|k: int|
            0 <= k < a@.len() ==> c@[k] == (0i64).wrapping_sub(a@[k])),
        (Value::F32(a), Value::F32(c)) => c@.len() == a@.len() && (forall|k: int|
            0 <= k < a@.len() ==> c@[k] == (a@[k] ^ 0x8000_0000u32)),
        (Value::F64(a), Value::F64(c)) => c@.len() == a@.len() && (forall|k: int|
            0 <= k < a@.len() ==> c@[k] == (a@[k] ^ 0x8000_0000_0000_0000u64)),
        _ => false,
    }
}

/// The result of conversion to single precision: the width is kept, and a
/// single-precision operand is copied unchanged.
pub open spec fn is_to_f32(v: &Value, out: &Value) -> bool {
    &&& out matches Value::F32(c) && c@.len() == v.len_spec() && (v matches Value::F32(a) ==> c@
        == a@)
}

/// The result of conversion to double precision; see [`is_to_f32`].
pub open spec fn is_to_f64(v: &Value, out: &Value) -> bool {
    &&& out matches Value::F64(c) && c@.len() == v.len_spec() && (v matches Value::F64(a) ==> c@
        == a@)
}

/// Where a value comes from: the constant table is preferred, then the
/// transient table.
pub open spec fn value_lookup<H: HostNumerics>(it: &Interpreter<H>, vref: ValueRef) -> Option<
    Value,
> {
    if vref.index < it.constant_values@.len() && it.constant_values@[vref.index as int] is Some {
        it.constant_values@[vref.index as int]
    } else if vref.index < it.values@.len() && it.values@[vref.index as int] is Some {
        it.values@[vref.index as int]
    } else {
        None
    }
}

/// Everything outside the transient value table that a value-producing
/// instruction leaves untouched, with the output slot freshly set.
pub open spec fn only_value_set<H: HostNumerics>(
    pre: &Interpreter<H>,
    post: &Interpreter<H>,
    out_ref: ValueRef,
    v: Value,
) -> bool {
    &&& out_ref.index < pre.values@.len()
    &&& pre.values@[out_ref.index as int] is None
    &&& post.values@ == pre.values@.update(out_ref.index as int, Some(v))
    &&& post.host == pre.host
    &&& post.inputs@ == pre.inputs@
    &&& post.outputs@ == pre.outputs@
    &&& post.properties@ == pre.properties@
    &&& post.constant_values@ == pre.constant_values@
    &&& post.state@ == pre.state@
    &&& post.block_offset == pre.block_offset
    &&& post.block_counter == pre.block_counter
}

/// One broadcasting binary instruction was executed.
pub open spec fn binop_step<H: HostNumerics>(
    op: FoldOp,
    output: ValueRef,
    left: ValueRef,
    right: ValueRef,
    pre: &Interpreter<H>,
    post: &Interpreter<H>,
) -> bool {
    value_lookup(pre, left) matches Some(lv) && (value_lookup(pre, right) matches Some(rv)
        && exists|out: Value|
        #[trigger] is_value_binop(op, &lv, &rv, &out) && only_value_set(pre, post, output, out))
}

/// A clamp was executed: a minimum against the upper bound, then a maximum
/// against the lower one.
pub open spec fn clamp_step<H: HostNumerics>(
    output: ValueRef,
    input: ValueRef,
    lower: ValueRef,
    upper: ValueRef,
    pre: &Interpreter<H>,
    post: &Interpreter<H>,
) -> bool {
    value_lookup(pre, input) matches Some(x) && (value_lookup(pre, lower) matches Some(lo) && (
    value_lookup(pre, upper) matches Some(hi) && exists|m: Value, out: Value|
        #[trigger] is_value_binop(FoldOp::Min, &x, &hi, &m) && #[trigger] is_value_binop(
            FoldOp::Max,
            &m,
            &lo,
            &out,
        ) && only_value_set(pre, post, output, out)))
}

/// A unary instruction producing `rel(operand, result)` was executed.
pub open spec fn negate_step<H: HostNumerics>(
    output: ValueRef,
    input: ValueRef,
    pre: &Interpreter<H>,
    post: &Interpreter<H>,
) -> bool {
    value_lookup(pre, input) matches Some(v) && exists|out: Value|
        #[trigger] is_negated(&v, &out) && only_value_set(pre, post, output, out)
}

pub open spec fn trig_step<H: HostNumerics>(
    output: ValueRef,
    input: ValueRef,
    pre: &Interpreter<H>,
    post: &Interpreter<H>,
) -> bool {
    value_lookup(pre, input) matches Some(v) && exists|out: Value|
        #[trigger] is_trig_result(&v, &out) && only_value_set(pre, post, output, out)
}

pub open spec fn to_f32_step<H: HostNumerics>(
    output: ValueRef,
    input: ValueRef,
    pre: &Interpreter<H>,
    post: &Interpreter<H>,
) -> bool {
    value_lookup(pre, input) matches Some(v) && exists|out: Value|
        #[trigger] is_to_f32(&v, &out) && only_value_set(pre, post, output, out)
}

pub open spec fn to_f64_step<H: HostNumerics>(
    output: ValueRef,
    input: ValueRef,
    pre: &Interpreter<H>,
    post: &Interpreter<H>,
) -> bool {
    value_lookup(pre, input) matches Some(v) && exists|out: Value|
        #[trigger] is_to_f64(&v, &out) && only_value_set(pre, post, output, out)
}

/// One frame of a state was read at the reduced index.
pub open spec fn read_state_step<H: HostNumerics>(
    ctx: &Context,
    relative: bool,
    output: ValueRef,
    state: StateRef,
    index: ValueRef,
    pre: &Interpreter<H>,
    post: &Interpreter<H>,
) -> bool {
    &&& state.index < ctx.states@.len()
    &&& state.index < pre.state@.len()
    &&& (value_lookup(pre, index) matches Some(iv) && (index_scalar_value(&iv) matches Some(raw)
        && exists|off: usize, v: Value|
        {
            &&& off < ctx.states@[state.index as int].state_type.buffer_length_spec()
            &&& ctx.states@[state.index as int].state_type.buffer_length_spec() <= i64::MAX
            &&& #[trigger] frame_of(
                &pre.state@[state.index as int],
                off as int,
                ctx.states@[state.index as int].state_type.vector_width_spec() as int,
                &v,
            )
            &&& offset_reduces(
                pre,
                ctx,
                relative,
                raw,
                ctx.states@[state.index as int].state_type.buffer_length_spec() as i64,
                off,
            )
            &&& only_value_set(pre, post, output, v)
        }))
}

/// Everything outside state memory that a state write leaves untouched,
/// with one state replaced.
pub open spec fn only_state_set<H: HostNumerics>(
    pre: &Interpreter<H>,
    post: &Interpreter<H>,
    idx: int,
    v: Value,
) -> bool {
    &&& 0 <= idx < pre.state@.len()
    &&& post.state@ == pre.state@.update(idx, v)
    &&& post.host == pre.host
    &&& post.inputs@ == pre.inputs@
    &&& post.outputs@ == pre.outputs@
    &&& post.properties@ == pre.properties@
    &&& post.constant_values@ == pre.constant_values@
    &&& post.values@ == pre.values@
    &&& post.block_offset == pre.block_offset
    &&& post.block_counter == pre.block_counter
}

/// One frame of a state was written at the reduced index.
pub open spec fn write_state_step<H: HostNumerics>(
    ctx: &Context,
    relative: bool,
    state: StateRef,
    input: ValueRef,
    index: ValueRef,
    pre: &Interpreter<H>,
    post: &Interpreter<H>,
) -> bool {
    &&& state.index < ctx.states@.len()
    &&& state.index < pre.state@.len()
    &&& (value_lookup(pre, index) matches Some(iv) && (index_scalar_value(&iv) matches Some(raw)
        && (value_lookup(pre, input) matches Some(data) && exists|off: usize, nv: Value|
        {
            &&& off < ctx.states@[state.index as int].state_type.buffer_length_spec()
            &&& ctx.states@[state.index as int].state_type.buffer_length_spec() <= i64::MAX
            &&& #[trigger] frame_written(
                &pre.state@[state.index as int],
                off as int,
                ctx.states@[state.index as int].state_type.vector_width_spec() as int,
                &data,
                &nv,
            )
            &&& offset_reduces(
                pre,
                ctx,
                relative,
                raw,
                ctx.states@[state.index as int].state_type.buffer_length_spec() as i64,
                off,
            )
            &&& only_state_set(pre, post, state.index as int, nv)
        })))
}

/// The current time in samples was read into an i64 scalar (exact as long
/// as the sample index fits an `i64`).
pub open spec fn time_samples_step<H: HostNumerics>(
    ctx: &Context,
    output: ValueRef,
    pre: &Interpreter<H>,
    post: &Interpreter<H>,
) -> bool {
    exists|d: Vec<i64>|
        (#[trigger] d@).len() == 1 && (sample_time(pre, ctx) <= i64::MAX ==> d@[0] == sample_time(
            pre,
            ctx,
        ) as i64) && only_value_set(pre, post, output, Value::I64(d))
}

/// The current time in seconds was read into an f64 scalar; the quotient
/// itself is the host's.
pub open spec fn time_seconds_step<H: HostNumerics>(
    output: ValueRef,
    pre: &Interpreter<H>,
    post: &Interpreter<H>,
) -> bool {
    exists|d: Vec<u64>|
        (#[trigger] d@).len() == 1 && only_value_set(pre, post, output, Value::F64(d))
}

/// One frame of a program input was read at the current sample.
pub open spec fn read_input_step<H: HostNumerics>(
    ctx: &Context,
    output: ValueRef,
    input_index: usize,
    pre: &Interpreter<H>,
    post: &Interpreter<H>,
) -> bool {
    &&& input_index < ctx.inputs@.len()
    &&& input_index < pre.inputs@.len()
    &&& exists|d: Vec<u32>|
        {
            let w = ctx.inputs@[input_index as int].vector_width_spec() as int;
            let start = pre.block_offset * w;
            (#[trigger] d@) == pre.inputs@[input_index as int]@.subrange(start, start + w)
                && only_value_set(pre, post, output, Value::F32(d))
        }
}

/// One frame of a program output was written at the current sample.
pub open spec fn write_output_step<H: HostNumerics>(
    input: ValueRef,
    output_index: usize,
    pre: &Interpreter<H>,
    post: &Interpreter<H>,
) -> bool {
    &&& output_index < pre.outputs@.len()
    &&& (value_lookup(pre, input) matches Some(v) && (v matches Value::F32(d) && {
        let w = d@.len() as int;
        let start = pre.block_offset * w;
        &&& post.outputs@.len() == pre.outputs@.len()
        &&& post.outputs@[output_index as int]@.len() == pre.outputs@[output_index as int]@.len()
        &&& forall|j: int|
            0 <= j < pre.outputs@[output_index as int]@.len()
                ==> #[trigger] post.outputs@[output_index as int]@[j] == (if start <= j < start
                + w {
                d@[j - start]
            } else {
                pre.outputs@[output_index as int]@[j]
            })
        &&& forall|k: int|
            0 <= k < pre.outputs@.len() && k != output_index ==> #[trigger] post.outputs@[k]
                == pre.outputs@[k]
    }))
    &&& post.host == pre.host
    &&& post.inputs@ == pre.inputs@
    &&& post.properties@ == pre.properties@
    &&& post.constant_values@ == pre.constant_values@
    &&& post.state@ == pre.state@
    &&& post.values@ == pre.values@
    &&& post.block_offset == pre.block_offset
    &&& post.block_counter == pre.block_counter
}

/// One property was read into an f64 scalar.
pub open spec fn read_property_step<H: HostNumerics>(
    output: ValueRef,
    property_index: usize,
    pre: &Interpreter<H>,
    post: &Interpreter<H>,
) -> bool {
    &&& property_index < pre.properties@.len()
    &&& exists|d: Vec<u64>|
        (#[trigger] d@).len() == 1 && d@[0] == pre.properties@[property_index as int]
            && only_value_set(pre, post, output, Value::F64(d))
}

/// A fresh, in-range output slot for this sample.
pub open spec fn output_slot_free<H: HostNumerics>(pre: &Interpreter<H>, out: ValueRef) -> bool {
    out.index < pre.values@.len() && pre.values@[out.index as int] is None
}

/// Do two values have the same primitive lane?
pub open spec fn same_variant(a: &Value, b: &Value) -> bool {
    match (a, b) {
        (Value::I32(_), Value::I32(_)) => true,
        (Value::I64(_), Value::I64(_)) => true,
        (Value::F32(_), Value::F32(_)) => true,
        (Value::F64(_), Value::F64(_)) => true,
        _ => false,
    }
}

/// A binary instruction can step: both operands resolve, their shapes
/// admit the operation, and the output slot is free.
pub open spec fn binop_steppable<H: HostNumerics>(
    op: FoldOp,
    output: ValueRef,
    left: ValueRef,
    right: ValueRef,
    pre: &Interpreter<H>,
) -> bool {
    &&& (value_lookup(pre, left) matches Some(lv) && (value_lookup(pre, right) matches Some(rv)
        && value_binop_ok(op, &lv, &rv)))
    &&& output_slot_free(pre, output)
}

/// A clamp can step: the three operands resolve, the minimum step is
/// admissible, and the lower bound broadcasts against its result.
pub open spec fn clamp_steppable<H: HostNumerics>(
    output: ValueRef,
    input: ValueRef,
    lower: ValueRef,
    upper: ValueRef,
    pre: &Interpreter<H>,
) -> bool {
    &&& (value_lookup(pre, input) matches Some(x) && (value_lookup(pre, upper) matches Some(hi) && (
    value_lookup(pre, lower) matches Some(lo) && value_binop_ok(FoldOp::Min, &x, &hi) && {
        &&& same_variant(&x, &lo)
        &&& lo.len_spec() > 0
        &&& broadcast_widths_ok(broadcast_width(x.len_spec(), hi.len_spec()), lo.len_spec())
    })))
    &&& output_slot_free(pre, output)
}

/// A unary instruction can step; negation and the conversions are total on
/// any resolved operand, trigonometry needs a floating-point one.
pub open spec fn unary_steppable<H: HostNumerics>(
    output: ValueRef,
    input: ValueRef,
    pre: &Interpreter<H>,
    needs_float: bool,
) -> bool {
    &&& (value_lookup(pre, input) matches Some(v) && (needs_float ==> (v matches Value::F32(_)
        || v matches Value::F64(_))))
    &&& output_slot_free(pre, output)
}

/// A state access can step: the state resolves in context and memory, the
/// index operand is an integral scalar, the declared sizes fit the
/// machine, and the stored value has the declared size.
pub open spec fn state_access_steppable<H: HostNumerics>(
    ctx: &Context,
    state: StateRef,
    index: ValueRef,
    pre: &Interpreter<H>,
) -> bool {
    &&& state.index < ctx.states@.len()
    &&& state.index < pre.state@.len()
    &&& (value_lookup(pre, index) matches Some(iv) && index_scalar_value(&iv) is Some)
    &&& ctx.states@[state.index as int].state_type.buffer_length_spec() <= i64::MAX
    &&& ctx.states@[state.index as int].state_type.vector_width_spec() <= usize::MAX
    &&& ctx.states@[state.index as int].state_type.vector_width_spec()
        * ctx.states@[state.index as int].state_type.buffer_length_spec() <= usize::MAX
    &&& pre.state@[state.index as int].len_spec()
        == ctx.states@[state.index as int].state_type.vector_width_spec()
        * ctx.states@[state.index as int].state_type.buffer_length_spec()
}

/// A state read can step.
pub open spec fn read_state_steppable<H: HostNumerics>(
    ctx: &Context,
    output: ValueRef,
    state: StateRef,
    index: ValueRef,
    pre: &Interpreter<H>,
) -> bool {
    &&& state_access_steppable(ctx, state, index, pre)
    &&& output_slot_free(pre, output)
}

/// A state write can step: additionally the written value resolves to one
/// frame of the state's lane and width.
pub open spec fn write_state_steppable<H: HostNumerics>(
    ctx: &Context,
    state: StateRef,
    input: ValueRef,
    index: ValueRef,
    pre: &Interpreter<H>,
) -> bool {
    &&& state_access_steppable(ctx, state, index, pre)
    &&& (value_lookup(pre, input) matches Some(data) && (state.index < pre.state@.len()
        && same_variant(&pre.state@[state.index as int], &data) && data.len_spec()
        == ctx.states@[state.index as int].state_type.vector_width_spec()))
}

/// An input read can step: the input exists, its frame fits the buffer at
/// the current offset, and the output slot is free.
pub open spec fn read_input_steppable<H: HostNumerics>(
    ctx: &Context,
    output: ValueRef,
    input_index: usize,
    pre: &Interpreter<H>,
) -> bool {
    &&& input_index < ctx.inputs@.len()
    &&& input_index < pre.inputs@.len()
    &&& ctx.inputs@[input_index as int].vector_width_spec() <= usize::MAX
    &&& pre.block_offset <= usize::MAX
    &&& pre.block_offset * ctx.inputs@[input_index as int].vector_width_spec()
        + ctx.inputs@[input_index as int].vector_width_spec()
        <= pre.inputs@[input_index as int]@.len()
    &&& output_slot_free(pre, output)
}

/// An output write can step: the output exists, the value resolves to a
/// single-precision frame, and the frame fits the buffer at the current
/// offset.
pub open spec fn write_output_steppable<H: HostNumerics>(
    output_index: usize,
    input: ValueRef,
    pre: &Interpreter<H>,
) -> bool {
    &&& output_index < pre.outputs@.len()
    &&& pre.block_offset <= usize::MAX
    &&& (value_lookup(pre, input) matches Some(v) && (v matches Value::F32(d) && pre.block_offset
        * d@.len() + d@.len() <= pre.outputs@[output_index as int]@.len()))
}

/// When executing one instruction is owed to succeed.
pub open spec fn inst_steppable<H: HostNumerics>(
    ctx: &Context,
    inst: Instruction,
    pre: &Interpreter<H>,
) -> bool {
    match inst {
        Instruction::Add { output, left, right } => binop_steppable(
            FoldOp::Add,
            output,
            left,
            right,
            pre,
        ),
        Instruction::Sub { output, left, right } => binop_steppable(
            FoldOp::Sub,
            output,
            left,
            right,
            pre,
        ),
        Instruction::Mul { output, left, right } => binop_steppable(
            FoldOp::Mul,
            output,
            left,
            right,
            pre,
        ),
        Instruction::Div { output, left, right } => binop_steppable(
            FoldOp::Div,
            output,
            left,
            right,
            pre,
        ),
        Instruction::Pow { output, base, exponent } => binop_steppable(
            FoldOp::Pow,
            output,
            base,
            exponent,
            pre,
        ),
        Instruction::ModPositive { output, input, divisor } => binop_steppable(
            FoldOp::Rem,
            output,
            input,
            divisor,
            pre,
        ),
        Instruction::Min { output, left, right } => binop_steppable(
            FoldOp::Min,
            output,
            left,
            right,
            pre,
        ),
        Instruction::Max { output, left, right } => binop_steppable(
            FoldOp::Max,
            output,
            left,
            right,
            pre,
        ),
        Instruction::Clamp { output, input, lower, upper } => clamp_steppable(
            output,
            input,
            lower,
            upper,
            pre,
        ),
        Instruction::Negate { output, input } => unary_steppable(output, input, pre, false),
        Instruction::FastSin { output, input } => unary_steppable(output, input, pre, true),
        Instruction::FastCos { output, input } => unary_steppable(output, input, pre, true),
        Instruction::FastTan { output, input } => unary_steppable(output, input, pre, true),
        Instruction::FastSinh { output, input } => unary_steppable(output, input, pre, true),
        Instruction::FastCosh { output, input } => unary_steppable(output, input, pre, true),
        Instruction::FastTanh { output, input } => unary_steppable(output, input, pre, true),
        Instruction::ToF32 { output, input } => unary_steppable(output, input, pre, false),
        Instruction::ToF64 { output, input } => unary_steppable(output, input, pre, false),
        Instruction::ReadState { output, state, index } => read_state_steppable(
            ctx,
            output,
            state,
            index,
            pre,
        ),
        Instruction::ReadStateRelative { output, state, index } => read_state_steppable(
            ctx,
            output,
            state,
            index,
            pre,
        ),
        Instruction::WriteState { state, input, index } => write_state_steppable(
            ctx,
            state,
            input,
            index,
            pre,
        ),
        Instruction::WriteStateRelative { state, input, index } => write_state_steppable(
            ctx,
            state,
            input,
            index,
            pre,
        ),
        Instruction::ReadTimeSamples { output } => output_slot_free(pre, output),
        Instruction::ReadTimeSeconds { output } => output_slot_free(pre, output),
        Instruction::ReadInput { output, input_index } => read_input_steppable(
            ctx,
            output,
            input_index,
            pre,
        ),
        Instruction::WriteOutput { input, output_index } => write_output_steppable(
            output_index,
            input,
            pre,
        ),
        Instruction::ReadProperty { output, property_index } => property_index
            < pre.properties@.len() && output_slot_free(pre, output),
    }
}

/// What executing one instruction does, by instruction kind.  Integer
/// lanes are exact; float elements are the host's.
pub open spec fn step_post<H: HostNumerics>(
    ctx: &Context,
    inst: Instruction,
    pre: &Interpreter<H>,
    post: &Interpreter<H>,
) -> bool {
    match inst {
        Instruction::Add { output, left, right } => binop_step(
            FoldOp::Add,
            output,
            left,
            right,
            pre,
            post,
        ),
        Instruction::Sub { output, left, right } => binop_step(
            FoldOp::Sub,
            output,
            left,
            right,
            pre,
            post,
        ),
        Instruction::Mul { output, left, right } => binop_step(
            FoldOp::Mul,
            output,
            left,
            right,
            pre,
            post,
        ),
        Instruction::Div { output, left, right } => binop_step(
            FoldOp::Div,
            output,
            left,
            right,
            pre,
            post,
        ),
        Instruction::Pow { output, base, exponent } => binop_step(
            FoldOp::Pow,
            output,
            base,
            exponent,
            pre,
            post,
        ),
        Instruction::ModPositive { output, input, divisor } => binop_step(
            FoldOp::Rem,
            output,
            input,
            divisor,
            pre,
            post,
        ),
        Instruction::Min { output, left, right } => binop_step(
            FoldOp::Min,
            output,
            left,
            right,
            pre,
            post,
        ),
        Instruction::Max { output, left, right } => binop_step(
            FoldOp::Max,
            output,
            left,
            right,
            pre,
            post,
        ),
        Instruction::Clamp { output, input, lower, upper } => clamp_step(
            output,
            input,
            lower,
            upper,
            pre,
            post,
        ),
        Instruction::Negate { output, input } => negate_step(output, input, pre, post),
        Instruction::FastSin { output, input } => trig_step(output, input, pre, post),
        Instruction::FastCos { output, input } => trig_step(output, input, pre, post),
        Instruction::FastTan { output, input } => trig_step(output, input, pre, post),
        Instruction::FastSinh { output, input } => trig_step(output, input, pre, post),
        Instruction::FastCosh { output, input } => trig_step(output, input, pre, post),
        Instruction::FastTanh { output, input } => trig_step(output, input, pre, post),
        Instruction::ToF32 { output, input } => to_f32_step(output, input, pre, post),
        Instruction::ToF64 { output, input } => to_f64_step(output, input, pre, post),
        Instruction::ReadState { output, state, index } => read_state_step(
            ctx,
            false,
            output,
            state,
            index,
            pre,
            post,
        ),
        Instruction::ReadStateRelative { output, state, index } => read_state_step(
            ctx,
            true,
            output,
            state,
            index,
            pre,
            post,
        ),
        Instruction::WriteState { state, input, index } => write_state_step(
            ctx,
            false,
            state,
            input,
            index,
            pre,
            post,
        ),
        Instruction::WriteStateRelative { state, input, index } => write_state_step(
            ctx,
            true,
            state,
            input,
            index,
            pre,
            post,
        ),
        Instruction::ReadTimeSamples { output } => time_samples_step(ctx, output, pre, post),
        Instruction::ReadTimeSeconds { output } => time_seconds_step(output, pre, post),
        Instruction::ReadInput { output, input_index } => read_input_step(
            ctx,
            output,
            input_index,
            pre,
            post,
        ),
        Instruction::WriteOutput { input, output_index } => write_output_step(
            input,
            output_index,
            pre,
            post,
        ),
        Instruction::ReadProperty { output, property_index } => read_property_step(
            output,
            property_index,
            pre,
            post,
        ),
    }
}

/// `tr` is a valid execution trace of the first `p` scheduled
/// instructions, from `pre` to `cur`.
pub open spec fn schedule_trace_ok<H: HostNumerics>(
    ctx: &Context,
    pre: Interpreter<H>,
    cur: Interpreter<H>,
    p: int,
    tr: Seq<Interpreter<H>>,
) -> bool {
    &&& tr.len() == p + 1
    &&& 0 <= p
    &&& tr[0] == pre
    &&& tr[p] == cur
    &&& forall|k: int| 0 <= k < p ==> (#[trigger] ctx.program@[k]).index < ctx.instructions@.len()
    &&& forall|k: int|
        0 <= k < p ==> #[trigger] step_post(
            ctx,
            ctx.instructions@[ctx.program@[k].index as int],
            &tr[k],
            &tr[k + 1],
        )
}

/// One recorded step of a valid trace.
proof fn lemma_trace_step<H: HostNumerics>(
    ctx: &Context,
    pre: Interpreter<H>,
    cur: Interpreter<H>,
    p: int,
    tr: Seq<Interpreter<H>>,
    k: int,
)
    requires
        schedule_trace_ok(ctx, pre, cur, p, tr),
        0 <= k < p,
    ensures
        ctx.program@[k].index < ctx.instructions@.len(),
        step_post(ctx, ctx.instructions@[ctx.program@[k].index as int], &tr[k], &tr[k + 1]),
{
}

/// Extending a valid trace by one executed instruction.
proof fn lemma_trace_extend<H: HostNumerics>(
    ctx: &Context,
    pre: Interpreter<H>,
    mid: Interpreter<H>,
    cur: Interpreter<H>,
    p: int,
    tr: Seq<Interpreter<H>>,
)
    requires
        schedule_trace_ok(ctx, pre, mid, p, tr),
        ctx.program@[p].index < ctx.instructions@.len(),
        step_post(ctx, ctx.instructions@[ctx.program@[p].index as int], &mid, &cur),
    ensures
        schedule_trace_ok(ctx, pre, cur, p + 1, tr.push(cur)),
{
    let tr2 = tr.push(cur);
    assert(tr2.len() == p + 2);
    assert(tr2[0] == pre);
    assert(tr2[p + 1] == cur);
    assert forall|k: int|
        0 <= k < p + 1 implies (#[trigger] ctx.program@[k]).index < ctx.instructions@.len() by {
        if k < p {
            lemma_trace_step(ctx, pre, mid, p, tr, k);
        }
    }
    assert forall|k: int|
        0 <= k < p + 1 implies #[trigger] step_post(
        ctx,
        ctx.instructions@[ctx.program@[k].index as int],
        &tr2[k],
        &tr2[k + 1],
    ) by {
        if k < p {
            lemma_trace_step(ctx, pre, mid, p, tr, k);
            assert(tr2[k] == tr[k]);
            assert(tr2[k + 1] == tr[k + 1]);
        } else {
            assert(tr2[k] == mid);
            assert(tr2[k + 1] == cur);
        }
    }
    assert(schedule_trace_ok(ctx, pre, cur, p + 1, tr2));
}

/// The first `p` scheduled instructions were executed in order: a trace of
/// interpreter states runs from `pre` to `cur`, each step satisfying
/// [`step_post`] for its scheduled instruction.
pub open spec fn schedule_prefix_executed<H: HostNumerics>(
    ctx: &Context,
    pre: Interpreter<H>,
    cur: Interpreter<H>,
    p: int,
) -> bool {
    exists|tr: Seq<Interpreter<H>>| #[trigger] schedule_trace_ok(ctx, pre, cur, p, tr)
}

/// One sample was processed: the block offset set, every scheduled
/// instruction executed in order, and the transient values cleared.
pub open spec fn sample_executed<H: HostNumerics>(
    ctx: &Context,
    pre: Interpreter<H>,
    post: Interpreter<H>,
    offset: u64,
) -> bool {
    exists|finished: Interpreter<H>|
        {
            &&& #[trigger] schedule_prefix_executed(
                ctx,
                Interpreter { block_offset: offset, ..pre },
                finished,
                ctx.program@.len() as int,
            )
            &&& post.values@.len() == finished.values@.len()
            &&& (forall|j: int| 0 <= j < post.values@.len() ==> (#[trigger] post.values@[j]) is None)
            &&& post == Interpreter { values: post.values, ..finished }
        }
}

/// `tr` is a valid per-sample trace of the first `n` samples of a block.
pub open spec fn block_trace_ok<H: HostNumerics>(
    ctx: &Context,
    pre: Interpreter<H>,
    post: Interpreter<H>,
    n: int,
    tr: Seq<Interpreter<H>>,
) -> bool {
    &&& tr.len() == n + 1
    &&& 0 <= n
    &&& tr[0] == pre
    &&& tr[n] == post
    &&& forall|k: int| 0 <= k < n ==> #[trigger] sample_executed(ctx, tr[k], tr[k + 1], k as u64)
}

/// The first `n` samples of a block were processed in order.
pub open spec fn block_samples_executed<H: HostNumerics>(
    ctx: &Context,
    pre: Interpreter<H>,
    post: Interpreter<H>,
    n: int,
) -> bool {
    exists|tr: Seq<Interpreter<H>>| #[trigger] block_trace_ok(ctx, pre, post, n, tr)
}

impl<H: HostNumerics> Interpreter<H> {
    /// Look a value up, preferring the pre-resolved constant table.
    pub fn get_value_for_ref(&self, vref: ValueRef) -> (r: Result<&Value, RuntimeError>)
        ensures
            match value_lookup(self, vref) {
                Some(v) => r matches Ok(x) && *x == v,
                None => r == Err::<&Value, _>(RuntimeError::MissingValue),
            },
    {
        if vref.index < self.constant_values.len() {
            match &self.constant_values[vref.index] {
                Some(v) => {
                    return Ok(v);
                },
                None => {},
            }
        }
        if vref.index < self.values.len() {
            match &self.values[vref.index] {
                Some(v) => {
                    return Ok(v);
                },
                None => {},
            }
        }
        Err(RuntimeError::MissingValue)
    }

    /// Record an instruction's output; setting a slot twice in one sample
    /// is an error.
    pub fn set_value(&mut self, vref: ValueRef, value: Value) -> (r: Result<(), RuntimeError>)
        ensures
            vref.index >= old(self).values@.len() ==> r == Err::<(), _>(
                RuntimeError::UnresolvedValue,
            ) && *final(self) == *old(self),
            vref.index < old(self).values@.len() && old(self).values@[vref.index as int] is Some
                ==> r == Err::<(), _>(RuntimeError::DoubleSetValue) && *final(self) == *old(self),
            vref.index < old(self).values@.len() && old(self).values@[vref.index as int] is None
                ==> r is Ok && final(self).values@ == old(self).values@.update(
                vref.index as int,
                Some(value),
            ) && *final(self) == (Interpreter { values: final(self).values, ..*old(self) }),
    {
        if vref.index >= self.values.len() {
            return Err(RuntimeError::UnresolvedValue);
        }
        let occupied = self.values[vref.index].is_some();
        if occupied {
            return Err(RuntimeError::DoubleSetValue);
        }
        self.values[vref.index] = Some(value);
        Ok(())
    }

    /// One element-wise binary operation on two operand values.
    fn compute_binop(&self, op: FoldOp, l: &Value, r: &Value) -> (res: Result<Value, RuntimeError>)
        ensures
            value_binop_ok(op, l, r) ==> (res matches Ok(out) && is_value_binop(op, l, r, &out)),
            !value_binop_ok(op, l, r) ==> res is Err,
    {
        if l.len() == 0 || r.len() == 0 {
            return Err(RuntimeError::WidthMismatch);
        }
        let wl = l.len();
        let wr = r.len();
        if wl != wr && wl != 1 && wr != 1 {
            return Err(RuntimeError::WidthMismatch);
        }
        match (l, r) {
            (Value::I32(a), Value::I32(b)) => {
                if matches!(op, FoldOp::Pow) {
                    return Err(RuntimeError::UnsupportedType);
                }
                if matches!(op, FoldOp::Div | FoldOp::Rem) && !div_ok_i32(a, b) {
                    return Err(RuntimeError::DivisionByZero);
                }
                Ok(Value::I32(broadcast_i32(op, a, b)))
            },
            (Value::I64(a), Value::I64(b)) => {
                if matches!(op, FoldOp::Pow) {
                    return Err(RuntimeError::UnsupportedType);
                }
                if matches!(op, FoldOp::Div | FoldOp::Rem) && !div_ok_i64(a, b) {
                    return Err(RuntimeError::DivisionByZero);
                }
                Ok(Value::I64(broadcast_i64(op, a, b)))
            },
            (Value::F32(a), Value::F32(b)) => Ok(Value::F32(broadcast_s(&self.host, op, a, b))),
            (Value::F64(a), Value::F64(b)) => Ok(Value::F64(broadcast_d(&self.host, op, a, b))),
            _ => Err(RuntimeError::TypeMismatch),
        }
    }

    /// Negation: integer lanes wrap, float lanes flip the sign bit (exact
    /// IEEE 754 negation).
    fn compute_negate(&self, v: &Value) -> (res: Value)
        ensures
            match (v, &res) {
                (Value::I32(a), Value::I32(c)) => c@.len() == a@.len() && (forall|k: int|
                    0 <= k < a@.len() ==> c@[k] == (0i32).wrapping_sub(a@[k])),
                (Value::I64(a), Value::I64(c)) => c@.len() == a@.len() && (forall|k: int|
                    0 <= k < a@.len() ==> c@[k] == (0i64).wrapping_sub(a@[k])),
                (Value::F32(a), Value::F32(c)) => c@.len() == a@.len() && (forall|k: int|
                    0 <= k < a@.len() ==> c@[k] == (a@[k] ^ 0x8000_0000u32)),
                (Value::F64(a), Value::F64(c)) => c@.len() == a@.len() && (forall|k: int|
                    0 <= k < a@.len() ==> c@[k] == (a@[k] ^ 0x8000_0000_0000_0000u64)),
                _ => false,
            },
    {
        match v {
            Value::I32(a) => {
                let mut out: Vec<i32> = Vec::new();
                let mut k: usize = 0;
                while k < a.len()
                    invariant
                        k <= a@.len(),
                        out@.len() == k,
                        forall|j: int| 0 <= j < k ==> out@[j] == (0i32).wrapping_sub(a@[j]),
                    decreases a@.len() - k,
                {
                    out.push((0i32).wrapping_sub(a[k]));
                    k += 1;
                }
                Value::I32(out)
            },
            Value::I64(a) => {
                let mut out: Vec<i64> = Vec::new();
                let mut k: usize = 0;
                while k < a.len()
                    invariant
                        k <= a@.len(),
                        out@.len() == k,
                        forall|j: int| 0 <= j < k ==> out@[j] == (0i64).wrapping_sub(a@[j]),
                    decreases a@.len() - k,
                {
                    out.push((0i64).wrapping_sub(a[k]));
                    k += 1;
                }
                Value::I64(out)
            },
            Value::F32(a) => {
                let mut out: Vec<u32> = Vec::new();
                let mut k: usize = 0;
                while k < a.len()
                    invariant
                        k <= a@.len(),
                        out@.len() == k,
                        forall|j: int| 0 <= j < k ==> out@[j] == (a@[j] ^ 0x8000_0000u32),
                    decreases a@.len() - k,
                {
                    out.push(a[k] ^ 0x8000_0000u32);
                    k += 1;
                }
                Value::F32(out)
            },
            Value::F64(a) => {
                let mut out: Vec<u64> = Vec::new();
                let mut k: usize = 0;
                while k < a.len()
                    invariant
                        k <= a@.len(),
                        out@.len() == k,
                        forall|j: int|
                            0 <= j < k ==> out@[j] == (a@[j] ^ 0x8000_0000_0000_0000u64),
                    decreases a@.len() - k,
                {
                    out.push(a[k] ^ 0x8000_0000_0000_0000u64);
                    k += 1;
                }
                Value::F64(out)
            },
        }
    }

    /// One trigonometric function, element by element through the host.
    fn compute_trig(&self, f: TrigFn, v: &Value) -> (res: Result<Value, RuntimeError>)
        ensures
            res matches Ok(out) ==> is_trig_result(v, &out),
            (v matches Value::I32(_) || v matches Value::I64(_)) <==> res is Err,
    {
        match v {
            Value::F32(a) => {
                let mut out: Vec<u32> = Vec::new();
                let mut k: usize = 0;
                while k < a.len()
                    invariant
                        k <= a@.len(),
                        out@.len() == k,
                    decreases a@.len() - k,
                {
                    let x = a[k];
                    let y = match f {
                        TrigFn::Sin => self.host.s_sin(x),
                        TrigFn::Cos => self.host.s_cos(x),
                        TrigFn::Tan => self.host.s_tan(x),
                        TrigFn::Sinh => self.host.s_sinh(x),
                        TrigFn::Cosh => self.host.s_cosh(x),
                        TrigFn::Tanh => self.host.s_tanh(x),
                    };
                    out.push(y);
                    k += 1;
                }
                Ok(Value::F32(out))
            },
            Value::F64(a) => {
                let mut out: Vec<u64> = Vec::new();
                let mut k: usize = 0;
                while k < a.len()
                    invariant
                        k <= a@.len(),
                        out@.len() == k,
                    decreases a@.len() - k,
                {
                    let x = a[k];
                    let y = match f {
                        TrigFn::Sin => self.host.d_sin(x),
                        TrigFn::Cos => self.host.d_cos(x),
                        TrigFn::Tan => self.host.d_tan(x),
                        TrigFn::Sinh => self.host.d_sinh(x),
                        TrigFn::Cosh => self.host.d_cosh(x),
                        TrigFn::Tanh => self.host.d_tanh(x),
                    };
                    out.push(y);
                    k += 1;
                }
                Ok(Value::F64(out))
            },
            _ => Err(RuntimeError::UnsupportedType),
        }
    }

    /// Convert a value to single precision through the host's casts.
    fn convert_to_f32(&self, v: &Value) -> (res: Value)
        ensures
            is_to_f32(v, &res),
    {
        let mut out: Vec<u32> = Vec::new();
        match v {
            Value::I32(a) => {
                let mut k: usize = 0;
                while k < a.len()
                    invariant
                        k <= a@.len(),
                        out@.len() == k,
                    decreases a@.len() - k,
                {
                    out.push(self.host.i32_to_s(a[k]));
                    k += 1;
                }
            },
            Value::I64(a) => {
                let mut k: usize = 0;
                while k < a.len()
                    invariant
                        k <= a@.len(),
                        out@.len() == k,
                    decreases a@.len() - k,
                {
                    out.push(self.host.i64_to_s(a[k]));
                    k += 1;
                }
            },
            Value::F32(a) => {
                let mut k: usize = 0;
                while k < a.len()
                    invariant
                        k <= a@.len(),
                        out@.len() == k,
                        forall|j: int| 0 <= j < k ==> out@[j] == a@[j],
                    decreases a@.len() - k,
                {
                    out.push(a[k]);
                    k += 1;
                }
                proof {
                    assert(out@ =~= a@);
                }
            },
            Value::F64(a) => {
                let mut k: usize = 0;
                while k < a.len()
                    invariant
                        k <= a@.len(),
                        out@.len() == k,
                    decreases a@.len() - k,
                {
                    out.push(self.host.d_to_s(a[k]));
                    k += 1;
                }
            },
        }
        Value::F32(out)
    }

    /// Convert a value to double precision through the host's casts.
    fn convert_to_f64(&self, v: &Value) -> (res: Value)
        ensures
            is_to_f64(v, &res),
    {
        let mut out: Vec<u64> = Vec::new();
        match v {
            Value::I32(a) => {
                let mut k: usize = 0;
                while k < a.len()
                    invariant
                        k <= a@.len(),
                        out@.len() == k,
                    decreases a@.len() - k,
                {
                    out.push(self.host.i32_to_d(a[k]));
                    k += 1;
                }
            },
            Value::I64(a) => {
                let mut k: usize = 0;
                while k < a.len()
                    invariant
                        k <= a@.len(),
                        out@.len() == k,
                    decreases a@.len() - k,
                {
                    out.push(self.host.i64_to_d(a[k]));
                    k += 1;
                }
            },
            Value::F32(a) => {
                let mut k: usize = 0;
                while k < a.len()
                    invariant
                        k <= a@.len(),
                        out@.len() == k,
                    decreases a@.len() - k,
                {
                    out.push(self.host.s_to_d(a[k]));
                    k += 1;
                }
            },
            Value::F64(a) => {
                let mut k: usize = 0;
                while k < a.len()
                    invariant
                        k <= a@.len(),
                        out@.len() == k,
                        forall|j: int| 0 <= j < k ==> out@[j] == a@[j],
                    decreases a@.len() - k,
                {
                    out.push(a[k]);
                    k += 1;
                }
                proof {
                    assert(out@ =~= a@);
                }
            },
        }
        Value::F64(out)
    }

    /// The current sample index, `block_counter x block_size +
    /// block_offset` (wrapping).
    pub fn get_time_in_samples(&self, ctx: &Context) -> (r: u64)
        ensures
            r == self.block_counter.wrapping_mul(ctx.block_size as u64).wrapping_add(
                self.block_offset,
            ),
    {
        self.block_counter.wrapping_mul(ctx.block_size as u64).wrapping_add(self.block_offset)
    }

    /// Fetch a state index operand: an integral scalar, as an `i64`.
    fn fetch_index(&self, index: ValueRef) -> (r: Result<i64, RuntimeError>)
        ensures
            match value_lookup(self, index) {
                Some(v) => match v {
                    Value::I32(a) => (a@.len() == 1 ==> r == Ok::<i64, RuntimeError>(
                        a@[0] as i64,
                    )) && (a@.len() != 1 ==> r == Err::<i64, _>(RuntimeError::NonScalarStateIndex)),
                    Value::I64(a) => (a@.len() == 1 ==> r == Ok::<i64, RuntimeError>(a@[0])) && (
                    a@.len() != 1 ==> r == Err::<i64, _>(RuntimeError::NonScalarStateIndex)),
                    _ => r == Err::<i64, _>(RuntimeError::NonIntegralStateIndex),
                },
                None => r == Err::<i64, _>(RuntimeError::MissingValue),
            },
    {
        let v = self.get_value_for_ref(index)?;
        match v {
            Value::I32(a) => {
                if a.len() != 1 {
                    Err(RuntimeError::NonScalarStateIndex)
                } else {
                    Ok(a[0] as i64)
                }
            },
            Value::I64(a) => {
                if a.len() != 1 {
                    Err(RuntimeError::NonScalarStateIndex)
                } else {
                    Ok(a[0])
                }
            },
            _ => Err(RuntimeError::NonIntegralStateIndex),
        }
    }
}

/// The conditions under which an interpreter can be built for a context:
/// single-precision inputs and outputs, double-precision properties,
/// non-boolean states, no dangling constant reference, no boolean constant
/// value, and no declared size beyond the machine.
/// The value pre-resolved for a constant: the declared primitive's variant,
/// one element per constant lane, and an exact copy when the primitives
/// already agree.
pub open spec fn constant_converted_ok(c: &Constant, target: Primitive, v: &Value) -> bool {
    &&& v.len_spec() == c.width_spec()
    &&& (match target {
        Primitive::I32 => v is I32,
        Primitive::I64 => v is I64,
        Primitive::F32 => v is F32,
        Primitive::F64 => v is F64,
        Primitive::Bool => false,
    })
    &&& (c matches Constant::I32(a) ==> (target == Primitive::I32 ==> (v matches Value::I32(b)
        && b@ == a@)))
    &&& (c matches Constant::I64(a) ==> (target == Primitive::I64 ==> (v matches Value::I64(b)
        && b@ == a@)))
    &&& (c matches Constant::F32(a) ==> (target == Primitive::F32 ==> (v matches Value::F32(b)
        && b@ == a@)))
    &&& (c matches Constant::F64(a) ==> (target == Primitive::F64 ==> (v matches Value::F64(b)
        && b@ == a@)))
}

pub open spec fn interpreter_buildable(ctx: &Context) -> bool {
    &&& forall|k: int|
        0 <= k < ctx.inputs@.len() ==> (#[trigger] ctx.inputs@[k]).primitive_spec()
            == Primitive::F32 && ctx.inputs@[k].vector_width_spec() * ctx.block_size <= usize::MAX
    &&& forall|k: int|
        0 <= k < ctx.outputs@.len() ==> (#[trigger] ctx.outputs@[k]).primitive_spec()
            == Primitive::F32 && ctx.outputs@[k].vector_width_spec() * ctx.block_size
            <= usize::MAX
    &&& forall|k: int|
        0 <= k < ctx.properties@.len() ==> (#[trigger] ctx.properties@[k]).primitive_spec()
            == Primitive::F64
    &&& forall|k: int|
        0 <= k < ctx.states@.len() ==> (#[trigger] ctx.states@[k]).state_type.primitive_spec()
            != Primitive::Bool && ctx.states@[k].state_type.vector_width_spec()
            * ctx.states@[k].state_type.buffer_length_spec() <= usize::MAX
    &&& forall|k: int|
        0 <= k < ctx.values@.len() ==> ((#[trigger] ctx.values@[k]).kind
            matches ValueKind::Constant(c) ==> c.index < ctx.constants@.len() && !(
        ctx.constants@[c.index as int] matches Constant::Bool(_))
            && ctx.values@[k].value_type.primitive_spec() != Primitive::Bool)
}

impl<H: HostNumerics> Interpreter<H> {
    /// Build an interpreter for a context: allocate zeroed host buffers
    /// (inputs and outputs must be f32, properties f64), zero every state,
    /// and pre-resolve every constant value, narrowing it to its declared
    /// primitive with the host's casts.
    pub fn new(ctx: &Context, host: H) -> (r: Result<Interpreter<H>, RuntimeError>)
        ensures
            r matches Ok(it) ==> {
                &&& it.inputs@.len() == ctx.inputs@.len()
                &&& it.outputs@.len() == ctx.outputs@.len()
                &&& it.properties@.len() == ctx.properties@.len()
                &&& forall|k: int|
                    0 <= k < it.inputs@.len() ==> (#[trigger] it.inputs@[k])@.len()
                        == ctx.inputs@[k].vector_width_spec() * ctx.block_size
                &&& forall|k: int|
                    0 <= k < it.outputs@.len() ==> (#[trigger] it.outputs@[k])@.len()
                        == ctx.outputs@[k].vector_width_spec() * ctx.block_size
                &&& forall|k: int| 0 <= k < it.properties@.len() ==> it.properties@[k] == 0u64
                &&& it.state@.len() == ctx.states@.len()
                &&& forall|k: int|
                    0 <= k < it.state@.len() ==> (#[trigger] it.state@[k]).len_spec()
                        == ctx.states@[k].state_type.vector_width_spec()
                        * ctx.states@[k].state_type.buffer_length_spec() && is_zero_value(
                        &it.state@[k],
                        ctx.states@[k].state_type.primitive_spec(),
                    )
                &&& it.values@.len() == ctx.values@.len()
                &&& forall|k: int| 0 <= k < it.values@.len() ==> (#[trigger] it.values@[k]) is None
                &&& it.constant_values@.len() == ctx.values@.len()
                &&& forall|k: int|
                    0 <= k < it.constant_values@.len() ==> (match (
                    #[trigger] ctx.values@[k]).kind {
                        ValueKind::Computed => it.constant_values@[k] is None,
                        ValueKind::Constant(cref) => cref.index < ctx.constants@.len() && (
                        it.constant_values@[k] matches Some(v) && constant_converted_ok(
                            &ctx.constants@[cref.index as int],
                            ctx.values@[k].value_type.primitive_spec(),
                            &v,
                        )),
                    })
                &&& it.block_offset == 0
                &&& it.block_counter == 0
            },
            interpreter_buildable(ctx) ==> r is Ok,
    {
        let mut inputs: Vec<Vec<u32>> = Vec::new();
        let mut k: usize = 0;
        while k < ctx.inputs.len()
            invariant
                k <= ctx.inputs@.len(),
                inputs@.len() == k,
                forall|j: int|
                    0 <= j < k ==> (#[trigger] inputs@[j])@.len()
                        == ctx.inputs@[j].vector_width_spec() * ctx.block_size,
            decreases ctx.inputs@.len() - k,
        {
            let ty = &ctx.inputs[k];
            if !matches!(ty.get_primitive(), Primitive::F32) {
                return Err(RuntimeError::UnsupportedType);
            }
            let w = ty.get_vector_width();
            let total64 = match w.checked_mul(ctx.block_size as u64) {
                Some(t) => t,
                None => {
                    return Err(RuntimeError::SizeOverflow);
                },
            };
            if total64 > usize::MAX as u64 {
                return Err(RuntimeError::SizeOverflow);
            }
            let total = total64 as usize;
            let mut buf: Vec<u32> = Vec::new();
            let mut q: usize = 0;
            while q < total
                invariant
                    q <= total,
                    buf@.len() == q,
                decreases total - q,
            {
                buf.push(0u32);
                q += 1;
            }
            inputs.push(buf);
            k += 1;
        }
        let mut outputs: Vec<Vec<u32>> = Vec::new();
        let mut k: usize = 0;
        while k < ctx.outputs.len()
            invariant
                k <= ctx.outputs@.len(),
                outputs@.len() == k,
                forall|j: int|
                    0 <= j < k ==> (#[trigger] outputs@[j])@.len()
                        == ctx.outputs@[j].vector_width_spec() * ctx.block_size,
            decreases ctx.outputs@.len() - k,
        {
            let ty = &ctx.outputs[k];
            if !matches!(ty.get_primitive(), Primitive::F32) {
                return Err(RuntimeError::UnsupportedType);
            }
            let w = ty.get_vector_width();
            let total64 = match w.checked_mul(ctx.block_size as u64) {
                Some(t) => t,
                None => {
                    return Err(RuntimeError::SizeOverflow);
                },
            };
            if total64 > usize::MAX as u64 {
                return Err(RuntimeError::SizeOverflow);
            }
            let total = total64 as usize;
            let mut buf: Vec<u32> = Vec::new();
            let mut q: usize = 0;
            while q < total
                invariant
                    q <= total,
                    buf@.len() == q,
                decreases total - q,
            {
                buf.push(0u32);
                q += 1;
            }
            outputs.push(buf);
            k += 1;
        }
        let mut properties: Vec<u64> = Vec::new();
        let mut k: usize = 0;
        while k < ctx.properties.len()
            invariant
                k <= ctx.properties@.len(),
                properties@.len() == k,
                forall|j: int| 0 <= j < k ==> properties@[j] == 0u64,
            decreases ctx.properties@.len() - k,
        {
            let ty = &ctx.properties[k];
            if !matches!(ty.get_primitive(), Primitive::F64) {
                return Err(RuntimeError::UnsupportedType);
            }
            properties.push(0u64);
            k += 1;
        }
        let mut state: Vec<Value> = Vec::new();
        let mut k: usize = 0;
        while k < ctx.states.len()
            invariant
                k <= ctx.states@.len(),
                state@.len() == k,
                forall|j: int|
                    0 <= j < k ==> (#[trigger] state@[j]).len_spec()
                        == ctx.states@[j].state_type.vector_width_spec()
                        * ctx.states@[j].state_type.buffer_length_spec() && is_zero_value(
                        &state@[j],
                        ctx.states@[j].state_type.primitive_spec(),
                    ),
            decreases ctx.states@.len() - k,
        {
            let v = Value::new_zero_from_ty(&ctx.states[k].state_type)?;
            state.push(v);
            k += 1;
        }
        // pre-resolve every constant value, narrowed to its declared
        // primitive.
        let mut constant_values: Vec<Option<Value>> = Vec::new();
        let mut values: Vec<Option<Value>> = Vec::new();
        let mut k: usize = 0;
        while k < ctx.values.len()
            invariant
                k <= ctx.values@.len(),
                constant_values@.len() == k,
                values@.len() == k,
                forall|j: int| 0 <= j < k ==> (#[trigger] values@[j]) is None,
                forall|j: int|
                    0 <= j < k ==> (match (#[trigger] ctx.values@[j]).kind {
                        ValueKind::Computed => constant_values@[j] is None,
                        ValueKind::Constant(cref) => cref.index < ctx.constants@.len() && (
                        constant_values@[j] matches Some(v) && constant_converted_ok(
                            &ctx.constants@[cref.index as int],
                            ctx.values@[j].value_type.primitive_spec(),
                            &v,
                        )),
                    }),
            decreases ctx.values@.len() - k,
        {
            values.push(None);
            let vd = &ctx.values[k];
            match vd.kind {
                ValueKind::Computed => {
                    constant_values.push(None);
                },
                ValueKind::Constant(cref) => {
                    if cref.index >= ctx.constants.len() {
                        return Err(RuntimeError::UnresolvedValue);
                    }
                    let c = &ctx.constants[cref.index];
                    let converted = convert_constant(&host, c, vd.value_type.get_primitive())?;
                    constant_values.push(Some(converted));
                },
            }
            k += 1;
        }
        Ok(
            Interpreter {
                host,
                inputs,
                outputs,
                properties,
                values,
                constant_values,
                state,
                block_offset: 0,
                block_counter: 0,
            },
        )
    }

    /// Fill input buffer `index`; `data` must hold exactly
    /// `width x block_size` single-precision bit patterns.
    pub fn write_input(&mut self, index: usize, data: &Vec<u32>) -> (r: Result<(), RuntimeError>)
        ensures
            index >= old(self).inputs@.len() ==> r == Err::<(), _>(RuntimeError::IndexOutOfRange)
                && *final(self) == *old(self),
            index < old(self).inputs@.len() && data@.len() != old(self).inputs@[index as int]@.len()
                ==> r == Err::<(), _>(RuntimeError::BufferSizeMismatch) && *final(self) == *old(self),
            index < old(self).inputs@.len() && data@.len() == old(self).inputs@[index as int]@.len()
                ==> r is Ok && final(self).inputs@.len() == old(self).inputs@.len() && final(self).inputs@[index as int]@ == data@ && (forall|k: int|
                0 <= k < old(self).inputs@.len() && k != index ==> #[trigger] final(self).inputs@[k] == old(self).inputs@[k]) && *final(self) == (Interpreter {
                inputs: final(self).inputs,
                ..*old(self)
            }),
    {
        if index >= self.inputs.len() {
            return Err(RuntimeError::IndexOutOfRange);
        }
        if self.inputs[index].len() != data.len() {
            return Err(RuntimeError::BufferSizeMismatch);
        }
        let copy = read_segment(data, 0, data.len());
        proof {
            assert(copy@ =~= data@);
        }
        self.inputs[index] = copy;
        Ok(())
    }

    /// Read output buffer `index`.
    pub fn read_output(&self, index: usize) -> (r: Result<Vec<u32>, RuntimeError>)
        ensures
            index < self.outputs@.len() ==> (r matches Ok(v) && v@ == self.outputs@[index as int]@),
            index >= self.outputs@.len() ==> r == Err::<Vec<u32>, _>(RuntimeError::IndexOutOfRange),
    {
        if index >= self.outputs.len() {
            return Err(RuntimeError::IndexOutOfRange);
        }
        let v = read_segment(&self.outputs[index], 0, self.outputs[index].len());
        proof {
            assert(v@ =~= self.outputs@[index as int]@);
        }
        Ok(v)
    }

    /// Set property `index` to a double-precision bit pattern.
    pub fn set_property(&mut self, index: usize, bits: u64) -> (r: Result<(), RuntimeError>)
        ensures
            index >= old(self).properties@.len() ==> r == Err::<(), _>(
                RuntimeError::IndexOutOfRange,
            ) && *final(self) == *old(self),
            index < old(self).properties@.len() ==> r is Ok && final(self).properties@ == old(
                self,
            ).properties@.update(index as int, bits) && *final(self) == (Interpreter {
                properties: final(self).properties,
                ..*old(self)
            }),
    {
        if index >= self.properties.len() {
            return Err(RuntimeError::IndexOutOfRange);
        }
        self.properties[index] = bits;
        Ok(())
    }

    /// Execute one instruction at the current sample position.
    fn exec_one_instruction(&mut self, ctx: &Context, inst: &Instruction) -> (r: Result<
        (),
        RuntimeError,
    >)
        ensures
            r is Ok ==> step_post(ctx, *inst, old(self), final(self)),
            r is Err ==> *final(self) == *old(self),
            inst_steppable(ctx, *inst, old(self)) ==> r is Ok,
    {
        match inst {
            Instruction::Add { output, left, right } => {
                self.exec_binop(FoldOp::Add, *output, *left, *right)
            },
            Instruction::Sub { output, left, right } => {
                self.exec_binop(FoldOp::Sub, *output, *left, *right)
            },
            Instruction::Mul { output, left, right } => {
                self.exec_binop(FoldOp::Mul, *output, *left, *right)
            },
            Instruction::Div { output, left, right } => {
                self.exec_binop(FoldOp::Div, *output, *left, *right)
            },
            Instruction::ModPositive { output, input, divisor } => {
                self.exec_binop(FoldOp::Rem, *output, *input, *divisor)
            },
            Instruction::Min { output, left, right } => {
                self.exec_binop(FoldOp::Min, *output, *left, *right)
            },
            Instruction::Max { output, left, right } => {
                self.exec_binop(FoldOp::Max, *output, *left, *right)
            },
            Instruction::Pow { output, base, exponent } => {
                self.exec_binop(FoldOp::Pow, *output, *base, *exponent)
            },
            Instruction::Clamp { output, input, lower, upper } => {
                let ghost m_ghost: Value;
                let clamped = {
                    let x = self.get_value_for_ref(*input)?;
                    let lo = self.get_value_for_ref(*lower)?;
                    let hi = self.get_value_for_ref(*upper)?;
                    let m = self.compute_binop(FoldOp::Min, x, hi)?;
                    proof {
                        m_ghost = m;
                    }
                    self.compute_binop(FoldOp::Max, &m, lo)?
                };
                let ghost out_ghost = clamped;
                self.set_value(*output, clamped)?;
                proof {
                    assert(is_value_binop(
                        FoldOp::Min,
                        &value_lookup(old(self), *input).unwrap(),
                        &value_lookup(old(self), *upper).unwrap(),
                        &m_ghost,
                    ));
                    assert(is_value_binop(
                        FoldOp::Max,
                        &m_ghost,
                        &value_lookup(old(self), *lower).unwrap(),
                        &out_ghost,
                    ));
                    assert(only_value_set(old(self), self, *output, out_ghost));
                }
                Ok(())
            },
            Instruction::Negate { output, input } => {
                let negated = {
                    let v = self.get_value_for_ref(*input)?;
                    self.compute_negate(v)
                };
                let ghost out_ghost = negated;
                self.set_value(*output, negated)?;
                proof {
                    assert(is_negated(&value_lookup(old(self), *input).unwrap(), &out_ghost));
                    assert(only_value_set(old(self), self, *output, out_ghost));
                }
                Ok(())
            },
            Instruction::FastSin { output, input } => self.exec_trig(TrigFn::Sin, *output, *input),
            Instruction::FastCos { output, input } => self.exec_trig(TrigFn::Cos, *output, *input),
            Instruction::FastTan { output, input } => self.exec_trig(TrigFn::Tan, *output, *input),
            Instruction::FastSinh { output, input } => {
                self.exec_trig(TrigFn::Sinh, *output, *input)
            },
            Instruction::FastCosh { output, input } => {
                self.exec_trig(TrigFn::Cosh, *output, *input)
            },
            Instruction::FastTanh { output, input } => {
                self.exec_trig(TrigFn::Tanh, *output, *input)
            },
            Instruction::ToF32 { output, input } => {
                let converted = {
                    let v = self.get_value_for_ref(*input)?;
                    self.convert_to_f32(v)
                };
                let ghost out_ghost = converted;
                self.set_value(*output, converted)?;
                proof {
                    assert(is_to_f32(&value_lookup(old(self), *input).unwrap(), &out_ghost));
                    assert(only_value_set(old(self), self, *output, out_ghost));
                }
                Ok(())
            },
            Instruction::ToF64 { output, input } => {
                let converted = {
                    let v = self.get_value_for_ref(*input)?;
                    self.convert_to_f64(v)
                };
                let ghost out_ghost = converted;
                self.set_value(*output, converted)?;
                proof {
                    assert(is_to_f64(&value_lookup(old(self), *input).unwrap(), &out_ghost));
                    assert(only_value_set(old(self), self, *output, out_ghost));
                }
                Ok(())
            },
            Instruction::ReadState { output, state, index } => {
                self.exec_read_state(ctx, false, *output, *state, *index)
            },
            Instruction::ReadStateRelative { output, state, index } => {
                self.exec_read_state(ctx, true, *output, *state, *index)
            },
            Instruction::WriteState { state, input, index } => {
                self.exec_write_state(ctx, false, *state, *input, *index)
            },
            Instruction::WriteStateRelative { state, input, index } => {
                self.exec_write_state(ctx, true, *state, *input, *index)
            },
            Instruction::ReadTimeSamples { output } => {
                let t = self.get_time_in_samples(ctx);
                let mut v: Vec<i64> = Vec::new();
                #[verifier::truncate]
                let ti = t as i64;
                v.push(ti);
                let ghost d_ghost = v;
                self.set_value(*output, Value::I64(v))?;
                proof {
                    assert(d_ghost@.len() == 1);
                    assert(only_value_set(old(self), self, *output, Value::I64(d_ghost)));
                }
                Ok(())
            },
            Instruction::ReadTimeSeconds { output } => {
                let t = self.get_time_in_samples(ctx);
                #[verifier::truncate]
                let ti = t as i64;
                #[verifier::truncate]
                let sr = ctx.get_sample_rate() as i64;
                let seconds = self.host.d_div(self.host.i64_to_d(ti), self.host.i64_to_d(sr));
                let mut v: Vec<u64> = Vec::new();
                v.push(seconds);
                let ghost d_ghost = v;
                self.set_value(*output, Value::F64(v))?;
                proof {
                    assert(d_ghost@.len() == 1);
                    assert(only_value_set(old(self), self, *output, Value::F64(d_ghost)));
                }
                Ok(())
            },
            Instruction::ReadInput { output, input_index } => {
                self.exec_read_input(ctx, *output, *input_index)
            },
            Instruction::WriteOutput { input, output_index } => {
                self.exec_write_output(ctx, *input, *output_index)
            },
            Instruction::ReadProperty { output, property_index } => {
                if *property_index >= self.properties.len() {
                    return Err(RuntimeError::IndexOutOfRange);
                }
                let mut v: Vec<u64> = Vec::new();
                v.push(self.properties[*property_index]);
                let ghost d_ghost = v;
                self.set_value(*output, Value::F64(v))?;
                proof {
                    assert(d_ghost@.len() == 1);
                    assert(d_ghost@[0] == old(self).properties@[*property_index as int]);
                    assert(only_value_set(old(self), self, *output, Value::F64(d_ghost)));
                }
                Ok(())
            },
        }
    }

    /// Execute one broadcasting binary instruction.
    fn exec_binop(&mut self, op: FoldOp, output: ValueRef, left: ValueRef, right: ValueRef) -> (r:
        Result<(), RuntimeError>)
        ensures
            r is Ok ==> binop_step(op, output, left, right, old(self), final(self)),
            r is Err ==> *final(self) == *old(self),
            binop_steppable(op, output, left, right, old(self)) ==> r is Ok,
    {
        let result = {
            let lv = self.get_value_for_ref(left)?;
            let rv = self.get_value_for_ref(right)?;
            self.compute_binop(op, lv, rv)?
        };
        let ghost out_ghost = result;
        self.set_value(output, result)?;
        proof {
            assert(is_value_binop(
                op,
                &value_lookup(old(self), left).unwrap(),
                &value_lookup(old(self), right).unwrap(),
                &out_ghost,
            ));
            assert(only_value_set(old(self), self, output, out_ghost));
        }
        Ok(())
    }

    /// Execute one trigonometric instruction.
    fn exec_trig(&mut self, f: TrigFn, output: ValueRef, input: ValueRef) -> (r: Result<
        (),
        RuntimeError,
    >)
        ensures
            r is Ok ==> trig_step(output, input, old(self), final(self)),
            r is Err ==> *final(self) == *old(self),
            unary_steppable(output, input, old(self), true) ==> r is Ok,
    {
        let result = {
            let v = self.get_value_for_ref(input)?;
            self.compute_trig(f, v)?
        };
        let ghost out_ghost = result;
        self.set_value(output, result)?;
        proof {
            assert(is_trig_result(&value_lookup(old(self), input).unwrap(), &out_ghost));
            assert(only_value_set(old(self), self, output, out_ghost));
        }
        Ok(())
    }

    /// Read one frame of a state, at an index wrapped (together with the
    /// current sample, for the relative variant) modulo the state's buffer
    /// Read one frame of a state, at an index wrapped (together with the
    /// current sample, for the relative variant) modulo the state's buffer
    /// length.
    fn exec_read_state(
        &mut self,
        ctx: &Context,
        relative: bool,
        output: ValueRef,
        state: StateRef,
        index: ValueRef,
    ) -> (r: Result<(), RuntimeError>)
        ensures
            r is Ok ==> read_state_step(ctx, relative, output, state, index, old(self), final(self)),
            r is Err ==> *final(self) == *old(self),
            read_state_steppable(ctx, output, state, index, old(self)) ==> r is Ok,
    {
        let st = match state.get_type(ctx) {
            Ok(t) => t,
            Err(_) => {
                return Err(RuntimeError::IndexOutOfRange);
            },
        };
        if state.index >= self.state.len() {
            return Err(RuntimeError::IndexOutOfRange);
        }
        let w64 = st.get_vector_width();
        proof {
            // one frame never exceeds the whole state, so a buffer length
            // within the whole-state bound is itself within the machine.
            assert((st.buffer_length_spec() as int) <= (w64 as int) * (
            st.buffer_length_spec() as int)) by (nonlinear_arith)
                requires
                    w64 >= 1,
                    st.buffer_length_spec() >= 0,
            ;
        }
        let raw = self.fetch_index(index)?;
        let offset = self.reduce_state_index(ctx, relative, raw, &st)?;
        if w64 > usize::MAX as u64 {
            return Err(RuntimeError::SizeOverflow);
        }
        let w = w64 as usize;
        proof {
            // the frame at the reduced offset lies inside the state.
            assert(((offset as int) + 1) * (w as int) <= (st.buffer_length_spec() as int) * (
            w as int)) by (nonlinear_arith)
                requires
                    (offset as int) + 1 <= st.buffer_length_spec() as int,
                    w as int >= 0,
            ;
            assert((st.buffer_length_spec() as int) * (w as int) == (w as int) * (
            st.buffer_length_spec() as int)) by (nonlinear_arith);
            assert((offset as int) * (w as int) + (w as int) == ((offset as int) + 1) * (
            w as int)) by (nonlinear_arith);
        }
        let value = {
            let stored = &self.state[state.index];
            let start = match offset.checked_mul(w) {
                Some(s) => s,
                None => {
                    return Err(RuntimeError::SizeOverflow);
                },
            };
            let end = match start.checked_add(w) {
                Some(e) => e,
                None => {
                    return Err(RuntimeError::SizeOverflow);
                },
            };
            match stored {
                Value::I32(buf) => {
                    if end > buf.len() {
                        return Err(RuntimeError::StateSizeMismatch);
                    }
                    Value::I32(read_segment(buf, start, w))
                },
                Value::I64(buf) => {
                    if end > buf.len() {
                        return Err(RuntimeError::StateSizeMismatch);
                    }
                    Value::I64(read_segment(buf, start, w))
                },
                Value::F32(buf) => {
                    if end > buf.len() {
                        return Err(RuntimeError::StateSizeMismatch);
                    }
                    Value::F32(read_segment(buf, start, w))
                },
                Value::F64(buf) => {
                    if end > buf.len() {
                        return Err(RuntimeError::StateSizeMismatch);
                    }
                    Value::F64(read_segment(buf, start, w))
                },
            }
        };
        let ghost out_ghost = value;
        proof {
            assert(frame_of(
                &self.state@[state.index as int],
                offset as int,
                w as int,
                &out_ghost,
            ));
        }
        self.set_value(output, value)?;
        proof {
            assert(only_value_set(old(self), self, output, out_ghost));
        }
        Ok(())
    }

    /// Write one frame of a state, at an index wrapped the same way as a
    /// read.
    fn exec_write_state(
        &mut self,
        ctx: &Context,
        relative: bool,
        state: StateRef,
        input: ValueRef,
        index: ValueRef,
    ) -> (r: Result<(), RuntimeError>)
        ensures
            r is Ok ==> write_state_step(ctx, relative, state, input, index, old(self), final(self)),
            r is Err ==> *final(self) == *old(self),
            write_state_steppable(ctx, state, input, index, old(self)) ==> r is Ok,
    {
        let st = match state.get_type(ctx) {
            Ok(t) => t,
            Err(_) => {
                return Err(RuntimeError::IndexOutOfRange);
            },
        };
        if state.index >= self.state.len() {
            return Err(RuntimeError::IndexOutOfRange);
        }
        let w64 = st.get_vector_width();
        proof {
            // one frame never exceeds the whole state, so a buffer length
            // within the whole-state bound is itself within the machine.
            assert((st.buffer_length_spec() as int) <= (w64 as int) * (
            st.buffer_length_spec() as int)) by (nonlinear_arith)
                requires
                    w64 >= 1,
                    st.buffer_length_spec() >= 0,
            ;
        }
        let raw = self.fetch_index(index)?;
        let offset = self.reduce_state_index(ctx, relative, raw, &st)?;
        if w64 > usize::MAX as u64 {
            return Err(RuntimeError::SizeOverflow);
        }
        let w = w64 as usize;
        proof {
            // the frame at the reduced offset lies inside the state.
            assert(((offset as int) + 1) * (w as int) <= (st.buffer_length_spec() as int) * (
            w as int)) by (nonlinear_arith)
                requires
                    (offset as int) + 1 <= st.buffer_length_spec() as int,
                    w as int >= 0,
            ;
            assert((st.buffer_length_spec() as int) * (w as int) == (w as int) * (
            st.buffer_length_spec() as int)) by (nonlinear_arith);
            assert((offset as int) * (w as int) + (w as int) == ((offset as int) + 1) * (
            w as int)) by (nonlinear_arith);
        }
        let start = match offset.checked_mul(w) {
            Some(s) => s,
            None => {
                return Err(RuntimeError::SizeOverflow);
            },
        };
        let end = match start.checked_add(w) {
            Some(e) => e,
            None => {
                return Err(RuntimeError::SizeOverflow);
            },
        };
        let updated = {
            let stored = &self.state[state.index];
            let v = self.get_value_for_ref(input)?;
            match (stored, v) {
                (Value::I32(buf), Value::I32(data)) => {
                    if data.len() != w || end > buf.len() {
                        return Err(RuntimeError::StateSizeMismatch);
                    }
                    let mut nb = read_segment(buf, 0, buf.len());
                    proof {
                        assert(nb@ =~= buf@);
                    }
                    write_segment(&mut nb, start, data);
                    proof {
                        assert(spliced(buf@, offset as int, w as int, data@, nb@));
                    }
                    Value::I32(nb)
                },
                (Value::I64(buf), Value::I64(data)) => {
                    if data.len() != w || end > buf.len() {
                        return Err(RuntimeError::StateSizeMismatch);
                    }
                    let mut nb = read_segment(buf, 0, buf.len());
                    proof {
                        assert(nb@ =~= buf@);
                    }
                    write_segment(&mut nb, start, data);
                    proof {
                        assert(spliced(buf@, offset as int, w as int, data@, nb@));
                    }
                    Value::I64(nb)
                },
                (Value::F32(buf), Value::F32(data)) => {
                    if data.len() != w || end > buf.len() {
                        return Err(RuntimeError::StateSizeMismatch);
                    }
                    let mut nb = read_segment(buf, 0, buf.len());
                    proof {
                        assert(nb@ =~= buf@);
                    }
                    write_segment(&mut nb, start, data);
                    proof {
                        assert(spliced(buf@, offset as int, w as int, data@, nb@));
                    }
                    Value::F32(nb)
                },
                (Value::F64(buf), Value::F64(data)) => {
                    if data.len() != w || end > buf.len() {
                        return Err(RuntimeError::StateSizeMismatch);
                    }
                    let mut nb = read_segment(buf, 0, buf.len());
                    proof {
                        assert(nb@ =~= buf@);
                    }
                    write_segment(&mut nb, start, data);
                    proof {
                        assert(spliced(buf@, offset as int, w as int, data@, nb@));
                    }
                    Value::F64(nb)
                },
                _ => {
                    return Err(RuntimeError::TypeMismatch);
                },
            }
        };
        let ghost pre_state = self.state@[state.index as int];
        let ghost nv_ghost = updated;
        self.state[state.index] = updated;
        proof {
            assert(value_lookup(old(self), input) matches Some(dv) && frame_written(
                &pre_state,
                offset as int,
                w as int,
                &dv,
                &nv_ghost,
            ));
            assert(only_state_set(old(self), self, state.index as int, nv_ghost));
        }
        Ok(())
    }

    /// Reduce a raw index into `[0, buffer_length)`: positive-biased modulo
    /// the length, with the current sample added first for the relative
    /// variants.
    fn reduce_state_index(&self, ctx: &Context, relative: bool, raw: i64, st: &Type) -> (r: Result<
        usize,
        RuntimeError,
    >)
        ensures
            r matches Ok(off) ==> off < st.buffer_length_spec() && st.buffer_length_spec()
                <= i64::MAX && offset_reduces(
                self,
                ctx,
                relative,
                raw,
                st.buffer_length_spec() as i64,
                off,
            ),
            st.buffer_length_spec() <= i64::MAX && st.buffer_length_spec() <= usize::MAX ==> r
                is Ok,
    {
        let l64 = st.get_buffer_length();
        if l64 > i64::MAX as u64 {
            return Err(RuntimeError::SizeOverflow);
        }
        let l = l64 as i64;
        let adjusted: i64 = if relative {
            let t = self.get_time_in_samples(ctx);
            #[verifier::truncate]
            let ti = t as i64;
            raw.wrapping_add(ti)
        } else {
            raw
        };
        let reduced = match adjusted.checked_rem_euclid(l) {
            Some(v) => v,
            None => {
                return Err(RuntimeError::DivisionByZero);
            },
        };
        if reduced < 0 || reduced as u64 >= l64 {
            return Err(RuntimeError::StateSizeMismatch);
        }
        if reduced as u64 > usize::MAX as u64 {
            return Err(RuntimeError::SizeOverflow);
        }
        Ok(reduced as usize)
    }

    /// Read one frame of input `input_index` at the current sample: `w`
    /// consecutive elements starting at `block_offset x w`.
    fn exec_read_input(&mut self, ctx: &Context, output: ValueRef, input_index: usize) -> (r:
        Result<(), RuntimeError>)
        ensures
            r is Ok ==> read_input_step(ctx, output, input_index, old(self), final(self)),
            r is Err ==> *final(self) == *old(self),
            read_input_steppable(ctx, output, input_index, old(self)) ==> r is Ok,
    {
        let ty = match ctx.get_input_type(input_index) {
            Some(t) => t,
            None => {
                return Err(RuntimeError::IndexOutOfRange);
            },
        };
        if input_index >= self.inputs.len() {
            return Err(RuntimeError::IndexOutOfRange);
        }
        let w64 = ty.get_vector_width();
        if w64 > usize::MAX as u64 {
            return Err(RuntimeError::SizeOverflow);
        }
        let w = w64 as usize;
        if self.block_offset > usize::MAX as u64 {
            return Err(RuntimeError::SizeOverflow);
        }
        let off = self.block_offset as usize;
        let buf_len = self.inputs[input_index].len();
        let start = match off.checked_mul(w) {
            Some(s) => s,
            None => {
                return Err(RuntimeError::SizeOverflow);
            },
        };
        let end = match start.checked_add(w) {
            Some(e) => e,
            None => {
                return Err(RuntimeError::SizeOverflow);
            },
        };
        let frame = {
            let buf = &self.inputs[input_index];
            if end > buf.len() {
                return Err(RuntimeError::BufferSizeMismatch);
            }
            read_segment(buf, start, w)
        };
        let ghost frame_ghost = frame;
        self.set_value(output, Value::F32(frame))?;
        proof {
            assert(only_value_set(old(self), self, output, Value::F32(frame_ghost)));
        }
        Ok(())
    }

    /// Write one frame of output `output_index` at the current sample: the
    /// value's `w` elements land at `block_offset x w`, leaving the rest of
    /// the buffer alone.
    fn exec_write_output(&mut self, ctx: &Context, input: ValueRef, output_index: usize) -> (r:
        Result<(), RuntimeError>)
        ensures
            r is Ok ==> write_output_step(input, output_index, old(self), final(self)),
            r is Err ==> *final(self) == *old(self),
            write_output_steppable(output_index, input, old(self)) ==> r is Ok,
    {
        if output_index >= self.outputs.len() {
            return Err(RuntimeError::IndexOutOfRange);
        }
        if self.block_offset > usize::MAX as u64 {
            return Err(RuntimeError::SizeOverflow);
        }
        let off = self.block_offset as usize;
        let buf_len = self.outputs[output_index].len();
        let updated = {
            let v = self.get_value_for_ref(input)?;
            let data = match v {
                Value::F32(d) => d,
                _ => {
                    return Err(RuntimeError::TypeMismatch);
                },
            };
            let w = data.len();
            let start = match off.checked_mul(w) {
                Some(s) => s,
                None => {
                    return Err(RuntimeError::SizeOverflow);
                },
            };
            let end = match start.checked_add(w) {
                Some(e) => e,
                None => {
                    return Err(RuntimeError::SizeOverflow);
                },
            };
            let buf = &self.outputs[output_index];
            if end > buf.len() {
                return Err(RuntimeError::BufferSizeMismatch);
            }
            let mut nb = read_segment(buf, 0, buf.len());
            proof {
                assert(nb@ =~= buf@);
            }
            write_segment(&mut nb, start, data);
            nb
        };
        self.outputs[output_index] = updated;
        Ok(())
    }

    /// Run one block: for each sample offset, execute every scheduled
    /// instruction in order, then clear the transient values (they are
    /// named edges of the graph, local to one sample).
    pub fn run_block(&mut self, ctx: &Context) -> (r: Result<(), RuntimeError>)
        ensures
            final(self).inputs@ == old(self).inputs@,
            final(self).properties@ == old(self).properties@,
            final(self).constant_values@ == old(self).constant_values@,
            final(self).outputs@.len() == old(self).outputs@.len(),
            forall|k: int|
                0 <= k < old(self).outputs@.len() ==> (#[trigger] final(self).outputs@[k])@.len()
                    == old(self).outputs@[k]@.len(),
            final(self).state@.len() == old(self).state@.len(),
            r is Ok ==> final(self).block_counter == old(self).block_counter.wrapping_add(1),
            r is Ok && ctx.block_size > 0 ==> forall|k: int|
                0 <= k < final(self).values@.len() ==> (#[trigger] final(self).values@[k]) is None,
            // every sample of the block ran the whole schedule, in order,
            // each instruction satisfying its step relation.
            r is Ok ==> exists|done: Interpreter<H>|
                #[trigger] block_samples_executed(ctx, *old(self), done, ctx.block_size as int)
                    && *final(self) == (Interpreter {
                    block_counter: done.block_counter.wrapping_add(1),
                    ..done
                }),
            // failure is only ever a stuck schedule: a valid trace reaches a
            // point where the next scheduled instruction cannot step, the
            // interpreter is left exactly there, and the counter is kept.
            r is Err ==> final(self).block_counter == old(self).block_counter,
            r is Err ==> exists|mid: Interpreter<H>, s: int, stuck: Interpreter<H>, p: int|
                #![trigger block_samples_executed(ctx, *old(self), mid, s), schedule_prefix_executed(
                    ctx,
                    Interpreter { block_offset: s as u64, ..mid },
                    stuck,
                    p,
                )]
                {
                    &&& 0 <= s < ctx.block_size
                    &&& block_samples_executed(ctx, *old(self), mid, s)
                    &&& 0 <= p < ctx.program@.len()
                    &&& schedule_prefix_executed(
                        ctx,
                        Interpreter { block_offset: s as u64, ..mid },
                        stuck,
                        p,
                    )
                    &&& *final(self) == stuck
                    &&& (ctx.program@[p].index >= ctx.instructions@.len() || !inst_steppable(
                        ctx,
                        ctx.instructions@[ctx.program@[p].index as int],
                        &stuck,
                    ))
                },
    {
        proof {
            let tr0 = Seq::<Interpreter<H>>::empty().push(*self);
            assert(tr0.len() == 1);
            assert(tr0[0] == *self);
            assert(block_trace_ok(ctx, *old(self), *self, 0, tr0));
        }
        let mut i: usize = 0;
        while i < ctx.block_size
            invariant
                self.inputs@ == old(self).inputs@,
                self.properties@ == old(self).properties@,
                self.constant_values@ == old(self).constant_values@,
                self.outputs@.len() == old(self).outputs@.len(),
                forall|k: int|
                    0 <= k < old(self).outputs@.len() ==> (#[trigger] self.outputs@[k])@.len()
                        == old(self).outputs@[k]@.len(),
                self.state@.len() == old(self).state@.len(),
                self.block_counter == old(self).block_counter,
                i <= ctx.block_size,
                i > 0 ==> forall|k: int|
                    0 <= k < self.values@.len() ==> (#[trigger] self.values@[k]) is None,
                block_samples_executed(ctx, *old(self), *self, i as int),
            decreases ctx.block_size - i,
        {
            let ghost iter_pre = *self;
            self.block_offset = i as u64;
            let ghost started = *self;
            proof {
                assert(started == Interpreter { block_offset: i as u64, ..iter_pre });
                let tr0 = Seq::<Interpreter<H>>::empty().push(started);
                assert(tr0.len() == 1);
                assert(tr0[0] == started);
                assert(schedule_trace_ok(ctx, started, *self, 0, tr0));
                assert(schedule_prefix_executed(ctx, started, *self, 0));
            }
            let mut p: usize = 0;
            while p < ctx.program.len()
                invariant
                    self.inputs@ == old(self).inputs@,
                    self.properties@ == old(self).properties@,
                    self.constant_values@ == old(self).constant_values@,
                    self.outputs@.len() == old(self).outputs@.len(),
                    forall|k: int|
                        0 <= k < old(self).outputs@.len() ==> (#[trigger] self.outputs@[k])@.len()
                            == old(self).outputs@[k]@.len(),
                    self.state@.len() == old(self).state@.len(),
                    self.block_counter == old(self).block_counter,
                    p <= ctx.program@.len(),
                    schedule_prefix_executed(ctx, started, *self, p as int),
                    i < ctx.block_size,
                    block_samples_executed(ctx, *old(self), iter_pre, i as int),
                    started == (Interpreter { block_offset: i as u64, ..iter_pre }),
                decreases ctx.program@.len() - p,
            {
                let iref = ctx.program[p];
                let inst = match iref.get_instruction(ctx) {
                    Ok(x) => *x,
                    Err(_) => {
                        proof {
                            assert(block_samples_executed(ctx, *old(self), iter_pre, i as int));
                            assert(schedule_prefix_executed(ctx, started, *self, p as int));
                            assert(started == Interpreter { block_offset: i as u64, ..iter_pre });
                        }
                        return Err(RuntimeError::UnresolvedValue);
                    },
                };
                let ghost prev = *self;
                match self.exec_one_instruction(ctx, &inst) {
                    Ok(()) => {},
                    Err(e) => {
                        proof {
                            assert(!inst_steppable(ctx, inst, self));
                            assert(block_samples_executed(ctx, *old(self), iter_pre, i as int));
                            assert(schedule_prefix_executed(ctx, started, *self, p as int));
                            assert(started == Interpreter { block_offset: i as u64, ..iter_pre });
                        }
                        return Err(e);
                    },
                }
                proof {
                    assert(step_post(ctx, inst, &prev, self));
                    let tr = choose|tr: Seq<Interpreter<H>>|
                        #[trigger] schedule_trace_ok(ctx, started, prev, p as int, tr);
                    lemma_trace_extend(ctx, started, prev, *self, p as int, tr);
                    assert(schedule_prefix_executed(ctx, started, *self, p + 1));
                }
                p += 1;
            }
            let ghost finished = *self;
            // the transient values are cleared on every sample.
            let n_values = self.values.len();
            let mut cleared: Vec<Option<Value>> = Vec::new();
            let mut q: usize = 0;
            while q < n_values
                invariant
                    q <= n_values,
                    cleared@.len() == q,
                    forall|j: int| 0 <= j < q ==> (#[trigger] cleared@[j]) is None,
                decreases n_values - q,
            {
                cleared.push(None);
                q += 1;
            }
            let ghost cleared_ghost = cleared;
            self.values = cleared;
            proof {
                assert(*self == Interpreter { values: cleared_ghost, ..finished });
                assert(sample_executed(ctx, iter_pre, *self, i as u64));
                let tr = choose|tr: Seq<Interpreter<H>>|
                    #[trigger] block_trace_ok(ctx, *old(self), iter_pre, i as int, tr);
                let tr2 = tr.push(*self);
                assert(tr2.len() == i + 2);
                assert(tr2[0] == *old(self));
                assert(tr2[i + 1] == *self);
                assert forall|k: int|
                    0 <= k < i + 1 implies #[trigger] sample_executed(
                    ctx,
                    tr2[k],
                    tr2[k + 1],
                    k as u64,
                ) by {
                    if k < i {
                        assert(tr2[k] == tr[k]);
                        assert(tr2[k + 1] == tr[k + 1]);
                    } else {
                        assert(tr2[k] == iter_pre);
                        assert(tr2[k + 1] == *self);
                    }
                }
                assert(block_trace_ok(ctx, *old(self), *self, (i + 1) as int, tr2));
                assert(block_samples_executed(ctx, *old(self), *self, i + 1));
            }
            i += 1;
        }
        let ghost done = *self;
        self.block_counter = self.block_counter.wrapping_add(1);
        proof {
            assert(*self == Interpreter {
                block_counter: done.block_counter.wrapping_add(1),
                ..done
            });
        }
        Ok(())
    }
}

/// Narrow one constant to a value of the given primitive, with the host's
/// casts; matching integer primitives are copied exactly.
fn convert_constant<H: HostNumerics>(host: &H, c: &Constant, target: Primitive) -> (r: Result<
    Value,
    RuntimeError,
>)
    ensures
        r matches Ok(v) ==> v.len_spec() == c.width_spec(),
        c matches Constant::Bool(_) ==> r is Err,
        c matches Constant::I32(a) ==> (target == Primitive::I32 ==> (r matches Ok(v) && v
            matches Value::I32(b) && b@ == a@)),
        c matches Constant::I64(a) ==> (target == Primitive::I64 ==> (r matches Ok(v) && v
            matches Value::I64(b) && b@ == a@)),
        c matches Constant::F32(a) ==> (target == Primitive::F32 ==> (r matches Ok(v) && v
            matches Value::F32(b) && b@ == a@)),
        c matches Constant::F64(a) ==> (target == Primitive::F64 ==> (r matches Ok(v) && v
            matches Value::F64(b) && b@ == a@)),
        !(c matches Constant::Bool(_)) && target != Primitive::Bool ==> r is Ok,
        r matches Ok(v) ==> (match target {
            Primitive::I32 => v is I32,
            Primitive::I64 => v is I64,
            Primitive::F32 => v is F32,
            Primitive::F64 => v is F64,
            Primitive::Bool => false,
        }),
{
    match c {
        Constant::Bool(_) => Err(RuntimeError::UnsupportedType),
        Constant::I32(a) => {
            match target {
                Primitive::I32 => Ok(Value::I32(read_segment(a, 0, a.len()))),
                Primitive::I64 => {
                    let mut out: Vec<i64> = Vec::new();
                    let mut k: usize = 0;
                    while k < a.len()
                        invariant
                            k <= a@.len(),
                            out@.len() == k,
                        decreases a@.len() - k,
                    {
                        out.push(a[k] as i64);
                        k += 1;
                    }
                    Ok(Value::I64(out))
                },
                Primitive::F32 => {
                    let mut out: Vec<u32> = Vec::new();
                    let mut k: usize = 0;
                    while k < a.len()
                        invariant
                            k <= a@.len(),
                            out@.len() == k,
                        decreases a@.len() - k,
                    {
                        out.push(host.i32_to_s(a[k]));
                        k += 1;
                    }
                    Ok(Value::F32(out))
                },
                Primitive::F64 => {
                    let mut out: Vec<u64> = Vec::new();
                    let mut k: usize = 0;
                    while k < a.len()
                        invariant
                            k <= a@.len(),
                            out@.len() == k,
                        decreases a@.len() - k,
                    {
                        out.push(host.i32_to_d(a[k]));
                        k += 1;
                    }
                    Ok(Value::F64(out))
                },
                Primitive::Bool => Err(RuntimeError::UnsupportedType),
            }
        },
        Constant::I64(a) => {
            match target {
                Primitive::I64 => Ok(Value::I64(read_segment(a, 0, a.len()))),
                Primitive::I32 => {
                    let mut out: Vec<i32> = Vec::new();
                    let mut k: usize = 0;
                    while k < a.len()
                        invariant
                            k <= a@.len(),
                            out@.len() == k,
                        decreases a@.len() - k,
                    {
                        #[verifier::truncate]
                        let x = a[k] as i32;
                        out.push(x);
                        k += 1;
                    }
                    Ok(Value::I32(out))
                },
                Primitive::F32 => {
                    let mut out: Vec<u32> = Vec::new();
                    let mut k: usize = 0;
                    while k < a.len()
                        invariant
                            k <= a@.len(),
                            out@.len() == k,
                        decreases a@.len() - k,
                    {
                        out.push(host.i64_to_s(a[k]));
                        k += 1;
                    }
                    Ok(Value::F32(out))
                },
                Primitive::F64 => {
                    let mut out: Vec<u64> = Vec::new();
                    let mut k: usize = 0;
                    while k < a.len()
                        invariant
                            k <= a@.len(),
                            out@.len() == k,
                        decreases a@.len() - k,
                    {
                        out.push(host.i64_to_d(a[k]));
                        k += 1;
                    }
                    Ok(Value::F64(out))
                },
                Primitive::Bool => Err(RuntimeError::UnsupportedType),
            }
        },
        Constant::F32(a) => {
            match target {
                Primitive::F32 => Ok(Value::F32(read_segment(a, 0, a.len()))),
                Primitive::F64 => {
                    let mut out: Vec<u64> = Vec::new();
                    let mut k: usize = 0;
                    while k < a.len()
                        invariant
                            k <= a@.len(),
                            out@.len() == k,
                        decreases a@.len() - k,
                    {
                        out.push(host.s_to_d(a[k]));
                        k += 1;
                    }
                    Ok(Value::F64(out))
                },
                Primitive::I32 => {
                    let mut out: Vec<i32> = Vec::new();
                    let mut k: usize = 0;
                    while k < a.len()
                        invariant
                            k <= a@.len(),
                            out@.len() == k,
                        decreases a@.len() - k,
                    {
                        out.push(host.s_to_i32(a[k]));
                        k += 1;
                    }
                    Ok(Value::I32(out))
                },
                Primitive::I64 => {
                    let mut out: Vec<i64> = Vec::new();
                    let mut k: usize = 0;
                    while k < a.len()
                        invariant
                            k <= a@.len(),
                            out@.len() == k,
                        decreases a@.len() - k,
                    {
                        out.push(host.s_to_i64(a[k]));
                        k += 1;
                    }
                    Ok(Value::I64(out))
                },
                Primitive::Bool => Err(RuntimeError::UnsupportedType),
            }
        },
        Constant::F64(a) => {
            match target {
                Primitive::F64 => Ok(Value::F64(read_segment(a, 0, a.len()))),
                Primitive::F32 => {
                    let mut out: Vec<u32> = Vec::new();
                    let mut k: usize = 0;
                    while k < a.len()
                        invariant
                            k <= a@.len(),
                            out@.len() == k,
                        decreases a@.len() - k,
                    {
                        out.push(host.d_to_s(a[k]));
                        k += 1;
                    }
                    Ok(Value::F32(out))
                },
                Primitive::I32 => {
                    let mut out: Vec<i32> = Vec::new();
                    let mut k: usize = 0;
                    while k < a.len()
                        invariant
                            k <= a@.len(),
                            out@.len() == k,
                        decreases a@.len() - k,
                    {
                        out.push(host.d_to_i32(a[k]));
                        k += 1;
                    }
                    Ok(Value::I32(out))
                },
                Primitive::I64 => {
                    let mut out: Vec<i64> = Vec::new();
                    let mut k: usize = 0;
                    while k < a.len()
                        invariant
                            k <= a@.len(),
                            out@.len() == k,
                        decreases a@.len() - k,
                    {
                        out.push(host.d_to_i64(a[k]));
                        k += 1;
                    }
                    Ok(Value::I64(out))
                },
                Primitive::Bool => Err(RuntimeError::UnsupportedType),
            }
        },
    }
}

} // verus!

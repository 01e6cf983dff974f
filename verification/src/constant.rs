//! Vector constants and broadcasting constant folding.
//!
//! A constant is a homogeneous vector of one primitive.  Element-wise binary
//! operations support broadcasting: a width-1 operand is virtually repeated
//! to the other operand's width, so element `k` of the result is computed
//! from element `k mod w` of each operand.  Floating-point elements are
//! raw IEEE 754 bit patterns; their arithmetic is delegated to the host (see
//! [`crate::host`]), while integer lanes use wrapping arithmetic and are
//! specified exactly.

use vstd::prelude::*;

use crate::host::HostNumerics;
use crate::vector_descriptor::{PrimitiveType, VectorDescriptor};

verus! {

/// A vector constant: one primitive, any width.
///
/// `F32` and `F64` hold IEEE 754 bit patterns.
#[derive(Debug, Clone)]
pub enum Constant {
    Bool(Vec<bool>),
    I32(Vec<i32>),
    I64(Vec<i64>),
    F32(Vec<u32>),
    F64(Vec<u64>),
}

/// Reasons why an operation between two constants cannot be carried out.
///
/// This comes up when constant folding and when running the interpreter.
#[derive(Debug, Eq, PartialEq, Structural, Copy, Clone)]
pub enum ConstantFoldingError {
    /// Cannot apply constant operations to a constant of width 0.
    ZeroWidthConstant,
    /// Attempt to fold constants of incompatible primitive types.
    IncompatibleTypes,
    /// Attempt to use a constant of an unsupported type for this operation.
    UnsupportedType,
    /// Constant widths are not the same, and neither can be broadcast.
    IncompatibleWidths,
}

/// Reasons why a constant cannot be constructed.
#[derive(Debug, Eq, PartialEq, Structural, Copy, Clone)]
pub enum ConstantConstructionError {
    /// Constants must not be zero width.
    ZeroWidth,
}

/// The element-wise operations that constant folding supports.
///
/// `clamp(x, lo, hi)` is not listed: it is the composition
/// `max(lo, min(hi, x))` of two of these.
#[derive(Debug, Eq, PartialEq, Structural, Copy, Clone)]
pub enum FoldOp {
    Add,
    Sub,
    Mul,
    Div,
    Rem,
    Min,
    Max,
    Pow,
}

/// Do two widths line up for broadcasting (given both are nonzero)?
pub open spec fn broadcast_widths_ok(wl: nat, wr: nat) -> bool {
    wl == wr || wl == 1 || wr == 1
}

/// The width of a broadcast result.
pub open spec fn broadcast_width(wl: nat, wr: nat) -> nat {
    if wl >= wr {
        wl
    } else {
        wr
    }
}

/// Exact element semantics on `i32` lanes.  Integer arithmetic wraps;
/// `Div` truncates and `Rem` is positive-biased (Euclidean).  `Pow` never
/// reaches integer lanes.
pub open spec fn elem_i32(op: FoldOp, a: i32, b: i32) -> i32 {
    match op {
        FoldOp::Add => a.wrapping_add(b),
        FoldOp::Sub => a.wrapping_sub(b),
        FoldOp::Mul => a.wrapping_mul(b),
        FoldOp::Div => match a.checked_div(b) {
            Some(v) => v,
            None => 0,
        },
        FoldOp::Rem => match a.checked_rem_euclid(b) {
            Some(v) => v,
            None => 0,
        },
        FoldOp::Min => if a <= b {
            a
        } else {
            b
        },
        FoldOp::Max => if a >= b {
            a
        } else {
            b
        },
        FoldOp::Pow => 0,
    }
}

/// Exact element semantics on `i64` lanes; see [`elem_i32`].
pub open spec fn elem_i64(op: FoldOp, a: i64, b: i64) -> i64 {
    match op {
        FoldOp::Add => a.wrapping_add(b),
        FoldOp::Sub => a.wrapping_sub(b),
        FoldOp::Mul => a.wrapping_mul(b),
        FoldOp::Div => match a.checked_div(b) {
            Some(v) => v,
            None => 0,
        },
        FoldOp::Rem => match a.checked_rem_euclid(b) {
            Some(v) => v,
            None => 0,
        },
        FoldOp::Min => if a <= b {
            a
        } else {
            b
        },
        FoldOp::Max => if a >= b {
            a
        } else {
            b
        },
        FoldOp::Pow => 0,
    }
}

/// Is this `(dividend, divisor)` pair safe for integer `Div`/`Rem`?
pub open spec fn div_pair_safe_i32(a: i32, b: i32) -> bool {
    b != 0 && !(a == i32::MIN && b == -1)
}

pub open spec fn div_pair_safe_i64(a: i64, b: i64) -> bool {
    b != 0 && !(a == i64::MIN && b == -1)
}

/// Every element pair the broadcast would divide is safe.  Vacuously true
/// for any op but `Div` and `Rem`, and for non-integer constants.
pub open spec fn fold_div_safe(op: FoldOp, l: &Constant, r: &Constant) -> bool {
    (op == FoldOp::Div || op == FoldOp::Rem) ==> match (l, r) {
        (Constant::I32(a), Constant::I32(b)) => forall|k: int|
            0 <= k < broadcast_width(a@.len(), b@.len()) && a@.len() > 0 && b@.len() > 0
                ==> #[trigger] div_pair_safe_i32(a@[k % (a@.len() as int)], b@[k % (b@.len() as int)]),
        (Constant::I64(a), Constant::I64(b)) => forall|k: int|
            0 <= k < broadcast_width(a@.len(), b@.len()) && a@.len() > 0 && b@.len() > 0
                ==> #[trigger] div_pair_safe_i64(a@[k % (a@.len() as int)], b@[k % (b@.len() as int)]),
        _ => true,
    }
}

/// Which failure, if any, folding `l op r` reports, in the order the checks
/// are made: zero width, then widths, then primitive, then support.
pub open spec fn fold_failure(op: FoldOp, l: &Constant, r: &Constant) -> Option<
    ConstantFoldingError,
> {
    if l.width_spec() == 0 || r.width_spec() == 0 {
        Some(ConstantFoldingError::ZeroWidthConstant)
    } else if !broadcast_widths_ok(l.width_spec(), r.width_spec()) {
        Some(ConstantFoldingError::IncompatibleWidths)
    } else if l.primitive_type_spec() != r.primitive_type_spec() {
        Some(ConstantFoldingError::IncompatibleTypes)
    } else if l.primitive_type_spec() == PrimitiveType::Bool {
        Some(ConstantFoldingError::UnsupportedType)
    } else if op == FoldOp::Pow && (l.primitive_type_spec() == PrimitiveType::I32
        || l.primitive_type_spec() == PrimitiveType::I64) {
        Some(ConstantFoldingError::UnsupportedType)
    } else {
        None
    }
}

/// What a successful fold looks like: integer lanes are pinned element by
/// element; float lanes are pinned in primitive and width, their elements
/// being whatever the host computed.
pub open spec fn is_fold_result(op: FoldOp, l: &Constant, r: &Constant, out: &Constant) -> bool {
    match (l, r, out) {
        (Constant::I32(a), Constant::I32(b), Constant::I32(c)) => {
            &&& c@.len() == broadcast_width(a@.len(), b@.len())
            &&& forall|k: int|
                0 <= k < c@.len() ==> #[trigger] c@[k] == elem_i32(
                    op,
                    a@[k % (a@.len() as int)],
                    b@[k % (b@.len() as int)],
                )
        },
        (Constant::I64(a), Constant::I64(b), Constant::I64(c)) => {
            &&& c@.len() == broadcast_width(a@.len(), b@.len())
            &&& forall|k: int|
                0 <= k < c@.len() ==> #[trigger] c@[k] == elem_i64(
                    op,
                    a@[k % (a@.len() as int)],
                    b@[k % (b@.len() as int)],
                )
        },
        (Constant::F32(a), Constant::F32(b), Constant::F32(c)) => c@.len() == broadcast_width(
            a@.len(),
            b@.len(),
        ),
        (Constant::F64(a), Constant::F64(b), Constant::F64(c)) => c@.len() == broadcast_width(
            a@.len(),
            b@.len(),
        ),
        _ => false,
    }
}

/// Which failure, if any, `clamp(x, lo, hi) = max(lo, min(hi, x))` reports.
/// The first step's failure is [`fold_failure`] on `(x, hi)`; when it
/// passes, the intermediate minimum's shape is determined (`x`'s primitive
/// at the broadcast width), so the second step's failure is computable too.
pub open spec fn clamp_failure(x: &Constant, lo: &Constant, hi: &Constant) -> Option<
    ConstantFoldingError,
> {
    match fold_failure(FoldOp::Min, x, hi) {
        Some(e) => Some(e),
        None => {
            let mw = broadcast_width(x.width_spec(), hi.width_spec());
            if lo.width_spec() == 0 {
                Some(ConstantFoldingError::ZeroWidthConstant)
            } else if !broadcast_widths_ok(mw, lo.width_spec()) {
                Some(ConstantFoldingError::IncompatibleWidths)
            } else if x.primitive_type_spec() != lo.primitive_type_spec() {
                Some(ConstantFoldingError::IncompatibleTypes)
            } else {
                Option::<ConstantFoldingError>::None
            }
        },
    }
}

/// The contract every fold entry point shares.
pub open spec fn fold_post(
    op: FoldOp,
    l: &Constant,
    r: &Constant,
    res: &Result<Constant, ConstantFoldingError>,
) -> bool {
    match fold_failure(op, l, r) {
        Some(e) => res matches Err(a) && a == e,
        None => res matches Ok(out) && is_fold_result(op, l, r, &out),
    }
}

impl Constant {
    /// The primitive kind of this constant's elements.
    pub open spec fn primitive_type_spec(&self) -> PrimitiveType {
        match self {
            Constant::Bool(_) => PrimitiveType::Bool,
            Constant::I32(_) => PrimitiveType::I32,
            Constant::I64(_) => PrimitiveType::I64,
            Constant::F32(_) => PrimitiveType::F32,
            Constant::F64(_) => PrimitiveType::F64,
        }
    }

    pub fn primitive_type(&self) -> (r: PrimitiveType)
        ensures
            r == self.primitive_type_spec(),
    {
        match self {
            Constant::Bool(_) => PrimitiveType::Bool,
            Constant::I32(_) => PrimitiveType::I32,
            Constant::I64(_) => PrimitiveType::I64,
            Constant::F32(_) => PrimitiveType::F32,
            Constant::F64(_) => PrimitiveType::F64,
        }
    }

    /// The number of elements.
    pub open spec fn width_spec(&self) -> nat {
        match self {
            Constant::Bool(v) => v@.len(),
            Constant::I32(v) => v@.len(),
            Constant::I64(v) => v@.len(),
            Constant::F32(v) => v@.len(),
            Constant::F64(v) => v@.len(),
        }
    }

    pub fn width(&self) -> (r: u64)
        ensures
            r == self.width_spec(),
    {
        let w: usize = match self {
            Constant::Bool(v) => v.len(),
            Constant::I32(v) => v.len(),
            Constant::I64(v) => v.len(),
            Constant::F32(v) => v.len(),
            Constant::F64(v) => v.len(),
        };
        w as u64
    }

    /// The primitive-and-width shape of this constant.
    pub fn vector_descriptor(&self) -> (r: VectorDescriptor)
        ensures
            r.primitive == self.primitive_type_spec(),
            r.width == self.width_spec(),
    {
        VectorDescriptor { primitive: self.primitive_type(), width: self.width() }
    }

    /// Checked creator: rejects the empty vector.
    pub fn new_boolean(elements: Vec<bool>) -> (r: Result<Constant, ConstantConstructionError>)
        ensures
            elements@.len() == 0 ==> r == Err::<Constant, _>(ConstantConstructionError::ZeroWidth),
            elements@.len() > 0 ==> r == Ok::<_, ConstantConstructionError>(
                Constant::Bool(elements),
            ),
    {
        if elements.len() == 0 {
            Err(ConstantConstructionError::ZeroWidth)
        } else {
            Ok(Constant::Bool(elements))
        }
    }

    /// Checked creator for an integral constant; rejects the empty vector.
    pub fn new_integral(elements: Vec<i64>) -> (r: Result<Constant, ConstantConstructionError>)
        ensures
            elements@.len() == 0 ==> r == Err::<Constant, _>(ConstantConstructionError::ZeroWidth),
            elements@.len() > 0 ==> r == Ok::<_, ConstantConstructionError>(
                Constant::I64(elements),
            ),
    {
        if elements.len() == 0 {
            Err(ConstantConstructionError::ZeroWidth)
        } else {
            Ok(Constant::I64(elements))
        }
    }

    /// Checked creator for a double-precision constant from bit patterns;
    /// rejects the empty vector.
    pub fn new_float(bits: Vec<u64>) -> (r: Result<Constant, ConstantConstructionError>)
        ensures
            bits@.len() == 0 ==> r == Err::<Constant, _>(ConstantConstructionError::ZeroWidth),
            bits@.len() > 0 ==> r == Ok::<_, ConstantConstructionError>(Constant::F64(bits)),
    {
        if bits.len() == 0 {
            Err(ConstantConstructionError::ZeroWidth)
        } else {
            Ok(Constant::F64(bits))
        }
    }

    /// The elements as `i64`s, when the constant is integral.
    pub fn as_integral(&self) -> (r: Option<Vec<i64>>)
        ensures
            match self {
                Constant::I64(v) => r matches Some(o) && o@ == v@,
                Constant::I32(v) => r matches Some(o) && o@.len() == v@.len() && (forall|k: int|
                    0 <= k < v@.len() ==> o@[k] == v@[k] as i64),
                _ => r is None,
            },
    {
        match self {
            Constant::I64(v) => Some(v.clone()),
            Constant::I32(v) => {
                let mut out: Vec<i64> = Vec::new();
                let mut k: usize = 0;
                while k < v.len()
                    invariant
                        k <= v@.len(),
                        out@.len() == k,
                        forall|j: int| 0 <= j < k ==> out@[j] == v@[j] as i64,
                    decreases v@.len() - k,
                {
                    out.push(v[k] as i64);
                    k += 1;
                }
                Some(out)
            },
            _ => None,
        }
    }

    /// The elements, when the constant is boolean.
    pub fn as_boolean(&self) -> (r: Option<Vec<bool>>)
        ensures
            match self {
                Constant::Bool(v) => r matches Some(o) && o@ == v@,
                _ => r is None,
            },
    {
        match self {
            Constant::Bool(v) => Some(v.clone()),
            _ => None,
        }
    }

    /// The elements as double-precision bit patterns, when the constant is
    /// floating point.  Single-precision elements are widened by the host.
    pub fn as_float<H: HostNumerics>(&self, host: &H) -> (r: Option<Vec<u64>>)
        ensures
            match self {
                Constant::F64(v) => r matches Some(o) && o@ == v@,
                Constant::F32(v) => r matches Some(o) && o@.len() == v@.len(),
                _ => r is None,
            },
    {
        match self {
            Constant::F64(v) => Some(v.clone()),
            Constant::F32(v) => {
                let mut out: Vec<u64> = Vec::new();
                let mut k: usize = 0;
                while k < v.len()
                    invariant
                        k <= v@.len(),
                        out@.len() == k,
                    decreases v@.len() - k,
                {
                    out.push(host.s_to_d(v[k]));
                    k += 1;
                }
                Some(out)
            },
            _ => None,
        }
    }

    pub fn is_boolean(&self) -> (r: bool)
        ensures
            r == (self matches Constant::Bool(_)),
    {
        matches!(self, Constant::Bool(_))
    }

    pub fn is_integral(&self) -> (r: bool)
        ensures
            r == (self matches Constant::I32(_) || self matches Constant::I64(_)),
    {
        matches!(self, Constant::I32(_) | Constant::I64(_))
    }

    pub fn is_float(&self) -> (r: bool)
        ensures
            r == (self matches Constant::F32(_) || self matches Constant::F64(_)),
    {
        matches!(self, Constant::F32(_) | Constant::F64(_))
    }
}

/// One element step on `i32` lanes; see [`elem_i32`].
pub(crate) fn exec_elem_i32(op: FoldOp, a: i32, b: i32) -> (r: i32)
    requires
        op == FoldOp::Div || op == FoldOp::Rem ==> div_pair_safe_i32(a, b),
    ensures
        r == elem_i32(op, a, b),
{
    match op {
        FoldOp::Add => a.wrapping_add(b),
        FoldOp::Sub => a.wrapping_sub(b),
        FoldOp::Mul => a.wrapping_mul(b),
        FoldOp::Div => match a.checked_div(b) {
            Some(v) => v,
            None => 0,
        },
        FoldOp::Rem => match a.checked_rem_euclid(b) {
            Some(v) => v,
            None => 0,
        },
        FoldOp::Min => if a <= b {
            a
        } else {
            b
        },
        FoldOp::Max => if a >= b {
            a
        } else {
            b
        },
        FoldOp::Pow => 0,
    }
}

/// One element step on `i64` lanes; see [`elem_i64`].
pub(crate) fn exec_elem_i64(op: FoldOp, a: i64, b: i64) -> (r: i64)
    requires
        op == FoldOp::Div || op == FoldOp::Rem ==> div_pair_safe_i64(a, b),
    ensures
        r == elem_i64(op, a, b),
{
    match op {
        FoldOp::Add => a.wrapping_add(b),
        FoldOp::Sub => a.wrapping_sub(b),
        FoldOp::Mul => a.wrapping_mul(b),
        FoldOp::Div => match a.checked_div(b) {
            Some(v) => v,
            None => 0,
        },
        FoldOp::Rem => match a.checked_rem_euclid(b) {
            Some(v) => v,
            None => 0,
        },
        FoldOp::Min => if a <= b {
            a
        } else {
            b
        },
        FoldOp::Max => if a >= b {
            a
        } else {
            b
        },
        FoldOp::Pow => 0,
    }
}

/// One element step on single-precision bit patterns, through the host.
pub(crate) fn exec_elem_s<H: HostNumerics>(host: &H, op: FoldOp, a: u32, b: u32) -> u32 {
    match op {
        FoldOp::Add => host.s_add(a, b),
        FoldOp::Sub => host.s_sub(a, b),
        FoldOp::Mul => host.s_mul(a, b),
        FoldOp::Div => host.s_div(a, b),
        FoldOp::Rem => host.s_rem(a, b),
        FoldOp::Min => host.s_min(a, b),
        FoldOp::Max => host.s_max(a, b),
        FoldOp::Pow => host.s_pow(a, b),
    }
}

/// One element step on double-precision bit patterns, through the host.
pub(crate) fn exec_elem_d<H: HostNumerics>(host: &H, op: FoldOp, a: u64, b: u64) -> u64 {
    match op {
        FoldOp::Add => host.d_add(a, b),
        FoldOp::Sub => host.d_sub(a, b),
        FoldOp::Mul => host.d_mul(a, b),
        FoldOp::Div => host.d_div(a, b),
        FoldOp::Rem => host.d_rem(a, b),
        FoldOp::Min => host.d_min(a, b),
        FoldOp::Max => host.d_max(a, b),
        FoldOp::Pow => host.d_pow(a, b),
    }
}

/// Broadcast `op` over two `i32` lanes.
pub(crate) fn broadcast_i32(op: FoldOp, a: &Vec<i32>, b: &Vec<i32>) -> (out: Vec<i32>)
    requires
        a@.len() > 0,
        b@.len() > 0,
        broadcast_widths_ok(a@.len(), b@.len()),
        (op == FoldOp::Div || op == FoldOp::Rem) ==> forall|k: int|
            0 <= k < broadcast_width(a@.len(), b@.len()) ==> #[trigger] div_pair_safe_i32(
                a@[k % (a@.len() as int)],
                b@[k % (b@.len() as int)],
            ),
    ensures
        out@.len() == broadcast_width(a@.len(), b@.len()),
        forall|k: int|
            0 <= k < out@.len() ==> #[trigger] out@[k] == elem_i32(
                op,
                a@[k % (a@.len() as int)],
                b@[k % (b@.len() as int)],
            ),
{
    let n: usize = if a.len() >= b.len() {
        a.len()
    } else {
        b.len()
    };
    let mut out: Vec<i32> = Vec::new();
    let mut k: usize = 0;
    while k < n
        invariant
            n == broadcast_width(a@.len(), b@.len()),
            a@.len() > 0,
            b@.len() > 0,
            k <= n,
            out@.len() == k,
            (op == FoldOp::Div || op == FoldOp::Rem) ==> forall|j: int|
                0 <= j < n ==> #[trigger] div_pair_safe_i32(
                    a@[j % (a@.len() as int)],
                    b@[j % (b@.len() as int)],
                ),
            forall|j: int|
                0 <= j < k ==> #[trigger] out@[j] == elem_i32(
                    op,
                    a@[j % (a@.len() as int)],
                    b@[j % (b@.len() as int)],
                ),
        decreases n - k,
    {
        let x = a[k % a.len()];
        let y = b[k % b.len()];
        out.push(exec_elem_i32(op, x, y));
        k += 1;
    }
    out
}

/// Broadcast `op` over two `i64` lanes.
pub(crate) fn broadcast_i64(op: FoldOp, a: &Vec<i64>, b: &Vec<i64>) -> (out: Vec<i64>)
    requires
        a@.len() > 0,
        b@.len() > 0,
        broadcast_widths_ok(a@.len(), b@.len()),
        (op == FoldOp::Div || op == FoldOp::Rem) ==> forall|k: int|
            0 <= k < broadcast_width(a@.len(), b@.len()) ==> #[trigger] div_pair_safe_i64(
                a@[k % (a@.len() as int)],
                b@[k % (b@.len() as int)],
            ),
    ensures
        out@.len() == broadcast_width(a@.len(), b@.len()),
        forall|k: int|
            0 <= k < out@.len() ==> #[trigger] out@[k] == elem_i64(
                op,
                a@[k % (a@.len() as int)],
                b@[k % (b@.len() as int)],
            ),
{
    let n: usize = if a.len() >= b.len() {
        a.len()
    } else {
        b.len()
    };
    let mut out: Vec<i64> = Vec::new();
    let mut k: usize = 0;
    while k < n
        invariant
            n == broadcast_width(a@.len(), b@.len()),
            a@.len() > 0,
            b@.len() > 0,
            k <= n,
            out@.len() == k,
            (op == FoldOp::Div || op == FoldOp::Rem) ==> forall|j: int|
                0 <= j < n ==> #[trigger] div_pair_safe_i64(
                    a@[j % (a@.len() as int)],
                    b@[j % (b@.len() as int)],
                ),
            forall|j: int|
                0 <= j < k ==> #[trigger] out@[j] == elem_i64(
                    op,
                    a@[j % (a@.len() as int)],
                    b@[j % (b@.len() as int)],
                ),
        decreases n - k,
    {
        let x = a[k % a.len()];
        let y = b[k % b.len()];
        out.push(exec_elem_i64(op, x, y));
        k += 1;
    }
    out
}

/// Broadcast `op` over two single-precision lanes, through the host.
pub(crate) fn broadcast_s<H: HostNumerics>(host: &H, op: FoldOp, a: &Vec<u32>, b: &Vec<u32>) -> (out: Vec<u32>)
    requires
        a@.len() > 0,
        b@.len() > 0,
    ensures
        out@.len() == broadcast_width(a@.len(), b@.len()),
{
    let n: usize = if a.len() >= b.len() {
        a.len()
    } else {
        b.len()
    };
    let mut out: Vec<u32> = Vec::new();
    let mut k: usize = 0;
    while k < n
        invariant
            a@.len() > 0,
            b@.len() > 0,
            k <= n,
            out@.len() == k,
        decreases n - k,
    {
        out.push(exec_elem_s(host, op, a[k % a.len()], b[k % b.len()]));
        k += 1;
    }
    out
}

/// Broadcast `op` over two double-precision lanes, through the host.
pub(crate) fn broadcast_d<H: HostNumerics>(host: &H, op: FoldOp, a: &Vec<u64>, b: &Vec<u64>) -> (out: Vec<u64>)
    requires
        a@.len() > 0,
        b@.len() > 0,
    ensures
        out@.len() == broadcast_width(a@.len(), b@.len()),
{
    let n: usize = if a.len() >= b.len() {
        a.len()
    } else {
        b.len()
    };
    let mut out: Vec<u64> = Vec::new();
    let mut k: usize = 0;
    while k < n
        invariant
            a@.len() > 0,
            b@.len() > 0,
            k <= n,
            out@.len() == k,
        decreases n - k,
    {
        out.push(exec_elem_d(host, op, a[k % a.len()], b[k % b.len()]));
        k += 1;
    }
    out
}

impl Constant {
    /// Apply one broadcasting element-wise operation to two constants.
    ///
    /// The `host` performs the arithmetic of any floating-point lane.
    pub fn fold<H: HostNumerics>(&self, op: FoldOp, other: &Constant, host: &H) -> (r: Result<
        Constant,
        ConstantFoldingError,
    >)
        requires
            fold_div_safe(op, self, other),
        ensures
            fold_post(op, self, other, &r),
    {
        if self.width() == 0 || other.width() == 0 {
            return Err(ConstantFoldingError::ZeroWidthConstant);
        }
        let wl = self.width();
        let wr = other.width();
        if wl != wr && wl != 1 && wr != 1 {
            return Err(ConstantFoldingError::IncompatibleWidths);
        }
        match (self, other) {
            (Constant::I32(a), Constant::I32(b)) => {
                if matches!(op, FoldOp::Pow) {
                    Err(ConstantFoldingError::UnsupportedType)
                } else {
                    Ok(Constant::I32(broadcast_i32(op, a, b)))
                }
            },
            (Constant::I64(a), Constant::I64(b)) => {
                if matches!(op, FoldOp::Pow) {
                    Err(ConstantFoldingError::UnsupportedType)
                } else {
                    Ok(Constant::I64(broadcast_i64(op, a, b)))
                }
            },
            (Constant::F32(a), Constant::F32(b)) => Ok(
                Constant::F32(broadcast_s(host, op, a, b)),
            ),
            (Constant::F64(a), Constant::F64(b)) => Ok(
                Constant::F64(broadcast_d(host, op, a, b)),
            ),
            (Constant::Bool(_), Constant::Bool(_)) => Err(ConstantFoldingError::UnsupportedType),
            _ => Err(ConstantFoldingError::IncompatibleTypes),
        }
    }

    pub fn fold_add<H: HostNumerics>(&self, other: &Constant, host: &H) -> (r: Result<
        Constant,
        ConstantFoldingError,
    >)
        ensures
            fold_post(FoldOp::Add, self, other, &r),
    {
        self.fold(FoldOp::Add, other, host)
    }

    pub fn fold_sub<H: HostNumerics>(&self, other: &Constant, host: &H) -> (r: Result<
        Constant,
        ConstantFoldingError,
    >)
        ensures
            fold_post(FoldOp::Sub, self, other, &r),
    {
        self.fold(FoldOp::Sub, other, host)
    }

    pub fn fold_mul<H: HostNumerics>(&self, other: &Constant, host: &H) -> (r: Result<
        Constant,
        ConstantFoldingError,
    >)
        ensures
            fold_post(FoldOp::Mul, self, other, &r),
    {
        self.fold(FoldOp::Mul, other, host)
    }

    pub fn fold_div<H: HostNumerics>(&self, other: &Constant, host: &H) -> (r: Result<
        Constant,
        ConstantFoldingError,
    >)
        requires
            fold_div_safe(FoldOp::Div, self, other),
        ensures
            fold_post(FoldOp::Div, self, other, &r),
    {
        self.fold(FoldOp::Div, other, host)
    }

    pub fn fold_rem<H: HostNumerics>(&self, other: &Constant, host: &H) -> (r: Result<
        Constant,
        ConstantFoldingError,
    >)
        requires
            fold_div_safe(FoldOp::Rem, self, other),
        ensures
            fold_post(FoldOp::Rem, self, other, &r),
    {
        self.fold(FoldOp::Rem, other, host)
    }

    pub fn fold_min<H: HostNumerics>(&self, other: &Constant, host: &H) -> (r: Result<
        Constant,
        ConstantFoldingError,
    >)
        ensures
            fold_post(FoldOp::Min, self, other, &r),
    {
        self.fold(FoldOp::Min, other, host)
    }

    pub fn fold_max<H: HostNumerics>(&self, other: &Constant, host: &H) -> (r: Result<
        Constant,
        ConstantFoldingError,
    >)
        ensures
            fold_post(FoldOp::Max, self, other, &r),
    {
        self.fold(FoldOp::Max, other, host)
    }

    /// Power; supported on floating-point lanes only.
    pub fn fold_pow<H: HostNumerics>(&self, other: &Constant, host: &H) -> (r: Result<
        Constant,
        ConstantFoldingError,
    >)
        ensures
            fold_post(FoldOp::Pow, self, other, &r),
    {
        self.fold(FoldOp::Pow, other, host)
    }

    /// `clamp(x, lo, hi) = max(lo, min(hi, x))`, element-wise with
    /// broadcasting.
    pub fn fold_clamp<H: HostNumerics>(&self, lo: &Constant, hi: &Constant, host: &H) -> (r:
        Result<Constant, ConstantFoldingError>)
        ensures
            match clamp_failure(self, lo, hi) {
                Some(e) => r == Err::<Constant, _>(e),
                None => r matches Ok(out) && exists|m: Constant|
                    is_fold_result(FoldOp::Min, self, hi, &m) && #[trigger] is_fold_result(
                        FoldOp::Max,
                        &m,
                        lo,
                        &out,
                    ),
            },
    {
        let m = match self.fold_min(hi, host) {
            Ok(m) => m,
            Err(e) => {
                return Err(e);
            },
        };
        let r = match m.fold_max(lo, host) {
            Ok(r) => r,
            Err(e) => {
                proof {
                    assert(fold_failure(FoldOp::Max, &m, lo) == clamp_failure(self, lo, hi));
                }
                return Err(e);
            },
        };
        proof {
            assert(is_fold_result(FoldOp::Min, self, hi, &m));
        }
        Ok(r)
    }

    /// Negate every element.  Integer lanes wrap; floating-point lanes flip
    /// the sign bit, which is exact IEEE 754 negation.
    pub fn fold_neg(&self) -> (r: Result<Constant, ConstantFoldingError>)
        ensures
            self.width_spec() == 0 ==> r == Err::<Constant, _>(
                ConstantFoldingError::ZeroWidthConstant,
            ),
            self matches Constant::Bool(_) && self.width_spec() > 0 ==> r == Err::<Constant, _>(
                ConstantFoldingError::UnsupportedType,
            ),
            self.width_spec() > 0 ==> match (self, &r) {
                (Constant::I32(a), Ok(Constant::I32(c))) => c@.len() == a@.len() && (forall|k: int|
                    0 <= k < a@.len() ==> c@[k] == (0i32).wrapping_sub(a@[k])),
                (Constant::I64(a), Ok(Constant::I64(c))) => c@.len() == a@.len() && (forall|k: int|
                    0 <= k < a@.len() ==> c@[k] == (0i64).wrapping_sub(a@[k])),
                (Constant::F32(a), Ok(Constant::F32(c))) => c@.len() == a@.len() && (forall|k: int|
                    0 <= k < a@.len() ==> c@[k] == (a@[k] ^ 0x8000_0000u32)),
                (Constant::F64(a), Ok(Constant::F64(c))) => c@.len() == a@.len() && (forall|k: int|
                    0 <= k < a@.len() ==> c@[k] == (a@[k] ^ 0x8000_0000_0000_0000u64)),
                (Constant::Bool(_), Err(_)) => true,
                _ => false,
            },
    {
        if self.width() == 0 {
            return Err(ConstantFoldingError::ZeroWidthConstant);
        }
        match self {
            Constant::Bool(_) => Err(ConstantFoldingError::UnsupportedType),
            Constant::I32(a) => {
                let mut out: Vec<i32> = Vec::new();
                let mut k: usize = 0;
                while k < a.len()
                    invariant
                        k <= a@.len(),
                        out@.len() == k,
                        forall|j: int| 0 <= j < k ==> out@[j] == (0i32).wrapping_sub(a@[j]),
                    decreases a@.len() - k,
                {
                    out.push((0i32).wrapping_sub(a[k]));
                    k += 1;
                }
                Ok(Constant::I32(out))
            },
            Constant::I64(a) => {
                let mut out: Vec<i64> = Vec::new();
                let mut k: usize = 0;
                while k < a.len()
                    invariant
                        k <= a@.len(),
                        out@.len() == k,
                        forall|j: int| 0 <= j < k ==> out@[j] == (0i64).wrapping_sub(a@[j]),
                    decreases a@.len() - k,
                {
                    out.push((0i64).wrapping_sub(a[k]));
                    k += 1;
                }
                Ok(Constant::I64(out))
            },
            Constant::F32(a) => {
                let mut out: Vec<u32> = Vec::new();
                let mut k: usize = 0;
                while k < a.len()
                    invariant
                        k <= a@.len(),
                        out@.len() == k,
                        forall|j: int| 0 <= j < k ==> out@[j] == (a@[j] ^ 0x8000_0000u32),
                    decreases a@.len() - k,
                {
                    out.push(a[k] ^ 0x8000_0000u32);
                    k += 1;
                }
                Ok(Constant::F32(out))
            },
            Constant::F64(a) => {
                let mut out: Vec<u64> = Vec::new();
                let mut k: usize = 0;
                while k < a.len()
                    invariant
                        k <= a@.len(),
                        out@.len() == k,
                        forall|j: int| 0 <= j < k ==> out@[j] == (a@[j] ^ 0x8000_0000_0000_0000u64),
                    decreases a@.len() - k,
                {
                    out.push(a[k] ^ 0x8000_0000_0000_0000u64);
                    k += 1;
                }
                Ok(Constant::F64(out))
            },
        }
    }
}

} // verus!

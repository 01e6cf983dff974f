//! Vector descriptors: the shape of the data a graph node produces.
//!
//! A vector is a homogeneous fixed-width pack of one primitive; width 1 is a
//! scalar.

use vstd::prelude::*;

verus! {

/// The closed set of primitive kinds.
#[derive(Debug, Eq, PartialEq, Structural, Copy, Clone, Hash)]
pub enum PrimitiveType {
    Bool,
    I32,
    I64,
    /// Most common type for samples.
    F32,
    /// Used where an F32 is too imprecise, for example biquad coefficients.
    F64,
}

impl PrimitiveType {
    /// Short lower-case name, used when rendering diagnostics.
    pub fn label(&self) -> &'static str {
        match self {
            PrimitiveType::Bool => "bool",
            PrimitiveType::I32 => "i32",
            PrimitiveType::I64 => "i64",
            PrimitiveType::F32 => "f32",
            PrimitiveType::F64 => "f64",
        }
    }
}

/// The shape of one vector: a primitive together with a width.
///
/// Width 1 is a scalar.  A zero width is representable but rejected wherever
/// a node carries data; see the unification pass.
#[derive(Debug, Eq, PartialEq, Structural, Copy, Clone)]
pub struct VectorDescriptor {
    pub primitive: PrimitiveType,
    pub width: u64,
}

impl VectorDescriptor {
    pub fn new(primitive: PrimitiveType, width: u64) -> (r: Self)
        ensures
            r == (VectorDescriptor { primitive, width }),
    {
        VectorDescriptor { primitive, width }
    }

    pub fn new_bool(width: u64) -> (r: Self)
        ensures
            r == (VectorDescriptor { primitive: PrimitiveType::Bool, width }),
    {
        VectorDescriptor { primitive: PrimitiveType::Bool, width }
    }

    pub fn new_i32(width: u64) -> (r: Self)
        ensures
            r == (VectorDescriptor { primitive: PrimitiveType::I32, width }),
    {
        VectorDescriptor { primitive: PrimitiveType::I32, width }
    }

    pub fn new_i64(width: u64) -> (r: Self)
        ensures
            r == (VectorDescriptor { primitive: PrimitiveType::I64, width }),
    {
        VectorDescriptor { primitive: PrimitiveType::I64, width }
    }

    pub fn new_f32(width: u64) -> (r: Self)
        ensures
            r == (VectorDescriptor { primitive: PrimitiveType::F32, width }),
    {
        VectorDescriptor { primitive: PrimitiveType::F32, width }
    }

    pub fn new_f64(width: u64) -> (r: Self)
        ensures
            r == (VectorDescriptor { primitive: PrimitiveType::F64, width }),
    {
        VectorDescriptor { primitive: PrimitiveType::F64, width }
    }

    /// Render as `f32` for a scalar or `f32<4>` for a wider vector; used
    /// when building diagnostics.
    pub fn render(&self) -> String {
        let mut out = String::from_str(self.primitive.label());
        if self.width != 1 {
            out.append("<");
            let w_str = self.width.to_string();
            out.append(w_str.as_str());
            out.append(">");
        }
        out
    }
}

} // verus!

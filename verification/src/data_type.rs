//! Data types for graph nodes.

use vstd::prelude::*;

use crate::vector_descriptor::{PrimitiveType, VectorDescriptor};

verus! {

/// The type a graph node resolves to during type inference.
#[derive(Debug, Eq, PartialEq, Structural, Copy, Clone)]
pub enum DataType {
    /// The "no data" type: nodes with this type produce nothing.  Only the
    /// Start and Final boundary nodes resolve to it.
    Never,
    /// Nodes with this type produce vectors.
    Vector(VectorDescriptor),
}

impl DataType {
    pub fn new_vector(prim: PrimitiveType, width: u64) -> (r: Self)
        ensures
            r == DataType::Vector(VectorDescriptor { primitive: prim, width }),
    {
        DataType::Vector(VectorDescriptor::new(prim, width))
    }

    pub fn new_v_bool(width: u64) -> (r: Self)
        ensures
            r == DataType::Vector(VectorDescriptor { primitive: PrimitiveType::Bool, width }),
    {
        Self::new_vector(PrimitiveType::Bool, width)
    }

    pub fn new_v_i32(width: u64) -> (r: Self)
        ensures
            r == DataType::Vector(VectorDescriptor { primitive: PrimitiveType::I32, width }),
    {
        Self::new_vector(PrimitiveType::I32, width)
    }

    pub fn new_v_i64(width: u64) -> (r: Self)
        ensures
            r == DataType::Vector(VectorDescriptor { primitive: PrimitiveType::I64, width }),
    {
        Self::new_vector(PrimitiveType::I64, width)
    }

    pub fn new_v_f32(width: u64) -> (r: Self)
        ensures
            r == DataType::Vector(VectorDescriptor { primitive: PrimitiveType::F32, width }),
    {
        Self::new_vector(PrimitiveType::F32, width)
    }

    pub fn new_v_f64(width: u64) -> (r: Self)
        ensures
            r == DataType::Vector(VectorDescriptor { primitive: PrimitiveType::F64, width }),
    {
        Self::new_vector(PrimitiveType::F64, width)
    }

    /// True exactly for [`DataType::Never`].
    pub fn is_never(&self) -> (r: bool)
        ensures
            r == (*self == DataType::Never),
    {
        matches!(self, DataType::Never)
    }

    /// True exactly for [`DataType::Vector`].
    pub fn is_vector(&self) -> (r: bool)
        ensures
            r == (self matches DataType::Vector(_)),
    {
        matches!(self, DataType::Vector(_))
    }
}

} // verus!

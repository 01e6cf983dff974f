//! The instruction IR's type system.
//!
//! A type is a primitive with two dimensions: a vector width and a buffer
//! length, both at least 1.  Anything with both dimensions 1 is a scalar;
//! width above 1 with length 1 is a vector; length above 1 is a buffer
//! (persistent multi-frame storage such as a delay line).

use vstd::prelude::*;

verus! {

/// Primitive kinds of the instruction IR.
#[derive(Debug, Eq, PartialEq, Structural, Hash, Copy, Clone)]
pub enum Primitive {
    I32,
    I64,
    F32,
    F64,
    Bool,
}

/// Ways a type cannot be constructed.
#[derive(Debug, Eq, PartialEq, Structural, Copy, Clone)]
pub enum TypeError {
    /// The vector width must be at least 1.
    ZeroVectorWidth,
    /// The buffer length must be at least 1.
    ZeroBufferLength,
}

/// Description of a type: a primitive, a vector width and a buffer length,
/// both nonzero.
#[derive(Debug, Eq, PartialEq, Structural, Hash, Copy, Clone)]
pub struct Type {
    primitive: Primitive,
    vector_width: u64,
    buffer_length: u64,
}

impl Type {
    /// Both dimensions are always at least 1.
    #[verifier::type_invariant]
    pub closed spec fn inv(&self) -> bool {
        self.vector_width >= 1 && self.buffer_length >= 1
    }

    pub closed spec fn primitive_spec(&self) -> Primitive {
        self.primitive
    }

    pub closed spec fn vector_width_spec(&self) -> u64 {
        self.vector_width
    }

    pub closed spec fn buffer_length_spec(&self) -> u64 {
        self.buffer_length
    }

    pub fn new(primitive: Primitive, vector_width: u64, buffer_length: u64) -> (r: Result<
        Type,
        TypeError,
    >)
        ensures
            vector_width == 0 ==> r == Err::<Type, _>(TypeError::ZeroVectorWidth),
            vector_width > 0 && buffer_length == 0 ==> r == Err::<Type, _>(
                TypeError::ZeroBufferLength,
            ),
            vector_width > 0 && buffer_length > 0 ==> (r matches Ok(t) && t.primitive_spec()
                == primitive && t.vector_width_spec() == vector_width && t.buffer_length_spec()
                == buffer_length),
    {
        if vector_width == 0 {
            return Err(TypeError::ZeroVectorWidth);
        }
        if buffer_length == 0 {
            return Err(TypeError::ZeroBufferLength);
        }
        Ok(Type { primitive, vector_width, buffer_length })
    }

    /// A type with buffer length 1.
    pub fn new_vector(primitive: Primitive, vector_width: u64) -> (r: Result<Type, TypeError>)
        ensures
            vector_width == 0 ==> r == Err::<Type, _>(TypeError::ZeroVectorWidth),
            vector_width > 0 ==> (r matches Ok(t) && t.primitive_spec() == primitive
                && t.vector_width_spec() == vector_width && t.buffer_length_spec() == 1),
    {
        Type::new(primitive, vector_width, 1)
    }

    /// The scalar type of a primitive, at the spec level.
    pub closed spec fn scalar_spec(primitive: Primitive) -> Type {
        Type { primitive, vector_width: 1, buffer_length: 1 }
    }

    /// A type with both dimensions 1.
    pub fn new_scalar(primitive: Primitive) -> (r: Result<Type, TypeError>)
        ensures
            r matches Ok(t) && t == Type::scalar_spec(primitive) && t.primitive_spec() == primitive
                && t.vector_width_spec() == 1 && t.buffer_length_spec() == 1,
    {
        Type::new(primitive, 1, 1)
    }

    /// True if this is a scalar: both dimensions 1.
    pub fn is_scalar(&self) -> (r: bool)
        ensures
            r == (self.vector_width_spec() == 1 && self.buffer_length_spec() == 1),
    {
        self.vector_width == 1 && self.buffer_length == 1
    }

    /// True if this is a vector: width above 1, buffer length 1.
    pub fn is_vector(&self) -> (r: bool)
        ensures
            r == (self.vector_width_spec() > 1 && self.buffer_length_spec() == 1),
    {
        self.vector_width > 1 && self.buffer_length == 1
    }

    /// True if this describes a buffer: any width, length above 1.
    pub fn is_buffer(&self) -> (r: bool)
        ensures
            r == (self.buffer_length_spec() > 1),
    {
        self.buffer_length > 1
    }

    pub fn get_primitive(&self) -> (r: Primitive)
        ensures
            r == self.primitive_spec(),
    {
        self.primitive
    }

    pub fn get_vector_width(&self) -> (r: u64)
        ensures
            r == self.vector_width_spec(),
            r >= 1,
    {
        proof {
            use_type_invariant(self);
        }
        self.vector_width
    }

    pub fn get_buffer_length(&self) -> (r: u64)
        ensures
            r == self.buffer_length_spec(),
            r >= 1,
    {
        proof {
            use_type_invariant(self);
        }
        self.buffer_length
    }
}

} // verus!

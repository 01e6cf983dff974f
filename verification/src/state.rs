//! Declared states of a program.

use vstd::prelude::*;

use crate::vector_descriptor::VectorDescriptor;

verus! {

/// A state is a writable memory location that persists between samples,
/// usually read with a modulus as a delay line.
#[derive(Debug, Clone)]
pub struct State {
    /// The kind of data one frame of this state holds.
    pub vector: VectorDescriptor,
    /// How many frames this state holds; at least 1.
    pub length: u64,
}

} // verus!

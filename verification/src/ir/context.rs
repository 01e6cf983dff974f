//! The context: arenas for constants, values, states and instructions,
//! the external tables, and the ordered instruction schedule.
//!
//! Handles are opaque dense indices; nothing is ever deleted, so a handle
//! stays valid for its context's lifetime, and all resolution is fallible
//! with a typed error rather than undefined behaviour.

use vstd::prelude::*;

use crate::constant::Constant;
use crate::host::HostNumerics;
use crate::ir::instruction::Instruction;
use crate::ir::types::{Primitive, Type};

verus! {

/// Resolution failed due to an out-of-range index into the values table.
#[derive(Debug, Eq, PartialEq, Structural, Copy, Clone)]
pub struct ValueResolutionFailed;

/// Resolution failed due to an out-of-range index into the constants table.
#[derive(Debug, Eq, PartialEq, Structural, Copy, Clone)]
pub struct ConstantResolutionFailed;

/// The state reference could not be resolved against this context.
#[derive(Debug, Eq, PartialEq, Structural, Copy, Clone)]
pub struct StateResolutionFailed;

/// The instruction reference could not be resolved against this context.
#[derive(Debug, Eq, PartialEq, Structural, Copy, Clone)]
pub struct InstructionResolutionFailure;

/// Ways a context cannot be constructed or extended.
#[derive(Debug, Eq, PartialEq, Structural, Copy, Clone)]
pub enum ContextError {
    /// The block size may not be 0.
    ZeroBlockSize,
    /// Block sizes must be a power of two.
    NonPowerOfTwoBlockSize,
    /// Inputs must not be buffers.
    BufferInput,
    /// Outputs must not be buffers.
    BufferOutput,
    /// Properties may currently only be scalar f64.
    UnsupportedPropertyType,
}

/// A reference to a value: the output of one instruction, or a constant.
#[derive(Debug, Eq, PartialEq, Structural, Copy, Clone, Hash)]
pub struct ValueRef {
    pub index: usize,
}

/// A reference to a constant in the constant table.
#[derive(Debug, Eq, PartialEq, Structural, Copy, Clone)]
pub struct ConstantRef {
    pub index: usize,
}

/// A reference to a state: memory that persists between block iterations.
#[derive(Debug, Eq, PartialEq, Structural, Copy, Clone, Hash)]
pub struct StateRef {
    pub index: usize,
}

/// A reference to an instruction.
#[derive(Debug, Eq, PartialEq, Structural, Copy, Clone)]
pub struct InstRef {
    pub index: usize,
}

/// The two kinds of values.
#[derive(Debug, Eq, PartialEq, Structural, Copy, Clone)]
pub enum ValueKind {
    /// A constant, with its index into the constants table.
    Constant(ConstantRef),
    /// Produced by an instruction.
    Computed,
}

/// What the context knows of one value.
#[derive(Debug, Eq, PartialEq, Structural, Copy, Clone)]
pub struct ValueDescriptor {
    pub kind: ValueKind,
    pub value_type: Type,
}

/// What the context knows of one state.
#[derive(Debug, Eq, PartialEq, Structural, Copy, Clone)]
pub struct StateDescriptor {
    pub state_type: Type,
}

impl StateDescriptor {
    pub fn get_type(&self) -> (r: Type)
        ensures
            r == self.state_type,
    {
        self.state_type
    }
}

/// Is `n` a power of two (and nonzero)?
pub open spec fn is_power_of_two(n: usize) -> bool {
    n >= 1 && (n & ((n - 1) as usize)) == 0
}

/// The context owns every arena and table of one program.
#[derive(Debug)]
pub struct Context {
    pub constants: Vec<Constant>,
    pub values: Vec<ValueDescriptor>,
    pub states: Vec<StateDescriptor>,
    pub instructions: Vec<Instruction>,
    /// The program's final execution order of instructions.
    pub program: Vec<InstRef>,
    pub block_size: usize,
    pub sample_rate: u64,
    pub inputs: Vec<Type>,
    pub outputs: Vec<Type>,
    pub properties: Vec<Type>,
}

impl Context {
    /// The construction invariant: the block size is a power of two, every
    /// constant-kind value points into the constant table, inputs and
    /// outputs are not buffers, properties are scalar f64, and the schedule
    /// lists exactly the instructions in creation order.
    pub open spec fn wf(&self) -> bool {
        &&& is_power_of_two(self.block_size)
        &&& forall|k: int|
            0 <= k < self.values@.len() ==> ((#[trigger] self.values@[k]).kind matches ValueKind::Constant(c)
                ==> c.index < self.constants@.len())
        &&& forall|k: int|
            0 <= k < self.inputs@.len() ==> (#[trigger] self.inputs@[k]).buffer_length_spec() == 1
        &&& forall|k: int|
            0 <= k < self.outputs@.len() ==> (#[trigger] self.outputs@[k]).buffer_length_spec()
                == 1
        &&& forall|k: int|
            0 <= k < self.properties@.len() ==> (#[trigger] self.properties@[k]).primitive_spec()
                == Primitive::F64 && self.properties@[k].vector_width_spec() == 1
                && self.properties@[k].buffer_length_spec() == 1
        &&& self.program@.len() == self.instructions@.len()
        &&& forall|k: int|
            0 <= k < self.program@.len() ==> (#[trigger] self.program@[k]).index == k
    }

    /// A fresh context; the block size must be a nonzero power of two.
    pub fn new(sample_rate: u64, block_size: usize) -> (r: Result<Context, ContextError>)
        ensures
            block_size == 0 ==> r == Err::<Context, _>(ContextError::ZeroBlockSize),
            block_size > 0 && !is_power_of_two(block_size) ==> r == Err::<Context, _>(
                ContextError::NonPowerOfTwoBlockSize,
            ),
            is_power_of_two(block_size) ==> (r matches Ok(c) && c.wf() && c.block_size
                == block_size && c.sample_rate == sample_rate && c.constants@.len() == 0
                && c.values@.len() == 0 && c.states@.len() == 0 && c.instructions@.len() == 0
                && c.program@.len() == 0 && c.inputs@.len() == 0 && c.outputs@.len() == 0
                && c.properties@.len() == 0),
    {
        if block_size == 0 {
            return Err(ContextError::ZeroBlockSize);
        }
        if block_size & (block_size - 1) != 0 {
            return Err(ContextError::NonPowerOfTwoBlockSize);
        }
        Ok(
            Context {
                constants: Vec::new(),
                values: Vec::new(),
                states: Vec::new(),
                instructions: Vec::new(),
                program: Vec::new(),
                block_size,
                sample_rate,
                inputs: Vec::new(),
                outputs: Vec::new(),
                properties: Vec::new(),
            },
        )
    }

    /// Declare a new input and return its index; inputs must not be
    /// buffers.
    pub fn declare_input(&mut self, input_type: Type) -> (r: Result<usize, ContextError>)
        requires
            old(self).wf(),
        ensures
            final(self).wf(),
            input_type.buffer_length_spec() > 1 ==> r == Err::<usize, _>(ContextError::BufferInput)
                && *final(self) == *old(self),
            input_type.buffer_length_spec() <= 1 ==> r == Ok::<_, ContextError>(
                old(self).inputs@.len() as usize,
            ) && *final(self) == (Context { inputs: final(self).inputs, ..*old(self) }) && final(self).inputs@ == old(self).inputs@.push(input_type),
    {
        let buffer_length = input_type.get_buffer_length();
        if buffer_length > 1 {
            return Err(ContextError::BufferInput);
        }
        self.inputs.push(input_type);
        Ok(self.inputs.len() - 1)
    }

    /// Declare a new output and return its index; outputs must not be
    /// buffers.
    pub fn declare_output(&mut self, output_type: Type) -> (r: Result<usize, ContextError>)
        requires
            old(self).wf(),
        ensures
            final(self).wf(),
            output_type.buffer_length_spec() > 1 ==> r == Err::<usize, _>(
                ContextError::BufferOutput,
            ) && *final(self) == *old(self),
            output_type.buffer_length_spec() <= 1 ==> r == Ok::<_, ContextError>(
                old(self).outputs@.len() as usize,
            ) && *final(self) == (Context { outputs: final(self).outputs, ..*old(self) }) && final(self).outputs@ == old(self).outputs@.push(output_type),
    {
        let buffer_length = output_type.get_buffer_length();
        if buffer_length > 1 {
            return Err(ContextError::BufferOutput);
        }
        self.outputs.push(output_type);
        Ok(self.outputs.len() - 1)
    }

    /// Declare a property and return its index.  The type argument is for
    /// future-proofing and must currently be a scalar f64.
    pub fn new_property(&mut self, prop_type: Type) -> (r: Result<usize, ContextError>)
        requires
            old(self).wf(),
        ensures
            final(self).wf(),
            !(prop_type.primitive_spec() == Primitive::F64 && prop_type.vector_width_spec() == 1
                && prop_type.buffer_length_spec() == 1) ==> r == Err::<usize, _>(
                ContextError::UnsupportedPropertyType,
            ) && *final(self) == *old(self),
            prop_type.primitive_spec() == Primitive::F64 && prop_type.vector_width_spec() == 1
                && prop_type.buffer_length_spec() == 1 ==> r == Ok::<_, ContextError>(
                old(self).properties@.len() as usize,
            ) && *final(self) == (Context { properties: final(self).properties, ..*old(self) })
                && final(self).properties@ == old(self).properties@.push(prop_type),
    {
        let is_scalar_f64 = matches!(prop_type.get_primitive(), Primitive::F64)
            && prop_type.get_vector_width() == 1 && prop_type.get_buffer_length() == 1;
        if !is_scalar_f64 {
            return Err(ContextError::UnsupportedPropertyType);
        }
        self.properties.push(prop_type);
        Ok(self.properties.len() - 1)
    }

    pub fn get_input_type(&self, index: usize) -> (r: Option<Type>)
        ensures
            index < self.inputs@.len() ==> r == Some(self.inputs@[index as int]),
            index >= self.inputs@.len() ==> r is None,
    {
        if index < self.inputs.len() {
            Some(self.inputs[index])
        } else {
            None
        }
    }

    pub fn get_num_inputs(&self) -> (r: usize)
        ensures
            r == self.inputs@.len(),
    {
        self.inputs.len()
    }

    pub fn get_output_type(&self, index: usize) -> (r: Option<Type>)
        ensures
            index < self.outputs@.len() ==> r == Some(self.outputs@[index as int]),
            index >= self.outputs@.len() ==> r is None,
    {
        if index < self.outputs.len() {
            Some(self.outputs[index])
        } else {
            None
        }
    }

    pub fn get_num_outputs(&self) -> (r: usize)
        ensures
            r == self.outputs@.len(),
    {
        self.outputs.len()
    }

    pub fn get_property_type(&self, index: usize) -> (r: Option<Type>)
        ensures
            index < self.properties@.len() ==> r == Some(self.properties@[index as int]),
            index >= self.properties@.len() ==> r is None,
    {
        if index < self.properties.len() {
            Some(self.properties[index])
        } else {
            None
        }
    }

    pub fn get_num_properties(&self) -> (r: usize)
        ensures
            r == self.properties@.len(),
    {
        self.properties.len()
    }

    pub fn get_block_size(&self) -> (r: usize)
        ensures
            r == self.block_size,
    {
        self.block_size
    }

    pub fn get_sample_rate(&self) -> (r: u64)
        ensures
            r == self.sample_rate,
    {
        self.sample_rate
    }

    /// Add a constant to the constant table.
    pub fn new_constant(&mut self, constant: Constant) -> (r: ConstantRef)
        requires
            old(self).wf(),
        ensures
            final(self).wf(),
            final(self).constants@ == old(self).constants@.push(constant),
            *final(self) == (Context { constants: final(self).constants, ..*old(self) }),
            r.index == old(self).constants@.len(),
    {
        self.constants.push(constant);
        ConstantRef { index: self.constants.len() - 1 }
    }

    /// Allocate a value suitable for being the output of an instruction.
    pub fn new_value(&mut self, value_type: Type) -> (r: ValueRef)
        requires
            old(self).wf(),
        ensures
            final(self).wf(),
            final(self).values@ == old(self).values@.push(
                ValueDescriptor { kind: ValueKind::Computed, value_type },
            ),
            *final(self) == (Context { values: final(self).values, ..*old(self) }),
            r.index == old(self).values@.len(),
    {
        self.values.push(ValueDescriptor { kind: ValueKind::Computed, value_type });
        ValueRef { index: self.values.len() - 1 }
    }

    /// Create a value for a constant already in the constant table.
    pub fn new_value_const_ref(&mut self, value_type: Type, const_ref: ConstantRef) -> (r:
        ValueRef)
        requires
            old(self).wf(),
            const_ref.index < old(self).constants@.len(),
        ensures
            final(self).wf(),
            final(self).values@ == old(self).values@.push(
                ValueDescriptor { kind: ValueKind::Constant(const_ref), value_type },
            ),
            *final(self) == (Context { values: final(self).values, ..*old(self) }),
            r.index == old(self).values@.len(),
    {
        self.values.push(ValueDescriptor { kind: ValueKind::Constant(const_ref), value_type });
        ValueRef { index: self.values.len() - 1 }
    }

    /// Create a value with a given constant, adding the constant to the
    /// table.
    pub fn new_value_const(&mut self, value_type: Type, constant: Constant) -> (r: ValueRef)
        requires
            old(self).wf(),
        ensures
            final(self).wf(),
            final(self).constants@ == old(self).constants@.push(constant),
            final(self).values@.len() == old(self).values@.len() + 1,
            final(self).values@ == old(self).values@.push(
                ValueDescriptor {
                    kind: ValueKind::Constant(ConstantRef { index: old(self).constants@.len() as usize }),
                    value_type,
                },
            ),
            final(self).states@ == old(self).states@,
            final(self).instructions@ == old(self).instructions@,
            final(self).program@ == old(self).program@,
            final(self).inputs@ == old(self).inputs@,
            final(self).outputs@ == old(self).outputs@,
            final(self).properties@ == old(self).properties@,
            final(self).block_size == old(self).block_size,
            final(self).sample_rate == old(self).sample_rate,
            r.index == old(self).values@.len(),
    {
        let nc = self.new_constant(constant);
        self.new_value_const_ref(value_type, nc)
    }

    /// Add a state; states persist across block iterations.
    pub fn new_state(&mut self, state_type: Type) -> (r: StateRef)
        requires
            old(self).wf(),
        ensures
            final(self).wf(),
            final(self).states@ == old(self).states@.push(StateDescriptor { state_type }),
            *final(self) == (Context { states: final(self).states, ..*old(self) }),
            r.index == old(self).states@.len(),
    {
        self.states.push(StateDescriptor { state_type });
        StateRef { index: self.states.len() - 1 }
    }

    /// Append an instruction to the arena and to the schedule.
    pub fn new_instruction(&mut self, inst: Instruction) -> (r: InstRef)
        requires
            old(self).wf(),
        ensures
            final(self).wf(),
            final(self).instructions@ == old(self).instructions@.push(inst),
            final(self).program@ == old(self).program@.push(
                InstRef { index: old(self).instructions@.len() as usize },
            ),
            final(self).values@ == old(self).values@,
            final(self).constants@ == old(self).constants@,
            final(self).states@ == old(self).states@,
            final(self).inputs@ == old(self).inputs@,
            final(self).outputs@ == old(self).outputs@,
            final(self).properties@ == old(self).properties@,
            final(self).block_size == old(self).block_size,
            final(self).sample_rate == old(self).sample_rate,
            r.index == old(self).instructions@.len(),
    {
        self.instructions.push(inst);
        let x = InstRef { index: self.instructions.len() - 1 };
        self.program.push(x);
        x
    }
}

impl ValueRef {
    /// The value's descriptor; fails on a stale handle.
    pub fn resolve<'a>(&self, context: &'a Context) -> (r: Result<
        &'a ValueDescriptor,
        ValueResolutionFailed,
    >)
        ensures
            self.index < context.values@.len() ==> (r matches Ok(d) && *d
                == context.values@[self.index as int]),
            self.index >= context.values@.len() ==> r is Err,
    {
        if self.index < context.values.len() {
            Ok(&context.values[self.index])
        } else {
            Err(ValueResolutionFailed)
        }
    }

    pub fn get_type(&self, context: &Context) -> (r: Result<Type, ValueResolutionFailed>)
        ensures
            self.index < context.values@.len() ==> r == Ok::<_, ValueResolutionFailed>(
                context.values@[self.index as int].value_type,
            ),
            self.index >= context.values@.len() ==> r is Err,
    {
        let d = self.resolve(context)?;
        Ok(d.value_type)
    }

    /// Is this value a constant?
    pub fn is_constant(&self, context: &Context) -> (r: Result<bool, ValueResolutionFailed>)
        ensures
            self.index < context.values@.len() ==> r == Ok::<_, ValueResolutionFailed>(
                context.values@[self.index as int].kind matches ValueKind::Constant(_),
            ),
            self.index >= context.values@.len() ==> r is Err,
    {
        let d = self.resolve(context)?;
        Ok(matches!(d.kind, ValueKind::Constant(_)))
    }

    /// The constant behind this value, if it is one.
    pub fn get_constant(&self, context: &Context) -> (r: Result<
        Option<ConstantRef>,
        ValueResolutionFailed,
    >)
        ensures
            self.index < context.values@.len() ==> r == Ok::<_, ValueResolutionFailed>(
                match context.values@[self.index as int].kind {
                    ValueKind::Constant(c) => Some(c),
                    ValueKind::Computed => None,
                },
            ),
            self.index >= context.values@.len() ==> r is Err,
    {
        let d = self.resolve(context)?;
        match d.kind {
            ValueKind::Computed => Ok(None),
            ValueKind::Constant(x) => Ok(Some(x)),
        }
    }
}

impl ConstantRef {
    /// The constant itself; fails on a stale handle.
    pub fn resolve<'a>(&self, context: &'a Context) -> (r: Result<
        &'a Constant,
        ConstantResolutionFailed,
    >)
        ensures
            self.index < context.constants@.len() ==> (r matches Ok(c) && *c
                == context.constants@[self.index as int]),
            self.index >= context.constants@.len() ==> r is Err,
    {
        if self.index < context.constants.len() {
            Ok(&context.constants[self.index])
        } else {
            Err(ConstantResolutionFailed)
        }
    }

    /// The elements as `i64`s, when the constant is integral.
    pub fn as_integral(&self, ctx: &Context) -> (r: Result<
        Option<Vec<i64>>,
        ConstantResolutionFailed,
    >)
        ensures
            self.index >= ctx.constants@.len() ==> r is Err,
    {
        let c = self.resolve(ctx)?;
        Ok(c.as_integral())
    }

    /// The elements, when the constant is boolean.
    pub fn as_boolean(&self, ctx: &Context) -> (r: Result<
        Option<Vec<bool>>,
        ConstantResolutionFailed,
    >)
        ensures
            self.index >= ctx.constants@.len() ==> r is Err,
    {
        let c = self.resolve(ctx)?;
        Ok(c.as_boolean())
    }

    /// The elements as double-precision bit patterns, when the constant is
    /// floating point.
    pub fn as_float<H: HostNumerics>(&self, ctx: &Context, host: &H) -> (r: Result<
        Option<Vec<u64>>,
        ConstantResolutionFailed,
    >)
        ensures
            self.index >= ctx.constants@.len() ==> r is Err,
    {
        let c = self.resolve(ctx)?;
        Ok(c.as_float(host))
    }
}

impl StateRef {
    /// The state's type; fails on a stale handle.
    pub fn get_type(&self, context: &Context) -> (r: Result<Type, StateResolutionFailed>)
        ensures
            self.index < context.states@.len() ==> r == Ok::<_, StateResolutionFailed>(
                context.states@[self.index as int].state_type,
            ),
            self.index >= context.states@.len() ==> r is Err,
    {
        if self.index < context.states.len() {
            Ok(context.states[self.index].state_type)
        } else {
            Err(StateResolutionFailed)
        }
    }
}

impl InstRef {
    /// The instruction itself; fails on a stale handle.
    pub fn get_instruction<'a>(&self, ctx: &'a Context) -> (r: Result<
        &'a Instruction,
        InstructionResolutionFailure,
    >)
        ensures
            self.index < ctx.instructions@.len() ==> (r matches Ok(i) && *i
                == ctx.instructions@[self.index as int]),
            self.index >= ctx.instructions@.len() ==> r is Err,
    {
        if self.index < ctx.instructions.len() {
            Ok(&ctx.instructions[self.index])
        } else {
            Err(InstructionResolutionFailure)
        }
    }
}

} // verus!

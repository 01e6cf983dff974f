//! Operations carried by graph nodes, and their static descriptors.
//!
//! Each operation kind has one [`OpDescriptor`] describing its input slots,
//! its commutativity, and which implicit boundary edge the Start/Final pass
//! gives it.  Expressing these rules declaratively — not as ad-hoc branches
//! scattered across passes — is deliberate: both structural passes consume
//! this table.

use vstd::prelude::*;

use crate::constant::Constant;
use crate::vector_descriptor::PrimitiveType;

verus! {

/// Binary arithmetic operations on graph nodes.
#[derive(Debug, Eq, PartialEq, Structural, Copy, Clone)]
pub enum BinOp {
    Add,
    Sub,
    Mul,
    Div,
}

/// The operation kind of a node.
#[derive(Debug, Clone)]
pub enum Op {
    /// A vector constant.
    Constant(Constant),
    Negate,
    BinOp(BinOp),
    /// Read the given input.
    ReadInput(usize),
    /// Write the given output.
    WriteOutput(usize),
    /// Read a property.
    ReadProperty(usize),
    /// Read a state at the given offset; reads wrap modulo the state length.
    ReadState { state: usize, modulus: i64 },
    /// Write a state at the given offset, wrapping the same way.
    WriteState { state: usize, modulus: i64 },
    /// Read the clock, an i64 integer that increments every sample.
    Clock,
    /// Read the sample rate.
    Sr,
    /// Cast the only input to the given primitive type.
    Cast(PrimitiveType),
    /// The synthetic entry node; exactly one per program.
    Start,
    /// The synthetic exit node; exactly one per program.  Side-effecting
    /// nodes hook onto it, and it cares nothing for its input types.
    Final,
}

/// Which implicit boundary edge the Start/Final pass owes a node.
#[derive(Debug, Eq, PartialEq, Structural, Copy, Clone)]
pub enum ImplicitEdgeKind {
    /// All edges for this node must be declared by the user.
    NoEdges,
    /// The node implicitly connects from the start node.
    Start,
    /// The node implicitly connects to the final node.
    Final,
}

/// What kind of data an input slot carries.
#[derive(Debug, Eq, PartialEq, Structural, Copy, Clone)]
pub enum InputKind {
    /// The edge carries data and must type check.
    Data,
    /// The edge is a pure dependency (for example the implicit edge from
    /// Start); it does not care about types.
    PureDependency,
}

/// Description of one input slot of an operation.
#[derive(Debug, Clone)]
pub struct InputDescriptor {
    pub input_kind: InputKind,
    /// All primitives are allowed unless listed here; for example arithmetic
    /// rejects booleans.
    pub denied_primitives: Option<Vec<PrimitiveType>>,
}

/// The static description of one operation kind.
#[derive(Debug, Clone)]
pub struct OpDescriptor {
    /// Is this operator commutative (`a op b == b op a`)?  We use a relaxed
    /// model that treats floating-point operations as commutative.
    pub commutative: bool,
    /// Which implicit boundary edge the Start/Final pass gives this node.
    pub implicit_edges: ImplicitEdgeKind,
    pub inputs: Vec<InputDescriptor>,
}

/// Only Add and Mul are commutative.
pub open spec fn op_commutative(op: &Op) -> bool {
    op matches Op::BinOp(o) && (o == BinOp::Add || o == BinOp::Mul)
}

/// The implicit-edge classification of every operation kind.
pub open spec fn op_implicit_edges(op: &Op) -> ImplicitEdgeKind {
    match op {
        Op::Start | Op::Final => ImplicitEdgeKind::NoEdges,
        Op::ReadInput(_) | Op::ReadProperty(_) | Op::Constant(_) | Op::Clock | Op::Sr
            => ImplicitEdgeKind::Start,
        Op::Negate | Op::BinOp(_) | Op::Cast(_) | Op::ReadState { .. } => ImplicitEdgeKind::NoEdges,
        Op::WriteOutput(_) | Op::WriteState { .. } => ImplicitEdgeKind::Final,
    }
}

/// Does this operation deny booleans on its data inputs?
pub open spec fn op_denies_bool(op: &Op) -> bool {
    op matches Op::BinOp(_) || op matches Op::Negate
}

/// What every descriptor entry must look like for its operation.
pub open spec fn is_descriptor_for(op: &Op, d: &OpDescriptor) -> bool {
    &&& d.commutative == op_commutative(op)
    &&& d.implicit_edges == op_implicit_edges(op)
    &&& d.inputs@.len() == match op {
        Op::Start | Op::ReadState { .. } => 0nat,
        Op::BinOp(_) => 2nat,
        _ => 1nat,
    }
    &&& forall|k: int|
        0 <= k < d.inputs@.len() ==> (#[trigger] d.inputs@[k].input_kind) == (match op {
            Op::Final | Op::ReadInput(_) | Op::ReadProperty(_) | Op::Constant(_) | Op::Clock
                | Op::Sr => InputKind::PureDependency,
            _ => InputKind::Data,
        })
    &&& forall|k: int|
        0 <= k < d.inputs@.len() ==> if op_denies_bool(op) {
            (#[trigger] d.inputs@[k].denied_primitives) matches Some(v) && v@ =~= seq![
                PrimitiveType::Bool,
            ]
        } else {
            d.inputs@[k].denied_primitives is None
        }
}

/// One data input slot that denies booleans.
fn data_input_no_bool() -> (r: InputDescriptor)
    ensures
        r.input_kind == InputKind::Data,
        r.denied_primitives matches Some(v) && v@ =~= seq![PrimitiveType::Bool],
{
    let denied: Vec<PrimitiveType> = vec![PrimitiveType::Bool];
    InputDescriptor { input_kind: InputKind::Data, denied_primitives: Some(denied) }
}

/// The descriptor of a binary arithmetic operation: two data inputs that
/// deny booleans; commutative exactly for Add and Mul.
pub fn binop_to_descriptor(o: BinOp) -> (r: OpDescriptor)
    ensures
        is_descriptor_for(&Op::BinOp(o), &r),
        r.commutative <==> (o == BinOp::Add || o == BinOp::Mul),
{
    let commutative = matches!(o, BinOp::Add | BinOp::Mul);
    let inputs: Vec<InputDescriptor> = vec![data_input_no_bool(), data_input_no_bool()];
    OpDescriptor { commutative, implicit_edges: ImplicitEdgeKind::NoEdges, inputs }
}

impl Op {
    pub fn is_start(&self) -> (r: bool)
        ensures
            r == (self matches Op::Start),
    {
        matches!(self, Op::Start)
    }

    pub fn is_final(&self) -> (r: bool)
        ensures
            r == (self matches Op::Final),
    {
        matches!(self, Op::Final)
    }

    /// The static descriptor of this operation kind.
    pub fn get_descriptor(&self) -> (r: OpDescriptor)
        ensures
            is_descriptor_for(self, &r),
            r.commutative <==> op_commutative(self),
    {
        match self {
            Op::Start | Op::ReadState { .. } => OpDescriptor {
                commutative: false,
                implicit_edges: ImplicitEdgeKind::NoEdges,
                inputs: Vec::new(),
            },
            Op::ReadInput(_) | Op::ReadProperty(_) | Op::Constant(_) | Op::Clock | Op::Sr => {
                let inputs: Vec<InputDescriptor> = vec![
                    InputDescriptor {
                        input_kind: InputKind::PureDependency,
                        denied_primitives: None,
                    },
                ];
                OpDescriptor { commutative: false, implicit_edges: ImplicitEdgeKind::Start, inputs }
            },
            Op::Final => {
                let inputs: Vec<InputDescriptor> = vec![
                    InputDescriptor {
                        input_kind: InputKind::PureDependency,
                        denied_primitives: None,
                    },
                ];
                OpDescriptor {
                    commutative: false,
                    implicit_edges: ImplicitEdgeKind::NoEdges,
                    inputs,
                }
            },
            Op::BinOp(o) => binop_to_descriptor(*o),
            Op::Negate => {
                let inputs: Vec<InputDescriptor> = vec![data_input_no_bool()];
                OpDescriptor {
                    commutative: false,
                    implicit_edges: ImplicitEdgeKind::NoEdges,
                    inputs,
                }
            },
            Op::Cast(_) => {
                let inputs: Vec<InputDescriptor> = vec![
                    InputDescriptor { input_kind: InputKind::Data, denied_primitives: None },
                ];
                OpDescriptor {
                    commutative: false,
                    implicit_edges: ImplicitEdgeKind::NoEdges,
                    inputs,
                }
            },
            Op::WriteOutput(_) => {
                let inputs: Vec<InputDescriptor> = vec![
                    InputDescriptor { input_kind: InputKind::Data, denied_primitives: None },
                ];
                OpDescriptor { commutative: false, implicit_edges: ImplicitEdgeKind::Final, inputs }
            },
            Op::WriteState { .. } => {
                let inputs: Vec<InputDescriptor> = vec![
                    InputDescriptor { input_kind: InputKind::Data, denied_primitives: None },
                ];
                OpDescriptor { commutative: false, implicit_edges: ImplicitEdgeKind::Final, inputs }
            },
        }
    }
}

} // verus!

//! The operation graph and the program that owns it.
//!
//! A program is a directed graph of operation nodes (edges point from
//! producers to consumers), the external tables (inputs, outputs,
//! properties, states), and the two synthetic boundary nodes Start and
//! Final, created once at construction and never added again.  Node and
//! edge handles are dense indices and stay stable: nothing is ever removed.

use vstd::prelude::*;

use crate::constant::Constant;
use crate::diagnostics::{Diagnostic, DiagnosticBuilder, SingleErrorResult};
use crate::edge::Edge;
use crate::node::Node;
use crate::op::{BinOp, Op};
use crate::source_loc::SourceLoc;
use crate::state::State;
use crate::vector_descriptor::{PrimitiveType, VectorDescriptor};

verus! {

/// Handle of a node in the operation graph: a dense index.
pub type OperationGraphNode = usize;

/// Handle of an edge in the operation graph: a dense index.
pub type OperationGraphEdgeIndex = usize;

/// Ways the program-construction API can be misused.
#[derive(Debug, Eq, PartialEq, Structural, Copy, Clone)]
pub enum ProgramError {
    /// A node handle does not belong to this graph.
    UnknownNode,
    /// The `(source, target, input)` triple already has an edge.
    DuplicateEdge,
    /// Inputs, outputs and state vectors must not be of zero width.
    ZeroWidthVector,
    /// States must hold at least one frame.
    ZeroLengthState,
    /// An input, output, property or state index is out of range.
    IndexOutOfRange,
}

/// One edge of the operation graph: producer, consumer, payload.
#[derive(Debug, Clone)]
pub struct GraphEdge {
    pub source: OperationGraphNode,
    pub target: OperationGraphNode,
    pub payload: Edge,
}

/// A directed multigraph of operation nodes with dense, stable indices.
#[derive(Debug)]
pub struct OperationGraph {
    pub nodes: Vec<Node>,
    pub edges: Vec<GraphEdge>,
}

impl OperationGraph {
    /// Every edge endpoint names a node.
    pub open spec fn edges_wf(&self) -> bool {
        forall|k: int|
            0 <= k < self.edges@.len() ==> (#[trigger] self.edges@[k]).source < self.nodes@.len()
                && self.edges@[k].target < self.nodes@.len()
                && self.edges@[k].payload.input < usize::MAX
    }

    /// Is there an edge from `a` to `b`?
    pub open spec fn has_edge_spec(&self, a: OperationGraphNode, b: OperationGraphNode) -> bool {
        exists|k: int|
            0 <= k < self.edges@.len() && (#[trigger] self.edges@[k]).source == a
                && self.edges@[k].target == b
    }

    /// Is there an edge from `a` into input slot `input` of `b`?
    pub open spec fn has_edge_to_input_spec(
        &self,
        a: OperationGraphNode,
        b: OperationGraphNode,
        input: usize,
    ) -> bool {
        exists|k: int|
            0 <= k < self.edges@.len() && (#[trigger] self.edges@[k]).source == a
                && self.edges@[k].target == b && self.edges@[k].payload.input == input
    }

    pub fn num_nodes(&self) -> (r: usize)
        ensures
            r == self.nodes@.len(),
    {
        self.nodes.len()
    }

    pub fn node_weight(&self, n: OperationGraphNode) -> (r: Option<&Node>)
        ensures
            n < self.nodes@.len() ==> (r matches Some(w) && *w == self.nodes@[n as int]),
            n >= self.nodes@.len() ==> r is None,
    {
        if n < self.nodes.len() {
            Some(&self.nodes[n])
        } else {
            None
        }
    }

    /// Is there an edge from `a` to `b`?
    pub fn contains_edge(&self, a: OperationGraphNode, b: OperationGraphNode) -> (r: bool)
        ensures
            r == self.has_edge_spec(a, b),
    {
        let mut k: usize = 0;
        while k < self.edges.len()
            invariant
                k <= self.edges@.len(),
                forall|j: int|
                    0 <= j < k ==> !((#[trigger] self.edges@[j]).source == a && self.edges@[j].target
                        == b),
            decreases self.edges@.len() - k,
        {
            let e = &self.edges[k];
            if e.source == a && e.target == b {
                return true;
            }
            k += 1;
        }
        false
    }

    /// Is there an edge from `a` into input slot `input` of `b`?
    pub fn contains_edge_to_input(
        &self,
        a: OperationGraphNode,
        b: OperationGraphNode,
        input: usize,
    ) -> (r: bool)
        ensures
            r == self.has_edge_to_input_spec(a, b, input),
    {
        let mut k: usize = 0;
        while k < self.edges.len()
            invariant
                k <= self.edges@.len(),
                forall|j: int|
                    0 <= j < k ==> !((#[trigger] self.edges@[j]).source == a && self.edges@[j].target
                        == b && self.edges@[j].payload.input == input),
            decreases self.edges@.len() - k,
        {
            let e = &self.edges[k];
            if e.source == a && e.target == b && e.payload.input == input {
                return true;
            }
            k += 1;
        }
        false
    }

    /// Add an edge from `a` to `b`; endpoints must be valid.
    pub fn add_edge(&mut self, a: OperationGraphNode, b: OperationGraphNode, payload: Edge)
        requires
            a < old(self).nodes@.len(),
            b < old(self).nodes@.len(),
            payload.input < usize::MAX,
        ensures
            final(self).nodes@ == old(self).nodes@,
            final(self).edges@ == old(self).edges@.push(
                GraphEdge { source: a, target: b, payload },
            ),
    {
        self.edges.push(GraphEdge { source: a, target: b, payload });
    }

}

/// A topological order: every node once, and every edge's source placed
/// before its target.
pub open spec fn is_topological_order(g: &OperationGraph, order: Seq<OperationGraphNode>) -> bool {
    &&& order.len() == g.nodes@.len()
    &&& forall|i: int| 0 <= i < order.len() ==> (#[trigger] order[i]) < g.nodes@.len()
    &&& forall|i: int, j: int| 0 <= i < j < order.len() ==> order[i] != order[j]
    &&& forall|k: int, i: int|
        0 <= k < g.edges@.len() && 0 <= i < order.len() && (#[trigger] order[i]) == (
        #[trigger] g.edges@[k]).target ==> exists|j: int|
            0 <= j < i && order[j] == g.edges@[k].source
}

/// A set of nodes each of which has a predecessor inside the set: the
/// witness that a graph has a cycle.
pub open spec fn is_stuck_set(g: &OperationGraph, r: Set<OperationGraphNode>) -> bool {
    forall|x: OperationGraphNode|
        r.contains(x) ==> exists|k: int|
            0 <= k < g.edges@.len() && (#[trigger] g.edges@[k]).target == x && r.contains(
                g.edges@[k].source,
            )
}

/// The program: external tables, the operation graph, and the two boundary
/// nodes.  External tables are append-only, so the indices handed out on
/// insertion stay stable.
#[derive(Debug)]
pub struct Program {
    pub inputs: Vec<VectorDescriptor>,
    pub outputs: Vec<VectorDescriptor>,
    pub properties: Vec<PrimitiveType>,
    pub states: Vec<State>,
    pub graph: OperationGraph,
    /// The [`Op::Start`] node, created on construction; a second is never
    /// added.
    pub start_node: OperationGraphNode,
    /// The [`Op::Final`] node, created on construction; a second is never
    /// added.
    pub final_node: OperationGraphNode,
}

impl Program {
    /// Well-formedness: the boundary nodes exist, are distinct, are the only
    /// boundary nodes, and every edge endpoint names a node.
    pub open spec fn wf(&self) -> bool {
        &&& self.start_node < self.graph.nodes@.len()
        &&& self.final_node < self.graph.nodes@.len()
        &&& self.start_node != self.final_node
        &&& self.graph.nodes@[self.start_node as int].op matches Op::Start
        &&& self.graph.nodes@[self.final_node as int].op matches Op::Final
        &&& forall|n: int|
            0 <= n < self.graph.nodes@.len() && ((#[trigger] self.graph.nodes@[n].op)
                matches Op::Start) ==> n == self.start_node
        &&& forall|n: int|
            0 <= n < self.graph.nodes@.len() && ((#[trigger] self.graph.nodes@[n].op)
                matches Op::Final) ==> n == self.final_node
        &&& self.graph.edges_wf()
    }

    pub fn new() -> (r: Program)
        ensures
            r.wf(),
            r.inputs@.len() == 0,
            r.outputs@.len() == 0,
            r.properties@.len() == 0,
            r.states@.len() == 0,
            r.graph.nodes@.len() == 2,
            r.graph.edges@.len() == 0,
            r.start_node == 0usize,
            r.final_node == 1usize,
    {
        let mut nodes: Vec<Node> = Vec::new();
        nodes.push(Node { op: Op::Start, source_loc: None });
        nodes.push(Node { op: Op::Final, source_loc: None });
        Program {
            inputs: Vec::new(),
            outputs: Vec::new(),
            properties: Vec::new(),
            states: Vec::new(),
            graph: OperationGraph { nodes, edges: Vec::new() },
            start_node: 0,
            final_node: 1,
        }
    }

    /// Add an input, which must be a nonzero-width vector; returns its
    /// index.
    pub fn add_input(&mut self, primitive: PrimitiveType, width: u64) -> (r: Result<
        usize,
        ProgramError,
    >)
        ensures
            final(self).graph == old(self).graph,
            final(self).start_node == old(self).start_node,
            final(self).final_node == old(self).final_node,
            final(self).outputs@ == old(self).outputs@,
            final(self).properties@ == old(self).properties@,
            final(self).states@ == old(self).states@,
            width == 0 ==> r == Err::<usize, _>(ProgramError::ZeroWidthVector) && final(self).inputs@ == old(self).inputs@,
            width > 0 ==> r == Ok::<_, ProgramError>(old(self).inputs@.len() as usize) && final(self).inputs@ == old(self).inputs@.push(VectorDescriptor { primitive, width }),
    {
        if width == 0 {
            return Err(ProgramError::ZeroWidthVector);
        }
        self.inputs.push(VectorDescriptor { primitive, width });
        Ok(self.inputs.len() - 1)
    }

    /// Add an output, which must be a nonzero-width vector; returns its
    /// index.
    pub fn add_output(&mut self, primitive: PrimitiveType, width: u64) -> (r: Result<
        usize,
        ProgramError,
    >)
        ensures
            final(self).graph == old(self).graph,
            final(self).start_node == old(self).start_node,
            final(self).final_node == old(self).final_node,
            final(self).inputs@ == old(self).inputs@,
            final(self).properties@ == old(self).properties@,
            final(self).states@ == old(self).states@,
            width == 0 ==> r == Err::<usize, _>(ProgramError::ZeroWidthVector) && final(self).outputs@ == old(self).outputs@,
            width > 0 ==> r == Ok::<_, ProgramError>(old(self).outputs@.len() as usize) && final(self).outputs@ == old(self).outputs@.push(VectorDescriptor { primitive, width }),
    {
        if width == 0 {
            return Err(ProgramError::ZeroWidthVector);
        }
        self.outputs.push(VectorDescriptor { primitive, width });
        Ok(self.outputs.len() - 1)
    }

    /// Add a property, a scalar input to the program; returns its index.
    pub fn add_property(&mut self, primitive: PrimitiveType) -> (r: Result<usize, ProgramError>)
        ensures
            final(self).graph == old(self).graph,
            final(self).start_node == old(self).start_node,
            final(self).final_node == old(self).final_node,
            final(self).inputs@ == old(self).inputs@,
            final(self).outputs@ == old(self).outputs@,
            final(self).states@ == old(self).states@,
            r == Ok::<_, ProgramError>(old(self).properties@.len() as usize),
            final(self).properties@ == old(self).properties@.push(primitive),
    {
        self.properties.push(primitive);
        Ok(self.properties.len() - 1)
    }

    /// Add a state holding `length` frames of `width`-wide vectors; returns
    /// its index.
    pub fn add_state(&mut self, primitive: PrimitiveType, width: u64, length: u64) -> (r: Result<
        usize,
        ProgramError,
    >)
        ensures
            final(self).graph == old(self).graph,
            final(self).start_node == old(self).start_node,
            final(self).final_node == old(self).final_node,
            final(self).inputs@ == old(self).inputs@,
            final(self).outputs@ == old(self).outputs@,
            final(self).properties@ == old(self).properties@,
            width == 0 ==> r == Err::<usize, _>(ProgramError::ZeroWidthVector) && final(self).states@ == old(self).states@,
            width > 0 && length == 0 ==> r == Err::<usize, _>(ProgramError::ZeroLengthState)
                && final(self).states@ == old(self).states@,
            width > 0 && length > 0 ==> r == Ok::<_, ProgramError>(old(self).states@.len() as usize)
                && final(self).states@ == old(self).states@.push(
                State { vector: VectorDescriptor { primitive, width }, length },
            ),
    {
        if width == 0 {
            return Err(ProgramError::ZeroWidthVector);
        }
        if length == 0 {
            return Err(ProgramError::ZeroLengthState);
        }
        self.states.push(State { vector: VectorDescriptor { primitive, width }, length });
        Ok(self.states.len() - 1)
    }

    /// Connect a node to the given input of another node.
    ///
    /// Fails if either handle is unknown, or if the `(source, target,
    /// input)` triple already has an edge.  Multiple edges from different
    /// sources into the same input are fine: they implicitly sum.
    pub fn connect(
        &mut self,
        from_node: OperationGraphNode,
        to_node: OperationGraphNode,
        to_input: usize,
        source_loc: Option<SourceLoc>,
    ) -> (r: Result<(), ProgramError>)
        ensures
            final(self).inputs@ == old(self).inputs@,
            final(self).outputs@ == old(self).outputs@,
            final(self).properties@ == old(self).properties@,
            final(self).states@ == old(self).states@,
            final(self).start_node == old(self).start_node,
            final(self).final_node == old(self).final_node,
            final(self).graph.nodes@ == old(self).graph.nodes@,
            old(self).wf() ==> final(self).wf(),
            from_node >= old(self).graph.nodes@.len() || to_node >= old(self).graph.nodes@.len()
                ==> r == Err::<(), _>(ProgramError::UnknownNode) && final(self).graph.edges@ == old(self).graph.edges@,
            from_node < old(self).graph.nodes@.len() && to_node < old(self).graph.nodes@.len()
                && to_input == usize::MAX ==> r == Err::<(), _>(ProgramError::IndexOutOfRange)
                && final(self).graph.edges@ == old(self).graph.edges@,
            from_node < old(self).graph.nodes@.len() && to_node < old(self).graph.nodes@.len()
                && to_input < usize::MAX
                && old(self).graph.has_edge_to_input_spec(from_node, to_node, to_input) ==> r
                == Err::<(), _>(ProgramError::DuplicateEdge) && final(self).graph.edges@ == old(self).graph.edges@,
            from_node < old(self).graph.nodes@.len() && to_node < old(self).graph.nodes@.len()
                && to_input < usize::MAX
                && !old(self).graph.has_edge_to_input_spec(from_node, to_node, to_input) ==> r
                == Ok::<(), ProgramError>(()) && final(self).graph.edges@ == old(self).graph.edges@.push(
                GraphEdge {
                    source: from_node,
                    target: to_node,
                    payload: Edge { input: to_input, source_loc },
                },
            ),
    {
        if from_node >= self.graph.nodes.len() || to_node >= self.graph.nodes.len() {
            return Err(ProgramError::UnknownNode);
        }
        if to_input == usize::MAX {
            // an input index this large could never be materialized into a
            // slot table.
            return Err(ProgramError::IndexOutOfRange);
        }
        if self.graph.contains_edge_to_input(from_node, to_node, to_input) {
            return Err(ProgramError::DuplicateEdge);
        }
        self.graph.add_edge(from_node, to_node, Edge { input: to_input, source_loc });
        Ok(())
    }

    /// Add one non-boundary operation node; returns its handle.
    fn op_node(&mut self, op: Op, source_loc: Option<SourceLoc>) -> (r: OperationGraphNode)
        requires
            !(op matches Op::Start),
            !(op matches Op::Final),
        ensures
            final(self).inputs@ == old(self).inputs@,
            final(self).outputs@ == old(self).outputs@,
            final(self).properties@ == old(self).properties@,
            final(self).states@ == old(self).states@,
            final(self).start_node == old(self).start_node,
            final(self).final_node == old(self).final_node,
            final(self).graph.edges@ == old(self).graph.edges@,
            final(self).graph.nodes@ == old(self).graph.nodes@.push(Node { op, source_loc }),
            r == old(self).graph.nodes@.len(),
            old(self).wf() ==> final(self).wf(),
    {
        let n = Node { op, source_loc };
        self.graph.nodes.push(n);
        self.graph.nodes.len() - 1
    }

    /// Get a cloned source location for a node, if the node exists and has
    /// one.  Used by the diagnostic machinery.
    pub fn cloned_source_loc(&self, node: OperationGraphNode) -> (r: Option<SourceLoc>) {
        if node < self.graph.nodes.len() {
            match &self.graph.nodes[node].source_loc {
                Some(l) => Some(l.clone()),
                None => None,
            }
        } else {
            None
        }
    }
}

impl Default for Program {
    /// A fresh program, as [`Program::new`] builds it.
    fn default() -> (r: Self)
        ensures
            r.wf(),
            r.graph.nodes@.len() == 2,
            r.graph.edges@.len() == 0,
    {
        Program::new()
    }
}

/// Everything but the graph's nodes is unchanged, one node carrying `op`
/// was appended, and `r` is its handle.
pub open spec fn node_added(
    pre: &Program,
    post: &Program,
    op: Op,
    source_loc: Option<SourceLoc>,
    r: OperationGraphNode,
) -> bool {
    &&& post.inputs@ == pre.inputs@
    &&& post.outputs@ == pre.outputs@
    &&& post.properties@ == pre.properties@
    &&& post.states@ == pre.states@
    &&& post.start_node == pre.start_node
    &&& post.final_node == pre.final_node
    &&& post.graph.edges@ == pre.graph.edges@
    &&& post.graph.nodes@ == pre.graph.nodes@.push(Node { op, source_loc })
    &&& r == pre.graph.nodes@.len()
    &&& (pre.wf() ==> post.wf())
}

/// Nothing about the program changed.
pub open spec fn program_unchanged(pre: &Program, post: &Program) -> bool {
    &&& post.inputs@ == pre.inputs@
    &&& post.outputs@ == pre.outputs@
    &&& post.properties@ == pre.properties@
    &&& post.states@ == pre.states@
    &&& post.start_node == pre.start_node
    &&& post.final_node == pre.final_node
    &&& post.graph.edges@ == pre.graph.edges@
    &&& post.graph.nodes@ == pre.graph.nodes@
}

impl Program {
    pub fn op_add_node(&mut self, source_loc: Option<SourceLoc>) -> (r: Result<
        OperationGraphNode,
        ProgramError,
    >)
        ensures
            (r matches Ok(n) && node_added(
                old(self),
                final(self),
                Op::BinOp(BinOp::Add),
                source_loc,
                n,
            )),
    {
        Ok(self.op_node(Op::BinOp(BinOp::Add), source_loc))
    }

    pub fn op_sub_node(&mut self, source_loc: Option<SourceLoc>) -> (r: Result<
        OperationGraphNode,
        ProgramError,
    >)
        ensures
            (r matches Ok(n) && node_added(
                old(self),
                final(self),
                Op::BinOp(BinOp::Sub),
                source_loc,
                n,
            )),
    {
        Ok(self.op_node(Op::BinOp(BinOp::Sub), source_loc))
    }

    pub fn op_mul_node(&mut self, source_loc: Option<SourceLoc>) -> (r: Result<
        OperationGraphNode,
        ProgramError,
    >)
        ensures
            (r matches Ok(n) && node_added(
                old(self),
                final(self),
                Op::BinOp(BinOp::Mul),
                source_loc,
                n,
            )),
    {
        Ok(self.op_node(Op::BinOp(BinOp::Mul), source_loc))
    }

    pub fn op_div_node(&mut self, source_loc: Option<SourceLoc>) -> (r: Result<
        OperationGraphNode,
        ProgramError,
    >)
        ensures
            (r matches Ok(n) && node_added(
                old(self),
                final(self),
                Op::BinOp(BinOp::Div),
                source_loc,
                n,
            )),
    {
        Ok(self.op_node(Op::BinOp(BinOp::Div), source_loc))
    }

    pub fn op_negate_node(&mut self, source_loc: Option<SourceLoc>) -> (r: Result<
        OperationGraphNode,
        ProgramError,
    >)
        ensures
            (r matches Ok(n) && node_added(old(self), final(self), Op::Negate, source_loc, n)),
    {
        Ok(self.op_node(Op::Negate, source_loc))
    }

    pub fn op_clock_node(&mut self, source_loc: Option<SourceLoc>) -> (r: Result<
        OperationGraphNode,
        ProgramError,
    >)
        ensures
            (r matches Ok(n) && node_added(old(self), final(self), Op::Clock, source_loc, n)),
    {
        Ok(self.op_node(Op::Clock, source_loc))
    }

    pub fn op_sr_node(&mut self, source_loc: Option<SourceLoc>) -> (r: Result<
        OperationGraphNode,
        ProgramError,
    >)
        ensures
            (r matches Ok(n) && node_added(old(self), final(self), Op::Sr, source_loc, n)),
    {
        Ok(self.op_node(Op::Sr, source_loc))
    }

    /// Add a node reading the given input; the input must exist.
    pub fn op_read_input_node(&mut self, input: usize, source_loc: Option<SourceLoc>) -> (r:
        Result<OperationGraphNode, ProgramError>)
        ensures
            input >= old(self).inputs@.len() ==> r == Err::<OperationGraphNode, _>(
                ProgramError::IndexOutOfRange,
            ) && program_unchanged(old(self), final(self)),
            input < old(self).inputs@.len() ==> (r matches Ok(n) && node_added(
                old(self),
                final(self),
                Op::ReadInput(input),
                source_loc,
                n,
            )),
    {
        if input >= self.inputs.len() {
            return Err(ProgramError::IndexOutOfRange);
        }
        Ok(self.op_node(Op::ReadInput(input), source_loc))
    }

    /// Add a node reading the given property; the property must exist.
    pub fn op_read_property_node(&mut self, property: usize, source_loc: Option<SourceLoc>) -> (r:
        Result<OperationGraphNode, ProgramError>)
        ensures
            property >= old(self).properties@.len() ==> r == Err::<OperationGraphNode, _>(
                ProgramError::IndexOutOfRange,
            ) && program_unchanged(old(self), final(self)),
            property < old(self).properties@.len() ==> (r matches Ok(n) && node_added(
                old(self),
                final(self),
                Op::ReadProperty(property),
                source_loc,
                n,
            )),
    {
        if property >= self.properties.len() {
            return Err(ProgramError::IndexOutOfRange);
        }
        Ok(self.op_node(Op::ReadProperty(property), source_loc))
    }

    /// Add a node writing the given output; the output must exist.
    pub fn op_write_output_node(&mut self, output: usize, source_loc: Option<SourceLoc>) -> (r:
        Result<OperationGraphNode, ProgramError>)
        ensures
            output >= old(self).outputs@.len() ==> r == Err::<OperationGraphNode, _>(
                ProgramError::IndexOutOfRange,
            ) && program_unchanged(old(self), final(self)),
            output < old(self).outputs@.len() ==> (r matches Ok(n) && node_added(
                old(self),
                final(self),
                Op::WriteOutput(output),
                source_loc,
                n,
            )),
    {
        if output >= self.outputs.len() {
            return Err(ProgramError::IndexOutOfRange);
        }
        Ok(self.op_node(Op::WriteOutput(output), source_loc))
    }

    /// Add a node reading the given state at the given offset; the state
    /// must exist.
    pub fn op_read_state_node(
        &mut self,
        state: usize,
        modulus: i64,
        source_loc: Option<SourceLoc>,
    ) -> (r: Result<OperationGraphNode, ProgramError>)
        ensures
            state >= old(self).states@.len() ==> r == Err::<OperationGraphNode, _>(
                ProgramError::IndexOutOfRange,
            ) && program_unchanged(old(self), final(self)),
            state < old(self).states@.len() ==> (r matches Ok(n) && node_added(
                old(self),
                final(self),
                Op::ReadState { state, modulus },
                source_loc,
                n,
            )),
    {
        if state >= self.states.len() {
            return Err(ProgramError::IndexOutOfRange);
        }
        Ok(self.op_node(Op::ReadState { state, modulus }, source_loc))
    }

    /// Add a node writing the given state at its current frame; the state
    /// must exist.
    pub fn op_write_state_direct_node(&mut self, state: usize, source_loc: Option<SourceLoc>) -> (r:
        Result<OperationGraphNode, ProgramError>)
        ensures
            state >= old(self).states@.len() ==> r == Err::<OperationGraphNode, _>(
                ProgramError::IndexOutOfRange,
            ) && program_unchanged(old(self), final(self)),
            state < old(self).states@.len() ==> (r matches Ok(n) && node_added(
                old(self),
                final(self),
                Op::WriteState { state, modulus: 0 },
                source_loc,
                n,
            )),
    {
        if state >= self.states.len() {
            return Err(ProgramError::IndexOutOfRange);
        }
        Ok(self.op_node(Op::WriteState { state, modulus: 0 }, source_loc))
    }

    pub fn op_cast_node(&mut self, to_ty: PrimitiveType, source_loc: Option<SourceLoc>) -> (r:
        Result<OperationGraphNode, ProgramError>)
        ensures
            (r matches Ok(n) && node_added(old(self), final(self), Op::Cast(to_ty), source_loc, n)),
    {
        Ok(self.op_node(Op::Cast(to_ty), source_loc))
    }

    pub fn op_constant_node(&mut self, constant: Constant, source_loc: Option<SourceLoc>) -> (r:
        Result<OperationGraphNode, ProgramError>)
        ensures
            (r matches Ok(n) && node_added(
                old(self),
                final(self),
                Op::Constant(constant),
                source_loc,
                n,
            )),
    {
        Ok(self.op_node(Op::Constant(constant), source_loc))
    }

    /// A topological sort of the graph, or a diagnostic naming a node
    /// involved in a cycle.
    ///
    /// On success every node appears exactly once and every edge's source
    /// comes before its target.  On failure the referenced node belongs to
    /// a nonempty set in which every node has a predecessor inside the set.
    pub fn topological_sort(&self) -> (r: SingleErrorResult<Vec<OperationGraphNode>>)
        requires
            self.graph.edges_wf(),
        ensures
            r matches Ok(order) ==> is_topological_order(&self.graph, order@),
            r matches Err(d) ==> d.message@ == "This graph has a cycle"@ && d.node_refs@.len()
                >= 1 && exists|s: Set<OperationGraphNode>|
                s.contains(d.node_refs@[0].node) && is_stuck_set(&self.graph, s),
    {
        let n = self.graph.nodes.len();
        let mut placed: Vec<bool> = Vec::new();
        let mut k: usize = 0;
        while k < n
            invariant
                k <= n,
                placed@.len() == k,
                forall|j: int| 0 <= j < k ==> !(#[trigger] placed@[j]),
            decreases n - k,
        {
            placed.push(false);
            k += 1;
        }
        let mut order: Vec<OperationGraphNode> = Vec::new();
        loop
            invariant
                n == self.graph.nodes@.len(),
                self.graph.edges_wf(),
                placed@.len() == n,
                order@.len() <= n,
                sweep_invariant(&self.graph, placed@, order@),
            decreases n - order@.len(),
        {
            if order.len() == n {
                return Ok(order);
            }
            let ghost len_at_start = order@.len();
            let mut progress = false;
            let mut x: usize = 0;
            while x < n && !progress
                invariant
                    n == self.graph.nodes@.len(),
                    self.graph.edges_wf(),
                    placed@.len() == n,
                    x <= n,
                    len_at_start < n,
                    sweep_invariant(&self.graph, placed@, order@),
                    !progress ==> order@.len() == len_at_start,
                    progress ==> order@.len() == len_at_start + 1,
                    // while nothing was placed, every node already scanned
                    // and still unplaced has an unplaced predecessor.
                    !progress ==> forall|y: usize|
                        y < x && !placed@[y as int] ==> exists|k2: int|
                            0 <= k2 < self.graph.edges@.len() && (
                            #[trigger] self.graph.edges@[k2]).target == y && !placed@[self.graph.edges@[k2].source as int],
                decreases n - x,
            {
                if !placed[x] {
                    // can x be placed: is every in-edge's source placed?
                    let mut ready = true;
                    let mut e: usize = 0;
                    while e < self.graph.edges.len()
                        invariant
                            n == self.graph.nodes@.len(),
                            self.graph.edges_wf(),
                            placed@.len() == n,
                            x < n,
                            e <= self.graph.edges@.len(),
                            ready ==> forall|j: int|
                                0 <= j < e && (#[trigger] self.graph.edges@[j]).target == x
                                    ==> placed@[self.graph.edges@[j].source as int],
                            !ready ==> exists|j: int|
                                0 <= j < self.graph.edges@.len() && (
                                #[trigger] self.graph.edges@[j]).target == x
                                    && !placed@[self.graph.edges@[j].source as int],
                        decreases self.graph.edges@.len() - e,
                    {
                        let tgt = self.graph.edges[e].target;
                        let src = self.graph.edges[e].source;
                        if tgt == x && !placed[src] {
                            ready = false;
                        }
                        e += 1;
                    }
                    if ready {
                        let ghost order_pre = order@;
                        let ghost placed_pre = placed@;
                        order.push(x);
                        placed[x] = true;
                        progress = true;
                        proof {
                            lemma_sweep_place(
                                &self.graph,
                                placed_pre,
                                order_pre,
                                placed@,
                                order@,
                                x,
                            );
                        }
                    }
                }
                x += 1;
            }
            if !progress {
                // every unplaced node has an unplaced predecessor: find one
                // to report.
                let mut witness: usize = 0;
                let mut w: usize = 0;
                let mut found = false;
                while w < n
                    invariant
                        n == self.graph.nodes@.len(),
                        placed@.len() == n,
                        w <= n,
                        found ==> witness < n && !placed@[witness as int],
                        !found ==> forall|y: int| 0 <= y < w ==> placed@[y],
                    decreases n - w,
                {
                    if !placed[w] && !found {
                        witness = w;
                        found = true;
                    }
                    w += 1;
                }
                proof {
                    // order misses some node, so an unplaced one exists.
                    assert(order@.len() < n);
                    if forall|y: int| 0 <= y < n ==> #[trigger] placed@[y] {
                        lemma_all_placed_fills_order(placed@, order@, n as int);
                        assert(false);
                    }
                    assert(found);
                }
                let ghost stuck: Set<OperationGraphNode> = Set::new(
                    |y: OperationGraphNode| y < n && !placed@[y as int],
                );
                proof {
                    assert(stuck.contains(witness));
                    assert forall|y: OperationGraphNode| stuck.contains(y) implies exists|k2: int|
                        0 <= k2 < self.graph.edges@.len() && (
                        #[trigger] self.graph.edges@[k2]).target == y && stuck.contains(
                        self.graph.edges@[k2].source,
                    ) by {
                        let k2 = choose|k2: int|
                            0 <= k2 < self.graph.edges@.len() && (
                            #[trigger] self.graph.edges@[k2]).target == y && !placed@[self.graph.edges@[k2].source as int];
                        assert(self.graph.edges@[k2].source < n);
                        assert(stuck.contains(self.graph.edges@[k2].source));
                    }
                }
                let mut builder = DiagnosticBuilder::new(
                    String::from_str("This graph has a cycle"),
                    None,
                );
                builder.node_ref(
                    String::from_str("This is an example node in the cycle"),
                    witness,
                );
                let d = builder.build(self);
                proof {
                    assert(d.node_refs@[0].node == witness);
                    assert(is_stuck_set(&self.graph, stuck));
                }
                return Err(d);
            }
        }
    }
}

/// The working invariant of the sort: `placed` marks exactly the nodes in
/// `order`, entries are distinct valid nodes, and every placed node's
/// predecessors stand earlier in `order`.
pub open spec fn sweep_invariant(
    g: &OperationGraph,
    placed: Seq<bool>,
    order: Seq<OperationGraphNode>,
) -> bool {
    &&& forall|y: int|
        0 <= y < placed.len() ==> ((#[trigger] placed[y]) <==> exists|j: int|
            0 <= j < order.len() && order[j] == y)
    &&& forall|i: int| 0 <= i < order.len() ==> (#[trigger] order[i]) < placed.len()
    &&& forall|i: int, j: int| 0 <= i < j < order.len() ==> order[i] != order[j]
    &&& forall|k2: int, i: int|
        0 <= k2 < g.edges@.len() && 0 <= i < order.len() && (#[trigger] order[i]) == (
        #[trigger] g.edges@[k2]).target ==> exists|j: int|
            0 <= j < i && order[j] == g.edges@[k2].source
}

/// Placing a node whose predecessors are all placed keeps the sweep
/// invariant.
proof fn lemma_sweep_place(
    g: &OperationGraph,
    placed_pre: Seq<bool>,
    order_pre: Seq<OperationGraphNode>,
    placed_post: Seq<bool>,
    order_post: Seq<OperationGraphNode>,
    x: usize,
)
    requires
        g.edges_wf(),
        placed_pre.len() == g.nodes@.len(),
        sweep_invariant(g, placed_pre, order_pre),
        x < placed_pre.len(),
        !placed_pre[x as int],
        forall|j: int|
            0 <= j < g.edges@.len() && (#[trigger] g.edges@[j]).target == x ==> placed_pre[g.edges@[j].source as int],
        order_post == order_pre.push(x),
        placed_post == placed_pre.update(x as int, true),
    ensures
        sweep_invariant(g, placed_post, order_post),
        order_post.len() == order_pre.len() + 1,
    decreases 0int,
{
    assert(order_post[order_pre.len() as int] == x);
    // placed marks exactly the nodes in order.
    assert forall|y: int|
        0 <= y < placed_post.len() implies ((#[trigger] placed_post[y]) <==> exists|j: int|
        0 <= j < order_post.len() && order_post[j] == y) by {
        if y == x {
            assert(placed_post[y]);
        } else {
            assert(placed_post[y] == placed_pre[y]);
            if placed_pre[y] {
                let j = choose|j: int| 0 <= j < order_pre.len() && #[trigger] order_pre[j] == y;
                assert(order_post[j] == y);
            }
            if exists|j: int| 0 <= j < order_post.len() && #[trigger] order_post[j] == y {
                let j = choose|j: int| 0 <= j < order_post.len() && #[trigger] order_post[j] == y;
                assert(j != order_pre.len());
                assert(order_pre[j] == y);
            }
        }
    }
    // distinctness: x was not yet in order.
    assert forall|i: int, j: int| 0 <= i < j < order_post.len() implies order_post[i]
        != order_post[j] by {
        if j == order_pre.len() {
            if order_pre[i] == x {
                assert(placed_pre[x as int]);
            }
        }
    }
    // predecessors of x are all already in order.
    assert forall|k2: int, i: int|
        0 <= k2 < g.edges@.len() && 0 <= i < order_post.len() && (#[trigger] order_post[i]) == (
        #[trigger] g.edges@[k2]).target implies exists|j: int|
        0 <= j < i && order_post[j] == g.edges@[k2].source by {
        let src = g.edges@[k2].source;
        if i == order_pre.len() {
            assert(g.edges@[k2].target == x);
            assert(placed_pre[src as int]);
            assert(exists|j: int| 0 <= j < order_pre.len() && order_pre[j] == src as int);
            let j = choose|j: int| 0 <= j < order_pre.len() && order_pre[j] == src as int;
            assert(order_post[j] == src);
        } else {
            assert(order_pre[i] == g.edges@[k2].target);
            assert(exists|j: int| 0 <= j < i && order_pre[j] == g.edges@[k2].source);
            let j = choose|j: int| 0 <= j < i && order_pre[j] == g.edges@[k2].source;
            assert(order_post[j] == src);
        }
    }
}

/// If every slot of `placed` is true, `order` holds `n` distinct values,
/// which cannot fit in fewer than `n` slots.
proof fn lemma_all_placed_fills_order(placed: Seq<bool>, order: Seq<OperationGraphNode>, n: int)
    requires
        placed.len() == n,
        0 <= n,
        order.len() <= n,
        forall|y: int| 0 <= y < n ==> #[trigger] placed[y],
        forall|y: int|
            0 <= y < placed.len() ==> ((#[trigger] placed[y]) <==> exists|j: int|
                0 <= j < order.len() && order[j] == y),
    ensures
        order.len() == n,
    decreases 0int,
{
    let m = Map::<int, int>::new(
        |y: int| 0 <= y < n,
        |y: int| choose|j: int| 0 <= j < order.len() && #[trigger] order[j] == y,
    );
    assert forall|y: int| #![trigger m[y]] 0 <= y < n implies 0 <= m[y] < order.len()
        && order[m[y]] == y by {
        assert(placed[y]);
        let j = choose|j: int| 0 <= j < order.len() && #[trigger] order[j] == y;
        assert(order[j] == y);
    }
    assert forall|y1: int, y2: int|
        0 <= y1 < n && 0 <= y2 < n && y1 != y2 implies m[y1] != m[y2] by {
        assert(order[m[y1]] == y1 && order[m[y2]] == y2);
    }
    lemma_injective_map_size(m, n, order.len() as int);
}


/// In a topological order, no placed node can belong to a stuck set: its
/// stuck predecessor would have to stand even earlier, without end.
proof fn lemma_stuck_position(
    g: &OperationGraph,
    o: Seq<OperationGraphNode>,
    s: Set<OperationGraphNode>,
    p: int,
)
    requires
        g.edges_wf(),
        is_topological_order(g, o),
        is_stuck_set(g, s),
        0 <= p < o.len(),
    ensures
        !s.contains(o[p]),
    decreases p,
{
    if s.contains(o[p]) {
        let k = choose|k: int|
            0 <= k < g.edges@.len() && (#[trigger] g.edges@[k]).target == o[p] && s.contains(
                g.edges@[k].source,
            );
        let j = choose|j: int| 0 <= j < p && o[j] == g.edges@[k].source;
        lemma_stuck_position(g, o, s, j);
        assert(false);
    }
}

/// A graph that admits a topological order has no stuck set: every set in
/// which each node has a predecessor inside the set is empty.
pub proof fn lemma_topo_refutes_stuck(
    g: &OperationGraph,
    o: Seq<OperationGraphNode>,
    s: Set<OperationGraphNode>,
)
    requires
        g.edges_wf(),
        is_topological_order(g, o),
        is_stuck_set(g, s),
    ensures
        forall|w: OperationGraphNode| !s.contains(w),
{
    assert forall|w: OperationGraphNode| !s.contains(w) by {
        if s.contains(w) {
            let k = choose|k: int|
                0 <= k < g.edges@.len() && (#[trigger] g.edges@[k]).target == w && s.contains(
                    g.edges@[k].source,
                );
            assert(w < g.nodes@.len());
            lemma_distinct_seq_covers(o, g.nodes@.len() as int, w as int);
            let p = choose|p: int| 0 <= p < o.len() && (#[trigger] o[p]) == w;
            lemma_stuck_position(g, o, s, p);
        }
    }
}

/// A sequence of `n` distinct values below `n` covers every value below
/// `n` (for example a topological order covers every node).
pub proof fn lemma_distinct_seq_covers(order: Seq<usize>, n: int, y: int)
    requires
        order.len() == n,
        0 <= y < n,
        forall|i: int| 0 <= i < n ==> (#[trigger] order[i]) < n,
        forall|i: int, j: int| 0 <= i < j < n ==> order[i] != order[j],
    ensures
        exists|p: int| 0 <= p < n && (#[trigger] order[p]) == y,
{
    {
        if forall|p: int| 0 <= p < n ==> (#[trigger] order[p]) != y {
            // order would inject n positions into the n-1 other values.
            let m = Map::<int, int>::new(
                |i: int| 0 <= i < n,
                |i: int|
                    if order[i] < y {
                        order[i] as int
                    } else {
                        order[i] - 1
                    },
            );
            assert forall|i: int| 0 <= i < n implies 0 <= #[trigger] m[i] < n - 1 by {
                assert(order[i] != y);
            }
            assert forall|i1: int, i2: int|
                0 <= i1 < n && 0 <= i2 < n && i1 != i2 implies m[i1] != m[i2] by {
                assert(order[i1] != order[i2]);
                assert(order[i1] != y && order[i2] != y);
            }
            lemma_injective_map_size(m, n, n - 1);
            assert(false);
        }
    }
}

/// An injective map from `[0, n)` into `[0, bound)` forces `n <= bound`.
pub proof fn lemma_injective_map_size(m: Map<int, int>, n: int, bound: int)
    requires
        0 <= n,
        0 <= bound,
        forall|y: int| 0 <= y < n ==> 0 <= #[trigger] m[y] < bound,
        forall|y1: int, y2: int|
            0 <= y1 < n && 0 <= y2 < n && y1 != y2 ==> m[y1] != m[y2],
    ensures
        n <= bound,
    decreases n,
{
    if n > 0 {
        let v = m[n - 1];
        assert(0 <= v < bound);
        // Drop the last point and close the gap its value leaves, giving an
        // injection from [0, n-1) into [0, bound-1).
        let m2 = Map::<int, int>::new(
            |y: int| 0 <= y < n - 1,
            |y: int|
                if m[y] < v {
                    m[y]
                } else {
                    m[y] - 1
                },
        );
        assert forall|y: int| 0 <= y < n - 1 implies 0 <= #[trigger] m2[y] < bound - 1 by {
            assert(m[y] != v);
        }
        assert forall|y1: int, y2: int|
            0 <= y1 < n - 1 && 0 <= y2 < n - 1 && y1 != y2 implies m2[y1] != m2[y2] by {
            assert(m[y1] != m[y2]);
            assert(m[y1] != v && m[y2] != v);
        }
        lemma_injective_map_size(m2, n - 1, bound - 1);
    }
}

} // verus!

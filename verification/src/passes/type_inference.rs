//! The type-inference pass.
//!
//! Type inference unifies the incoming edges of each node's inputs into a
//! type and applies the node's own constraint to produce its output type;
//! the output of the pass maps every node to a [`DataType`].  It runs after
//! the implicit-edges pass and before implicit sums become explicit adds,
//! so one input slot may still hold several sources: they all unify.  The
//! pass accumulates diagnostics across the whole program rather than
//! stopping at the first problem, and fails only at the end.

use vstd::prelude::*;

use crate::data_type::DataType;
use crate::diagnostics::{DiagnosticBuilder, DiagnosticCollection};
use crate::materialized_inputs::{is_materialization, MaterializedInputs};
use crate::op::Op;
use crate::passes::unify_vectors::{denied_view, primitive_denied, VectorUnifier};
use crate::program::{lemma_distinct_seq_covers, OperationGraphNode, Program};
use crate::vector_descriptor::{PrimitiveType, VectorDescriptor};

verus! {

/// Information on the types of nodes in a graph.
#[derive(Debug)]
pub struct TypeInfo {
    pub types: Vec<Option<DataType>>,
}

impl TypeInfo {
    /// The resolved type of `node`, if the pass reached one.
    pub fn get_type(&self, node: OperationGraphNode) -> (r: Option<DataType>)
        ensures
            node < self.types@.len() ==> r == self.types@[node as int],
            node >= self.types@.len() ==> r is None,
    {
        if node < self.types.len() {
            self.types[node]
        } else {
            None
        }
    }
}

/// Type inference failed; the diagnostics were pushed to the collection.
#[derive(Debug, Eq, PartialEq, Structural, Copy, Clone)]
pub struct TypeInferenceError;

/// The per-operation typing constraint.
#[derive(Debug, Clone)]
enum TypeConstraint {
    /// The node's type is exactly this value.  When `cares_about_inputs`
    /// is false the inputs are not even inspected (the Final node).
    IsExactly { data_type: DataType, cares_about_inputs: bool },
    /// The type comes from the input table.
    IsFromInput(usize),
    /// The unified inputs must match the output table's entry.
    IsFromOutput(usize),
    /// The type comes from the property table.
    IsFromProperty(usize),
    /// The type comes from the state table (a read).
    IsFromState(usize),
    /// The unified inputs must match the state table's entry (a write).
    IsIntoState(usize),
    /// The node outputs this primitive; the width is inferred.
    IsPrimitive(PrimitiveType),
    /// The type is inferred from the inputs, which must not be boolean.
    MustNotBeBool,
}

/// The inference-side descriptor of an operation: how many data inputs it
/// expects, and its constraint.
struct InferenceDescriptor {
    num_inputs: usize,
    constraint: TypeConstraint,
}

/// Ties each constraint to its operation.
spec fn constraint_matches(op: &Op, d: &InferenceDescriptor) -> bool {
    match op {
        Op::Start => d.num_inputs == 0 && d.constraint matches TypeConstraint::IsExactly {
            data_type: DataType::Never,
            cares_about_inputs: true,
        },
        Op::Final => d.num_inputs == 1 && d.constraint matches TypeConstraint::IsExactly {
            data_type: DataType::Never,
            cares_about_inputs: false,
        },
        Op::Clock | Op::Sr => d.num_inputs == 0 && (d.constraint
            matches TypeConstraint::IsExactly { data_type: dt, cares_about_inputs: true } && dt
            == DataType::Vector(VectorDescriptor { primitive: PrimitiveType::I64, width: 1 })),
        Op::Constant(c) => d.num_inputs == 0 && (d.constraint matches TypeConstraint::IsExactly {
            data_type: dt,
            cares_about_inputs: true,
        } && dt == DataType::Vector(
            VectorDescriptor { primitive: c.primitive_type_spec(), width: c.width_spec() as u64 },
        )),
        Op::Cast(p) => d.num_inputs == 1 && (d.constraint
            matches TypeConstraint::IsPrimitive(q) && q == p),
        Op::Negate => d.num_inputs == 1 && d.constraint matches TypeConstraint::MustNotBeBool,
        Op::BinOp(_) => d.num_inputs == 2 && d.constraint matches TypeConstraint::MustNotBeBool,
        Op::ReadInput(i) => d.num_inputs == 0 && (d.constraint
            matches TypeConstraint::IsFromInput(j) && j == i),
        Op::ReadProperty(p) => d.num_inputs == 0 && (d.constraint
            matches TypeConstraint::IsFromProperty(j) && j == p),
        Op::WriteOutput(o) => d.num_inputs == 1 && (d.constraint
            matches TypeConstraint::IsFromOutput(j) && j == o),
        Op::ReadState { state, .. } => d.num_inputs == 0 && (d.constraint
            matches TypeConstraint::IsFromState(j) && j == state),
        Op::WriteState { state, .. } => d.num_inputs == 1 && (d.constraint
            matches TypeConstraint::IsIntoState(j) && j == state),
    }
}

/// The inference descriptor of each operation kind.
fn descriptor_for_op(op: &Op) -> (d: InferenceDescriptor)
    ensures
        constraint_matches(op, &d),
{
    match op {
        Op::Start => InferenceDescriptor {
            num_inputs: 0,
            constraint: TypeConstraint::IsExactly {
                data_type: DataType::Never,
                cares_about_inputs: true,
            },
        },
        Op::Final => InferenceDescriptor {
            num_inputs: 1,
            constraint: TypeConstraint::IsExactly {
                data_type: DataType::Never,
                cares_about_inputs: false,
            },
        },
        Op::Clock | Op::Sr => InferenceDescriptor {
            num_inputs: 0,
            constraint: TypeConstraint::IsExactly {
                data_type: DataType::new_v_i64(1),
                cares_about_inputs: true,
            },
        },
        Op::Constant(c) => InferenceDescriptor {
            num_inputs: 0,
            constraint: TypeConstraint::IsExactly {
                data_type: DataType::Vector(c.vector_descriptor()),
                cares_about_inputs: true,
            },
        },
        Op::Cast(prim) => InferenceDescriptor {
            num_inputs: 1,
            constraint: TypeConstraint::IsPrimitive(*prim),
        },
        Op::Negate => InferenceDescriptor {
            num_inputs: 1,
            constraint: TypeConstraint::MustNotBeBool,
        },
        Op::BinOp(_) => InferenceDescriptor {
            num_inputs: 2,
            constraint: TypeConstraint::MustNotBeBool,
        },
        Op::ReadInput(i) => InferenceDescriptor {
            num_inputs: 0,
            constraint: TypeConstraint::IsFromInput(*i),
        },
        Op::ReadProperty(p) => InferenceDescriptor {
            num_inputs: 0,
            constraint: TypeConstraint::IsFromProperty(*p),
        },
        Op::WriteOutput(o) => InferenceDescriptor {
            num_inputs: 1,
            constraint: TypeConstraint::IsFromOutput(*o),
        },
        Op::ReadState { state, .. } => InferenceDescriptor {
            num_inputs: 0,
            constraint: TypeConstraint::IsFromState(*state),
        },
        Op::WriteState { state, .. } => InferenceDescriptor {
            num_inputs: 1,
            constraint: TypeConstraint::IsIntoState(*state),
        },
    }
}

/// What the pass may record for a node, given its operation and the
/// program's tables.  Start and Final resolve to `Never`; every other
/// operation resolves to a vector whose shape respects its constraint.
pub open spec fn node_type_ok(program: &Program, n: int, t: DataType) -> bool {
    match program.graph.nodes@[n].op {
        Op::Start | Op::Final => t == DataType::Never,
        Op::Clock | Op::Sr => t == DataType::Vector(
            VectorDescriptor { primitive: PrimitiveType::I64, width: 1 },
        ),
        Op::Constant(c) => t == DataType::Vector(
            VectorDescriptor { primitive: c.primitive_type_spec(), width: c.width_spec() as u64 },
        ),
        Op::ReadInput(i) => i < program.inputs@.len() && t == DataType::Vector(
            program.inputs@[i as int],
        ),
        Op::ReadProperty(p) => p < program.properties@.len() && t == DataType::Vector(
            VectorDescriptor { primitive: program.properties@[p as int], width: 1 },
        ),
        Op::WriteOutput(o) => o < program.outputs@.len() && t == DataType::Vector(
            program.outputs@[o as int],
        ),
        Op::ReadState { state, .. } => state < program.states@.len() && t == DataType::Vector(
            program.states@[state as int].vector,
        ),
        Op::WriteState { state, .. } => state < program.states@.len() && t == DataType::Vector(
            program.states@[state as int].vector,
        ),
        Op::Cast(p) => t matches DataType::Vector(v) && v.primitive == p && v.width >= 1,
        Op::Negate | Op::BinOp(_) => t matches DataType::Vector(v) && v.primitive
            != PrimitiveType::Bool && v.width >= 1,
    }
}

/// Every recorded type respects [`node_type_ok`].
pub open spec fn types_ok(program: &Program, types: Seq<Option<DataType>>) -> bool {
    &&& types.len() == program.graph.nodes@.len()
    &&& forall|j: int|
        0 <= j < types.len() ==> ((#[trigger] types[j]) matches Some(t) ==> node_type_ok(
            program,
            j,
            t,
        ))
}

/// Edge `k` feeds node `n` with data the pass must consider: it points at
/// `n` and does not come from the Start node.
pub open spec fn edge_into(program: &Program, n: int, k: int) -> bool {
    &&& 0 <= k < program.graph.edges@.len()
    &&& program.graph.edges@[k].target == n
    &&& program.graph.edges@[k].source != program.start_node
}

/// The type recorded for a unifying node respects its sources: every
/// source is resolved; every vector-typed source shares one primitive
/// (the node's own, except under a cast), has a nonzero width that is 1 or
/// the node's width, and the node's width is realized by some source.
pub open spec fn node_sources_ok(
    program: &Program,
    ts: Seq<Option<DataType>>,
    n: int,
    t: DataType,
) -> bool {
    match program.graph.nodes@[n].op {
        Op::Cast(_) | Op::Negate | Op::BinOp(_) | Op::WriteOutput(_) | Op::WriteState { .. } => t
            matches DataType::Vector(v) && {
            &&& forall|k: int|
                #[trigger] edge_into(program, n, k) ==> program.graph.edges@[k].source < ts.len()
                    && ts[program.graph.edges@[k].source as int] is Some
            &&& forall|k: int|
                #[trigger] edge_into(program, n, k) ==> (ts[program.graph.edges@[k].source as int]
                    matches Some(DataType::Vector(sv)) ==> 1 <= sv.width && (sv.width == 1
                    || sv.width == v.width) && (!(program.graph.nodes@[n].op matches Op::Cast(_))
                    ==> sv.primitive == v.primitive))
            &&& forall|k1: int, k2: int|
                #[trigger] edge_into(program, n, k1) && #[trigger] edge_into(program, n, k2) ==> (
                match (
                    ts[program.graph.edges@[k1].source as int],
                    ts[program.graph.edges@[k2].source as int],
                ) {
                    (
                        Some(DataType::Vector(sv1)),
                        Some(DataType::Vector(sv2)),
                    ) => sv1.primitive == sv2.primitive,
                    _ => true,
                })
            &&& (v.width == 1 || exists|k: int|
                #[trigger] edge_into(program, n, k) && (ts[program.graph.edges@[k].source as int]
                    matches Some(DataType::Vector(sv)) && sv.width == v.width))
        },
        _ => true,
    }
}

/// Every recorded type respects both its operation and its sources.
pub open spec fn types_consistent(program: &Program, ts: Seq<Option<DataType>>) -> bool {
    &&& types_ok(program, ts)
    &&& forall|j: int|
        0 <= j < ts.len() ==> ((#[trigger] ts[j]) matches Some(t) ==> node_sources_ok(
            program,
            ts,
            j,
            t,
        ))
}

/// How many data inputs each operation expects during inference.
pub open spec fn op_expected_inputs(op: &Op) -> int {
    match op {
        Op::BinOp(_) => 2,
        Op::Cast(_) | Op::Negate | Op::WriteOutput(_) | Op::WriteState { .. } | Op::Final => 1,
        _ => 0,
    }
}

/// Does some considered edge feed input slot `i` of node `n`?
pub open spec fn slot_fed(program: &Program, n: int, i: int) -> bool {
    exists|k: int|
        #[trigger] edge_into(program, n, k) && program.graph.edges@[k].payload.input == i
}

/// The node's incoming data edges fit its operation: no slot beyond the
/// expected count is used and every expected slot has a source.  The Final
/// node never takes part in checking.
pub open spec fn node_arity_ok(program: &Program, n: int) -> bool {
    program.graph.nodes@[n].op matches Op::Final || {
        &&& forall|k: int|
            #[trigger] edge_into(program, n, k) ==> program.graph.edges@[k].payload.input
                < op_expected_inputs(&program.graph.nodes@[n].op)
        &&& forall|i: int|
            0 <= i < op_expected_inputs(&program.graph.nodes@[n].op) ==> slot_fed(program, n, i)
    }
}

/// Node `n` cannot be typed from `ts`: a structural arity problem, an
/// unresolved source, a genuine conflict among its resolved sources, an
/// out-of-range table reference, a cross-check no type could satisfy, or a
/// data-expecting operation fed by nothing but `Never`.
#[verifier::opaque]
pub open spec fn node_blocked(program: &Program, ts: Seq<Option<DataType>>, n: int) -> bool {
    let op = program.graph.nodes@[n].op;
    ||| (!(op matches Op::Final) && exists|k: int|
        #[trigger] edge_into(program, n, k) && program.graph.edges@[k].payload.input
            >= op_expected_inputs(&op))
    ||| (!(op matches Op::Final) && exists|i: int|
        0 <= i < op_expected_inputs(&op) && !(#[trigger] slot_fed(program, n, i)))
    ||| (!(op matches Op::Final) && exists|k: int|
        #[trigger] edge_into(program, n, k) && (program.graph.edges@[k].source >= ts.len()
            || ts[program.graph.edges@[k].source as int] is None))
    ||| (crate::op::op_denies_bool(&op) && exists|k: int|
        #[trigger] edge_into(program, n, k) && (ts[program.graph.edges@[k].source as int]
            matches Some(DataType::Vector(sv)) && sv.primitive == PrimitiveType::Bool))
    ||| (!(op matches Op::Final) && exists|k: int|
        #[trigger] edge_into(program, n, k) && (ts[program.graph.edges@[k].source as int]
            matches Some(DataType::Vector(sv)) && sv.width == 0))
    ||| (!(op matches Op::Final) && exists|k1: int, k2: int|
        #[trigger] edge_into(program, n, k1) && #[trigger] edge_into(program, n, k2) && (
        ts[program.graph.edges@[k1].source as int] matches Some(DataType::Vector(sv1)) && (
        ts[program.graph.edges@[k2].source as int] matches Some(DataType::Vector(sv2))
            && sv1.primitive != sv2.primitive)))
    ||| (!(op matches Op::Final) && exists|k1: int, k2: int|
        #[trigger] edge_into(program, n, k1) && #[trigger] edge_into(program, n, k2) && (
        ts[program.graph.edges@[k1].source as int] matches Some(DataType::Vector(sv1)) && (
        ts[program.graph.edges@[k2].source as int] matches Some(DataType::Vector(sv2)) && sv1.width
            > 1 && sv2.width > 1 && sv1.width != sv2.width)))
    ||| (op matches Op::ReadInput(i) && i >= program.inputs@.len())
    ||| (op matches Op::ReadProperty(i) && i >= program.properties@.len())
    ||| (op matches Op::ReadState { state, .. } && state >= program.states@.len())
    ||| (op matches Op::WriteOutput(o) && (o >= program.outputs@.len() || !(exists|t: DataType|
        t == DataType::Vector(program.outputs@[o as int]) && #[trigger] node_sources_ok(
            program,
            ts,
            n,
            t,
        ))))
    ||| (op matches Op::WriteState { state, .. } && (state >= program.states@.len() || !(exists|
        t: DataType,
    |
        t == DataType::Vector(program.states@[state as int].vector) && #[trigger] node_sources_ok(
            program,
            ts,
            n,
            t,
        ))))
    ||| (!(op matches Op::Final) && op_expected_inputs(&op) >= 1 && (forall|k: int|
        #[trigger] edge_into(program, n, k) ==> program.graph.edges@[k].source < ts.len()
            && ts[program.graph.edges@[k].source as int] is Some) && !(exists|k: int|
        #[trigger] edge_into(program, n, k) && ts[program.graph.edges@[k].source as int]
            matches Some(DataType::Vector(_))))
}

/// `ts` went as far as the rules allow: every node is typed or blocked.
pub open spec fn closed_typing(program: &Program, ts: Seq<Option<DataType>>) -> bool {
    forall|j: int|
        0 <= j < ts.len() ==> ((#[trigger] ts[j]) is Some || node_blocked(program, ts, j))
}

/// What the walk knows of one visited source entry: it is resolved, and a
/// vector-typed one matches the unifier's accumulated descriptor.
pub open spec fn entry_state_ok(
    program: &Program,
    ts: Seq<Option<DataType>>,
    m: &MaterializedInputs,
    i0: int,
    q0: int,
    has: bool,
    d: VectorDescriptor,
) -> bool {
    let src = m.inputs@[i0]@[q0].source_node as int;
    &&& 0 <= src < ts.len()
    &&& ts[src] is Some
    &&& (ts[src] matches Some(DataType::Vector(sv)) ==> has && sv.primitive == d.primitive && 1
        <= sv.width && (sv.width == 1 || sv.width == d.width))
}

/// `node_sources_ok` only reads the entries of the node's sources, so it
/// survives any update elsewhere.
proof fn lemma_sources_ok_stable(
    program: &Program,
    ts1: Seq<Option<DataType>>,
    ts2: Seq<Option<DataType>>,
    j: int,
    t: DataType,
)
    requires
        node_sources_ok(program, ts1, j, t),
        ts2.len() == ts1.len(),
        forall|k: int|
            #[trigger] edge_into(program, j, k) ==> ts2[program.graph.edges@[k].source as int]
                == ts1[program.graph.edges@[k].source as int],
    ensures
        node_sources_ok(program, ts2, j, t),
{
    match program.graph.nodes@[j].op {
        Op::Cast(_) | Op::Negate | Op::BinOp(_) | Op::WriteOutput(_) | Op::WriteState { .. } => {
            let v = t->Vector_0;
            if v.width != 1 {
                let k = choose|k: int|
                    #[trigger] edge_into(program, j, k) && (
                    ts1[program.graph.edges@[k].source as int] matches Some(DataType::Vector(sv))
                        && sv.width == v.width);
                assert(edge_into(program, j, k));
                assert(ts2[program.graph.edges@[k].source as int]
                    == ts1[program.graph.edges@[k].source as int]);
            }
        },
        _ => {},
    }
}

/// After the walk has visited every materialized entry, the recorded
/// vector respects the node's sources.
proof fn lemma_walk_gives_sources_ok(
    program: &Program,
    ts: Seq<Option<DataType>>,
    m: &MaterializedInputs,
    n: usize,
    d: VectorDescriptor,
    v: VectorDescriptor,
)
    requires
        program.wf(),
        n < program.graph.nodes@.len(),
        ts.len() == program.graph.nodes@.len(),
        is_materialization(&program.graph, n, Some(program.start_node), m),
        forall|i0: int, q0: int|
            0 <= i0 < m.inputs@.len() && 0 <= q0 < m.inputs@[i0]@.len()
                ==> #[trigger] entry_state_ok(program, ts, m, i0, q0, true, d),
        exists|i0: int, q0: int|
            0 <= i0 < m.inputs@.len() && 0 <= q0 < m.inputs@[i0]@.len() && (ts[(
            #[trigger] m.inputs@[i0]@[q0]).source_node as int] matches Some(DataType::Vector(sv))
                && sv.width == d.width),
        v.width == d.width,
        (program.graph.nodes@[n as int].op matches Op::Cast(_)) || v.primitive == d.primitive,
        program.graph.nodes@[n as int].op matches Op::Cast(_) || program.graph.nodes@[n as int].op
            matches Op::Negate || program.graph.nodes@[n as int].op matches Op::BinOp(_)
            || program.graph.nodes@[n as int].op matches Op::WriteOutput(_)
            || program.graph.nodes@[n as int].op matches Op::WriteState { .. },
    ensures
        node_sources_ok(program, ts, n as int, DataType::Vector(v)),
{
    assert forall|k: int| #[trigger] edge_into(program, n as int, k) implies {
        &&& program.graph.edges@[k].source < ts.len()
        &&& ts[program.graph.edges@[k].source as int] is Some
        &&& (ts[program.graph.edges@[k].source as int] matches Some(DataType::Vector(sv)) ==> 1
            <= sv.width && (sv.width == 1 || sv.width == v.width) && (!(
        program.graph.nodes@[n as int].op matches Op::Cast(_)) ==> sv.primitive == v.primitive))
    } by {
        let i0 = program.graph.edges@[k].payload.input as int;
        let q0 = choose|q0: int|
            0 <= q0 < m.inputs@[i0]@.len() && m.inputs@[i0]@[q0].edge == k;
        assert(entry_state_ok(program, ts, m, i0, q0, true, d));
        assert(m.inputs@[i0]@[q0].source_node == program.graph.edges@[k].source);
    }
    assert forall|k1: int, k2: int|
        #[trigger] edge_into(program, n as int, k1) && #[trigger] edge_into(program, n as int, k2) implies (
    match (
        ts[program.graph.edges@[k1].source as int],
        ts[program.graph.edges@[k2].source as int],
    ) {
        (Some(DataType::Vector(sv1)), Some(DataType::Vector(sv2))) => sv1.primitive
            == sv2.primitive,
        _ => true,
    }) by {
        let i1 = program.graph.edges@[k1].payload.input as int;
        let q1 = choose|q0: int|
            0 <= q0 < m.inputs@[i1]@.len() && m.inputs@[i1]@[q0].edge == k1;
        assert(entry_state_ok(program, ts, m, i1, q1, true, d));
        assert(m.inputs@[i1]@[q1].source_node == program.graph.edges@[k1].source);
        let i2 = program.graph.edges@[k2].payload.input as int;
        let q2 = choose|q0: int|
            0 <= q0 < m.inputs@[i2]@.len() && m.inputs@[i2]@[q0].edge == k2;
        assert(entry_state_ok(program, ts, m, i2, q2, true, d));
        assert(m.inputs@[i2]@[q2].source_node == program.graph.edges@[k2].source);
    }
    if v.width != 1 {
        let (i0, q0) = choose|i0: int, q0: int|
            0 <= i0 < m.inputs@.len() && 0 <= q0 < m.inputs@[i0]@.len() && (ts[(
            #[trigger] m.inputs@[i0]@[q0]).source_node as int] matches Some(DataType::Vector(sv))
                && sv.width == d.width);
        let k = m.inputs@[i0]@[q0].edge as int;
        let en = m.inputs@[i0]@[q0];
        assert(en.edge < program.graph.edges@.len());
        assert(program.graph.edges@[en.edge as int].target == n);
        assert(program.graph.edges@[en.edge as int].source == en.source_node);
        assert(crate::materialized_inputs::source_kept(Some(program.start_node), en.source_node));
        assert(edge_into(program, n as int, k));
        assert(m.inputs@[i0]@[q0].source_node == program.graph.edges@[k].source);
        assert(ts[program.graph.edges@[k].source as int] matches Some(DataType::Vector(sv))
            && sv.width == v.width);
    }
}

/// A cross-checking node whose sources unified to `d` admits no recorded
/// type of a different shape `e`: its sources rule `e` out.
proof fn lemma_crosscheck_blocked(
    program: &Program,
    ts: Seq<Option<DataType>>,
    m: &MaterializedInputs,
    n: usize,
    d: VectorDescriptor,
    e: VectorDescriptor,
)
    requires
        program.wf(),
        n < program.graph.nodes@.len(),
        ts.len() == program.graph.nodes@.len(),
        is_materialization(&program.graph, n, Some(program.start_node), m),
        forall|i0: int, q0: int|
            0 <= i0 < m.inputs@.len() && 0 <= q0 < m.inputs@[i0]@.len()
                ==> #[trigger] entry_state_ok(program, ts, m, i0, q0, true, d),
        exists|i0: int, q0: int|
            0 <= i0 < m.inputs@.len() && 0 <= q0 < m.inputs@[i0]@.len() && (ts[(
            #[trigger] m.inputs@[i0]@[q0]).source_node as int] matches Some(DataType::Vector(sv))
                && sv.width == d.width),
        d.width >= 1,
        e != d,
        program.graph.nodes@[n as int].op matches Op::WriteOutput(_)
            || program.graph.nodes@[n as int].op matches Op::WriteState { .. },
    ensures
        !(exists|t: DataType|
            t == DataType::Vector(e) && #[trigger] node_sources_ok(program, ts, n as int, t)),
{
    if exists|t: DataType|
        t == DataType::Vector(e) && #[trigger] node_sources_ok(program, ts, n as int, t) {
        assert(node_sources_ok(program, ts, n as int, DataType::Vector(e)));
        // the entry that realizes the unified width.
        let (i0, q0) = choose|i0: int, q0: int|
            0 <= i0 < m.inputs@.len() && 0 <= q0 < m.inputs@[i0]@.len() && (ts[(
            #[trigger] m.inputs@[i0]@[q0]).source_node as int] matches Some(DataType::Vector(sv))
                && sv.width == d.width);
        let en = m.inputs@[i0]@[q0];
        let k = en.edge as int;
        assert(edge_into(program, n as int, k));
        assert(program.graph.edges@[k].source == en.source_node);
        assert(entry_state_ok(program, ts, m, i0, q0, true, d));
        // its primitive is the unified one; the recorded type forces its own.
        assert(e.primitive == d.primitive);
        if d.width != 1 {
            // a non-scalar source must share the recorded width.
            assert(e.width == d.width);
            assert(e == d);
        } else {
            // all sources are scalar, so the recorded width cannot be
            // realized unless it too is 1, making the shapes equal.
            assert(e.width != 1);
            let k2 = choose|k2: int|
                #[trigger] edge_into(program, n as int, k2) && (
                ts[program.graph.edges@[k2].source as int] matches Some(DataType::Vector(sv))
                    && sv.width == e.width);
            assert(program.graph.edges@[k2].target == n && crate::materialized_inputs::source_kept(
                Some(program.start_node),
                program.graph.edges@[k2].source,
            ));
            let i2 = program.graph.edges@[k2].payload.input as int;
            let q2 = choose|q: int|
                0 <= q < m.inputs@[i2]@.len() && m.inputs@[i2]@[q].edge == k2;
            assert(entry_state_ok(program, ts, m, i2, q2, true, d));
            assert(m.inputs@[i2]@[q2].source_node == program.graph.edges@[k2].source);
        }
    }
}

/// A node that expects data but whose sources are all resolved to `Never`
/// is blocked: no vector can be unified out of nothing.
proof fn lemma_no_data_blocked(
    program: &Program,
    ts: Seq<Option<DataType>>,
    m: &MaterializedInputs,
    n: usize,
    d: VectorDescriptor,
)
    requires
        program.wf(),
        n < program.graph.nodes@.len(),
        ts.len() == program.graph.nodes@.len(),
        is_materialization(&program.graph, n, Some(program.start_node), m),
        forall|i0: int, q0: int|
            0 <= i0 < m.inputs@.len() && 0 <= q0 < m.inputs@[i0]@.len()
                ==> #[trigger] entry_state_ok(program, ts, m, i0, q0, false, d),
        !(program.graph.nodes@[n as int].op matches Op::Final),
        op_expected_inputs(&program.graph.nodes@[n as int].op) >= 1,
    ensures
        node_blocked(program, ts, n as int),
{
    reveal(node_blocked);
    assert forall|k: int| #[trigger] edge_into(program, n as int, k) implies program.graph.edges@[k].source
        < ts.len() && ts[program.graph.edges@[k].source as int] is Some by {
        let i0 = program.graph.edges@[k].payload.input as int;
        let q0 = choose|q: int| 0 <= q < m.inputs@[i0]@.len() && m.inputs@[i0]@[q].edge == k;
        assert(entry_state_ok(program, ts, m, i0, q0, false, d));
        assert(m.inputs@[i0]@[q0].source_node == program.graph.edges@[k].source);
    }
    assert(!(exists|k: int|
        #[trigger] edge_into(program, n as int, k) && ts[program.graph.edges@[k].source as int]
            matches Some(DataType::Vector(_)))) by {
        if exists|k: int|
            #[trigger] edge_into(program, n as int, k) && ts[program.graph.edges@[k].source as int]
                matches Some(DataType::Vector(_)) {
            let k = choose|k: int|
                #[trigger] edge_into(program, n as int, k) && ts[program.graph.edges@[k].source as int]
                    matches Some(DataType::Vector(_));
            let i0 = program.graph.edges@[k].payload.input as int;
            let q0 = choose|q: int| 0 <= q < m.inputs@[i0]@.len() && m.inputs@[i0]@[q].edge == k;
            assert(entry_state_ok(program, ts, m, i0, q0, false, d));
            assert(m.inputs@[i0]@[q0].source_node == program.graph.edges@[k].source);
        }
    }
}

/// Blockage only reads the node's own sources, so it survives any update
/// elsewhere.
proof fn lemma_blocked_stable(
    program: &Program,
    ts1: Seq<Option<DataType>>,
    ts2: Seq<Option<DataType>>,
    j: int,
)
    requires
        node_blocked(program, ts1, j),
        ts2.len() == ts1.len(),
        forall|k: int|
            #[trigger] edge_into(program, j, k) ==> ts2[program.graph.edges@[k].source as int]
                == ts1[program.graph.edges@[k].source as int],
    ensures
        node_blocked(program, ts2, j),
{
    reveal(node_blocked);
    let op = program.graph.nodes@[j].op;
    if exists|k: int|
        #[trigger] edge_into(program, j, k) && (program.graph.edges@[k].source >= ts1.len()
            || ts1[program.graph.edges@[k].source as int] is None) {
        let k = choose|k: int|
            #[trigger] edge_into(program, j, k) && (program.graph.edges@[k].source >= ts1.len()
                || ts1[program.graph.edges@[k].source as int] is None);
        assert(edge_into(program, j, k) && (program.graph.edges@[k].source >= ts2.len()
            || ts2[program.graph.edges@[k].source as int] is None));
    }
    if exists|k: int|
        #[trigger] edge_into(program, j, k) && (ts1[program.graph.edges@[k].source as int]
            matches Some(DataType::Vector(sv)) && sv.primitive == PrimitiveType::Bool) {
        let k = choose|k: int|
            #[trigger] edge_into(program, j, k) && (ts1[program.graph.edges@[k].source as int]
                matches Some(DataType::Vector(sv)) && sv.primitive == PrimitiveType::Bool);
        assert(edge_into(program, j, k) && (ts2[program.graph.edges@[k].source as int]
            matches Some(DataType::Vector(sv)) && sv.primitive == PrimitiveType::Bool));
    }
    if exists|k: int|
        #[trigger] edge_into(program, j, k) && (ts1[program.graph.edges@[k].source as int]
            matches Some(DataType::Vector(sv)) && sv.width == 0) {
        let k = choose|k: int|
            #[trigger] edge_into(program, j, k) && (ts1[program.graph.edges@[k].source as int]
                matches Some(DataType::Vector(sv)) && sv.width == 0);
        assert(edge_into(program, j, k) && (ts2[program.graph.edges@[k].source as int]
            matches Some(DataType::Vector(sv)) && sv.width == 0));
    }
    if exists|k1: int, k2: int|
        #[trigger] edge_into(program, j, k1) && #[trigger] edge_into(program, j, k2) && (
        ts1[program.graph.edges@[k1].source as int] matches Some(DataType::Vector(sv1)) && (
        ts1[program.graph.edges@[k2].source as int] matches Some(DataType::Vector(sv2))
            && sv1.primitive != sv2.primitive)) {
        let (k1, k2) = choose|k1: int, k2: int|
            #[trigger] edge_into(program, j, k1) && #[trigger] edge_into(program, j, k2) && (
            ts1[program.graph.edges@[k1].source as int] matches Some(DataType::Vector(sv1)) && (
            ts1[program.graph.edges@[k2].source as int] matches Some(DataType::Vector(sv2))
                && sv1.primitive != sv2.primitive));
        assert(ts2[program.graph.edges@[k1].source as int]
            == ts1[program.graph.edges@[k1].source as int]);
        assert(ts2[program.graph.edges@[k2].source as int]
            == ts1[program.graph.edges@[k2].source as int]);
    }
    if exists|k1: int, k2: int|
        #[trigger] edge_into(program, j, k1) && #[trigger] edge_into(program, j, k2) && (
        ts1[program.graph.edges@[k1].source as int] matches Some(DataType::Vector(sv1)) && (
        ts1[program.graph.edges@[k2].source as int] matches Some(DataType::Vector(sv2)) && sv1.width
            > 1 && sv2.width > 1 && sv1.width != sv2.width)) {
        let (k1, k2) = choose|k1: int, k2: int|
            #[trigger] edge_into(program, j, k1) && #[trigger] edge_into(program, j, k2) && (
            ts1[program.graph.edges@[k1].source as int] matches Some(DataType::Vector(sv1)) && (
            ts1[program.graph.edges@[k2].source as int] matches Some(DataType::Vector(sv2))
                && sv1.width > 1 && sv2.width > 1 && sv1.width != sv2.width));
        assert(ts2[program.graph.edges@[k1].source as int]
            == ts1[program.graph.edges@[k1].source as int]);
        assert(ts2[program.graph.edges@[k2].source as int]
            == ts1[program.graph.edges@[k2].source as int]);
    }
    // a cross-check that no type satisfies stays unsatisfiable.
    if op matches Op::WriteOutput(o) && o < program.outputs@.len() {
        let o = op->WriteOutput_0;
        let t = DataType::Vector(program.outputs@[o as int]);
        if node_sources_ok(program, ts2, j, t) {
            lemma_sources_ok_stable(program, ts2, ts1, j, t);
        }
    }
    if op matches Op::WriteState { state, .. } && state < program.states@.len() {
        let st = op->WriteState_state;
        let t = DataType::Vector(program.states@[st as int].vector);
        if node_sources_ok(program, ts2, j, t) {
            lemma_sources_ok_stable(program, ts2, ts1, j, t);
        }
    }
    // a node fed by nothing but Never stays that way.
    if (forall|k: int|
        #[trigger] edge_into(program, j, k) ==> program.graph.edges@[k].source < ts1.len()
            && ts1[program.graph.edges@[k].source as int] is Some) && !(exists|k: int|
        #[trigger] edge_into(program, j, k) && ts1[program.graph.edges@[k].source as int]
            matches Some(DataType::Vector(_))) {
        assert forall|k: int| #[trigger] edge_into(program, j, k) implies program.graph.edges@[k].source
            < ts2.len() && ts2[program.graph.edges@[k].source as int] is Some by {
            assert(ts2[program.graph.edges@[k].source as int]
                == ts1[program.graph.edges@[k].source as int]);
        }
        assert(!(exists|k: int|
            #[trigger] edge_into(program, j, k) && ts2[program.graph.edges@[k].source as int]
                matches Some(DataType::Vector(_)))) by {
            if exists|k: int|
                #[trigger] edge_into(program, j, k) && ts2[program.graph.edges@[k].source as int]
                    matches Some(DataType::Vector(_)) {
                let k = choose|k: int|
                    #[trigger] edge_into(program, j, k)
                        && ts2[program.graph.edges@[k].source as int] matches Some(
                        DataType::Vector(_),
                    );
                assert(ts1[program.graph.edges@[k].source as int]
                    == ts2[program.graph.edges@[k].source as int]);
            }
        }
    }
}

/// How one node's visit ended.
enum NodeOutcome {
    /// A type was found.
    Typed(DataType),
    /// A problem was found and reported.
    Diagnosed,
    /// A source is still untyped, so the node cannot be checked yet.
    Uncheckable,
}

/// A short name for the operation, used in diagnostics.
fn render_op(op: &Op) -> String {
    match op {
        Op::Constant(c) => {
            let mut s = String::from_str("const(");
            let d = c.vector_descriptor();
            let r = d.render();
            s.append(r.as_str());
            s.append(")");
            s
        },
        Op::Negate => String::from_str("Negate"),
        Op::BinOp(o) => match o {
            crate::op::BinOp::Add => String::from_str("+"),
            crate::op::BinOp::Sub => String::from_str("-"),
            crate::op::BinOp::Mul => String::from_str("*"),
            crate::op::BinOp::Div => String::from_str("/"),
        },
        Op::ReadInput(i) => {
            let mut s = String::from_str("ReadInput(");
            let i_str = i.to_string();
            s.append(i_str.as_str());
            s.append(")");
            s
        },
        Op::WriteOutput(o) => {
            let mut s = String::from_str("WriteOutput(");
            let o_str = o.to_string();
            s.append(o_str.as_str());
            s.append(")");
            s
        },
        Op::ReadProperty(p) => {
            let mut s = String::from_str("ReadProperty(");
            let p_str = p.to_string();
            s.append(p_str.as_str());
            s.append(")");
            s
        },
        Op::ReadState { state, .. } => {
            let mut s = String::from_str("ReadState(");
            let t_str = state.to_string();
            s.append(t_str.as_str());
            s.append(")");
            s
        },
        Op::WriteState { state, .. } => {
            let mut s = String::from_str("WriteState(");
            let t_str = state.to_string();
            s.append(t_str.as_str());
            s.append(")");
            s
        },
        Op::Clock => String::from_str("Clock"),
        Op::Sr => String::from_str("Sr"),
        Op::Cast(p) => {
            let mut s = String::from_str("Cast(");
            s.append(p.label());
            s.append(")");
            s
        },
        Op::Start => String::from_str("Start"),
        Op::Final => String::from_str("Final"),
    }
}

/// Push a diagnostic of the shape `"<op>: <what>"`.
fn diagnose_node(
    program: &Program,
    diagnostics: &mut DiagnosticCollection,
    n: OperationGraphNode,
    what: &str,
)
    requires
        n < program.graph.nodes@.len(),
    ensures
        final(diagnostics).errors@.len() == old(diagnostics).errors@.len() + 1,
        forall|k: int|
            0 <= k < old(diagnostics).errors@.len() ==> #[trigger] final(diagnostics).errors@[k]
                == old(diagnostics).errors@[k],
        final(diagnostics).errors@.last().node_refs@.len() == 1,
        final(diagnostics).errors@.last().node_refs@[0].node == n,
{
    let mut message = render_op(&program.graph.nodes[n].op);
    message.append(": ");
    message.append(what);
    let source_loc = match &program.graph.nodes[n].source_loc {
        Some(l) => Some(l.clone()),
        None => None,
    };
    let mut builder = DiagnosticBuilder::new(message, source_loc);
    builder.node_ref(String::from_str("The node that could not be typed"), n);
    let d = builder.build(program);
    diagnostics.add_diagnostic(d);
}

/// Infer the type of one node from the already-typed sources, or report
/// why that cannot be done.
fn infer_node_type(
    program: &Program,
    types: &Vec<Option<DataType>>,
    n: OperationGraphNode,
    diagnostics: &mut DiagnosticCollection,
) -> (out: NodeOutcome)
    requires
        program.wf(),
        n < program.graph.nodes@.len(),
        types_ok(program, types@),
    ensures
        out matches NodeOutcome::Typed(t) ==> node_type_ok(program, n as int, t)
            && node_sources_ok(program, types@, n as int, t) && node_arity_ok(program, n as int)
            && final(diagnostics).errors@ == old(diagnostics).errors@,
        out matches NodeOutcome::Diagnosed ==> final(diagnostics).errors@.len() == old(diagnostics).errors@.len() + 1 && (forall|k: int|
            0 <= k < old(diagnostics).errors@.len() ==> #[trigger] final(diagnostics).errors@[k]
                == old(diagnostics).errors@[k]) && final(diagnostics).errors@.last().node_refs@.len()
            >= 1 && (forall|q: int|
            0 <= q < final(diagnostics).errors@.last().node_refs@.len() ==> (#[trigger] final(diagnostics).errors@.last().node_refs@[q]).node == n)
            && node_blocked(program, types@, n as int),
        out matches NodeOutcome::Uncheckable ==> final(diagnostics).errors@ == old(diagnostics).errors@
            && node_blocked(program, types@, n as int) && (exists|k: int|
            #[trigger] edge_into(program, n as int, k) && (program.graph.edges@[k].source
                >= types@.len() || types@[program.graph.edges@[k].source as int] is None)),
{
    let descriptor = descriptor_for_op(&program.graph.nodes[n].op);
    // a node that does not inspect its inputs is typed immediately.
    if let TypeConstraint::IsExactly { cares_about_inputs: false, data_type } =
        &descriptor.constraint {
        proof {
            assert(program.graph.nodes@[n as int].op matches Op::Final);
            assert(node_arity_ok(program, n as int));
        }
        return NodeOutcome::Typed(*data_type);
    }
    // the Start node never takes part in unification.
    let m = MaterializedInputs::materialize_excluding(program, n, Some(program.start_node));
    if descriptor.num_inputs < m.inputs.len() {
        let mut what = String::from_str("found ");
        let found_str = m.inputs.len().to_string();
        what.append(found_str.as_str());
        what.append(" inputs, expected ");
        let want_str = descriptor.num_inputs.to_string();
        what.append(want_str.as_str());
        proof {
            let op = program.graph.nodes@[n as int].op;
            assert(!(op matches Op::Final));
            assert(op_expected_inputs(&op) == descriptor.num_inputs as int);
            let k = choose|k: int|
                0 <= k < program.graph.edges@.len() && (#[trigger] program.graph.edges@[k]).target
                    == n && crate::materialized_inputs::source_kept(
                    Some(program.start_node),
                    program.graph.edges@[k].source,
                ) && program.graph.edges@[k].payload.input + 1 == m.inputs@.len();
            assert(edge_into(program, n as int, k));
            assert(program.graph.edges@[k].payload.input >= op_expected_inputs(&op));
            reveal(node_blocked);
            assert(node_blocked(program, types@, n as int));
        }
        diagnose_node(program, diagnostics, n, what.as_str());
        return NodeOutcome::Diagnosed;
    }
    if descriptor.num_inputs > m.inputs.len() {
        let mut what = String::from_str("needed ");
        let want_str = descriptor.num_inputs.to_string();
        what.append(want_str.as_str());
        what.append(" inputs but only found ");
        let found_str = m.inputs.len().to_string();
        what.append(found_str.as_str());
        proof {
            let op = program.graph.nodes@[n as int].op;
            assert(!(op matches Op::Final));
            assert(op_expected_inputs(&op) == descriptor.num_inputs as int);
            let miss = m.inputs@.len() as int;
            assert(!slot_fed(program, n as int, miss)) by {
                if slot_fed(program, n as int, miss) {
                    let k = choose|k: int|
                        #[trigger] edge_into(program, n as int, k)
                            && program.graph.edges@[k].payload.input == miss;
                    assert(program.graph.edges@[k].payload.input < m.inputs@.len());
                }
            };
            reveal(node_blocked);
            assert(node_blocked(program, types@, n as int));
        }
        diagnose_node(program, diagnostics, n, what.as_str());
        return NodeOutcome::Diagnosed;
    }
    let mut i: usize = 0;
    while i < descriptor.num_inputs
        invariant
            descriptor.num_inputs == m.inputs@.len(),
            i <= descriptor.num_inputs,
            n < program.graph.nodes@.len(),
            program.wf(),
            diagnostics.errors@ == old(diagnostics).errors@,
            is_materialization(&program.graph, n, Some(program.start_node), &m),
            constraint_matches(&program.graph.nodes@[n as int].op, &descriptor),
            !(program.graph.nodes@[n as int].op matches Op::Final),
            forall|i0: int| 0 <= i0 < i ==> m.inputs@[i0]@.len() > 0,
        decreases descriptor.num_inputs - i,
    {
        if m.inputs[i].len() == 0 {
            proof {
                let op = program.graph.nodes@[n as int].op;
                assert(op_expected_inputs(&op) == descriptor.num_inputs as int);
                assert(!slot_fed(program, n as int, i as int)) by {
                    if slot_fed(program, n as int, i as int) {
                        let k = choose|k: int|
                            #[trigger] edge_into(program, n as int, k)
                                && program.graph.edges@[k].payload.input == i;
                        assert(exists|q: int|
                            0 <= q < m.inputs@[i as int]@.len() && m.inputs@[i as int]@[q].edge
                                == k);
                    }
                };
                reveal(node_blocked);
            assert(node_blocked(program, types@, n as int));
            }
            let mut what = String::from_str("missing input ");
            let i_str = i.to_string();
            what.append(i_str.as_str());
            diagnose_node(program, diagnostics, n, what.as_str());
            return NodeOutcome::Diagnosed;
        }
        i += 1;
    }
    proof {
        let op = program.graph.nodes@[n as int].op;
        assert(op_expected_inputs(&op) == descriptor.num_inputs as int);
        assert forall|k: int| #[trigger] edge_into(program, n as int, k)
            implies program.graph.edges@[k].payload.input < op_expected_inputs(&op) by {
            assert(program.graph.edges@[k].payload.input < m.inputs@.len());
        }
        assert forall|i0: int| 0 <= i0 < op_expected_inputs(&op) implies slot_fed(
            program,
            n as int,
            i0,
        ) by {
            assert(m.inputs@[i0]@.len() > 0);
            let en = m.inputs@[i0]@[0];
            assert(en.edge < program.graph.edges@.len());
            assert(edge_into(program, n as int, en.edge as int));
            assert(program.graph.edges@[en.edge as int].payload.input == i0);
        }
        assert(node_arity_ok(program, n as int));
    }
    // unify every source value across all input slots.
    let denies_bool = matches!(descriptor.constraint, TypeConstraint::MustNotBeBool);
    let ghost denied_seq: Option<Seq<PrimitiveType>> = if denies_bool {
        Some(seq![PrimitiveType::Bool])
    } else {
        None
    };
    let mut has_unifier = false;
    let mut uni = VectorUnifier {
        descriptor: VectorDescriptor::new_f32(1),
        last_node: n,
        denied_primitives: None,
    };
    let mut i: usize = 0;
    while i < m.inputs.len()
        invariant
            i <= m.inputs@.len(),
            program.wf(),
            n < program.graph.nodes@.len(),
            types_ok(program, types@),
            is_materialization(&program.graph, n, Some(program.start_node), &m),
            constraint_matches(&program.graph.nodes@[n as int].op, &descriptor),
            !(program.graph.nodes@[n as int].op matches Op::Final),
            denies_bool ==> crate::op::op_denies_bool(&program.graph.nodes@[n as int].op),
            node_arity_ok(program, n as int),
            diagnostics.errors@ == old(diagnostics).errors@,
            denied_seq == (if denies_bool {
                Some(seq![PrimitiveType::Bool])
            } else {
                Option::<Seq<PrimitiveType>>::None
            }),
            has_unifier ==> {
                &&& uni.descriptor.width >= 1
                &&& uni.last_node == n
                &&& denied_view(&uni.denied_primitives) == denied_seq
                &&& (denies_bool ==> uni.descriptor.primitive != PrimitiveType::Bool)
            },
            forall|i0: int, q0: int|
                0 <= i0 < i && 0 <= q0 < m.inputs@[i0]@.len() ==> #[trigger] entry_state_ok(
                    program,
                    types@,
                    &m,
                    i0,
                    q0,
                    has_unifier,
                    uni.descriptor,
                ),
            has_unifier ==> exists|i0: int, q0: int|
                0 <= i0 < i && 0 <= q0 < m.inputs@[i0]@.len() && (types@[(
                #[trigger] m.inputs@[i0]@[q0]).source_node as int] matches Some(
                    DataType::Vector(sv),
                ) && sv.width == uni.descriptor.width),
        decreases m.inputs@.len() - i,
    {
        let slot_len = m.inputs[i].len();
        let mut q: usize = 0;
        while q < slot_len
            invariant
                program.wf(),
                n < program.graph.nodes@.len(),
                types_ok(program, types@),
                is_materialization(&program.graph, n, Some(program.start_node), &m),
                i < m.inputs@.len(),
                slot_len == m.inputs@[i as int]@.len(),
                q <= slot_len,
                constraint_matches(&program.graph.nodes@[n as int].op, &descriptor),
                !(program.graph.nodes@[n as int].op matches Op::Final),
                denies_bool ==> crate::op::op_denies_bool(&program.graph.nodes@[n as int].op),
                node_arity_ok(program, n as int),
                diagnostics.errors@ == old(diagnostics).errors@,
                denied_seq == (if denies_bool {
                    Some(seq![PrimitiveType::Bool])
                } else {
                    Option::<Seq<PrimitiveType>>::None
                }),
                has_unifier ==> {
                    &&& uni.descriptor.width >= 1
                    &&& uni.last_node == n
                    &&& denied_view(&uni.denied_primitives) == denied_seq
                    &&& (denies_bool ==> uni.descriptor.primitive != PrimitiveType::Bool)
                },
                forall|i0: int, q0: int|
                    (0 <= i0 < i || (i0 == i && 0 <= q0)) && 0 <= q0 < m.inputs@[i0]@.len() && (i0
                        < i || q0 < q) ==> #[trigger] entry_state_ok(
                        program,
                        types@,
                        &m,
                        i0,
                        q0,
                        has_unifier,
                        uni.descriptor,
                    ),
                has_unifier ==> exists|i0: int, q0: int|
                    0 <= i0 <= i && 0 <= q0 < m.inputs@[i0]@.len() && (i0 < i || q0 < q) && (types@[(
                    #[trigger] m.inputs@[i0]@[q0]).source_node as int] matches Some(
                        DataType::Vector(sv),
                    ) && sv.width == uni.descriptor.width),
            decreases slot_len - q,
        {
            let entry = m.inputs[i][q];
            let src = entry.source_node;
            proof {
                assert(m.inputs@[i as int]@[q as int].edge < program.graph.edges@.len());
                assert(src < program.graph.nodes@.len());
            }
            let src_ty = if src < types.len() {
                types[src]
            } else {
                None
            };
            match src_ty {
                None => {
                    proof {
                        let en = m.inputs@[i as int]@[q as int];
                        assert(edge_into(program, n as int, en.edge as int));
                        assert(program.graph.edges@[en.edge as int].source == en.source_node);
                        assert(types@[en.source_node as int] is None);
                        reveal(node_blocked);
            assert(node_blocked(program, types@, n as int));
                    }
                    return NodeOutcome::Uncheckable;
                },
                Some(DataType::Never) => {
                    // an untyped dependency (the Final node can show up
                    // here); skip it silently.
                },
                Some(DataType::Vector(vd)) => {
                    let ghost has_pre = has_unifier;
                    let ghost d_pre = uni.descriptor;
                    if !has_unifier {
                        let denied: Option<Vec<PrimitiveType>> = if denies_bool {
                            let dl: Vec<PrimitiveType> = vec![PrimitiveType::Bool];
                            proof {
                                assert(dl@ =~= seq![PrimitiveType::Bool]);
                            }
                            Some(dl)
                        } else {
                            None
                        };
                        proof {
                            assert(denied_view(&denied) == denied_seq);
                        }
                        match VectorUnifier::new(program, n, vd, denied) {
                            Ok(u) => {
                                proof {
                                    if denies_bool {
                                        assert(!primitive_denied(denied_seq, vd.primitive));
                                        assert(denied_seq matches Some(l) && l.contains(
                                            PrimitiveType::Bool,
                                        ));
                                    }
                                }
                                uni = u;
                                has_unifier = true;
                                proof {
                                    // everything visited before was a Never:
                                    // no unifier existed yet.
                                    assert forall|i0: int, q0: int|
                                        0 <= i0 <= i && 0 <= q0 < m.inputs@[i0]@.len() && (i0 < i
                                            || q0 < q) implies #[trigger] entry_state_ok(
                                        program,
                                        types@,
                                        &m,
                                        i0,
                                        q0,
                                        true,
                                        uni.descriptor,
                                    ) by {
                                        assert(entry_state_ok(
                                            program,
                                            types@,
                                            &m,
                                            i0,
                                            q0,
                                            has_pre,
                                            d_pre,
                                        ));
                                    }
                                    assert(entry_state_ok(
                                        program,
                                        types@,
                                        &m,
                                        i as int,
                                        q as int,
                                        true,
                                        uni.descriptor,
                                    ));
                                }
                            },
                            Err(d) => {
                                proof {
                                    let en = m.inputs@[i as int]@[q as int];
                                    assert(edge_into(program, n as int, en.edge as int));
                                    assert(program.graph.edges@[en.edge as int].source
                                        == en.source_node);
                                    assert(types@[en.source_node as int] == Some(
                                        DataType::Vector(vd),
                                    ));
                                    if primitive_denied(denied_seq, vd.primitive) {
                                        assert(denies_bool);
                                        assert(seq![PrimitiveType::Bool].contains(vd.primitive));
                                        assert(seq![PrimitiveType::Bool][0]
                                            == PrimitiveType::Bool);
                                        assert(vd.primitive == PrimitiveType::Bool);
                                    } else {
                                        assert(vd.width == 0);
                                    }
                                    reveal(node_blocked);
            assert(node_blocked(program, types@, n as int));
                                }
                                diagnostics.add_diagnostic(d);
                                return NodeOutcome::Diagnosed;
                            },
                        }
                    } else {
                        match uni.present(program, n, vd) {
                            Ok(()) => {
                                proof {
                                    // descriptors only widen from width 1,
                                    // so visited entries stay consistent.
                                    assert forall|i0: int, q0: int|
                                        0 <= i0 <= i && 0 <= q0 < m.inputs@[i0]@.len() && (i0 < i
                                            || q0 < q) implies #[trigger] entry_state_ok(
                                        program,
                                        types@,
                                        &m,
                                        i0,
                                        q0,
                                        true,
                                        uni.descriptor,
                                    ) by {
                                        assert(entry_state_ok(
                                            program,
                                            types@,
                                            &m,
                                            i0,
                                            q0,
                                            true,
                                            d_pre,
                                        ));
                                        assert(uni.descriptor.width == d_pre.width || d_pre.width
                                            == 1);
                                    }
                                    assert(entry_state_ok(
                                        program,
                                        types@,
                                        &m,
                                        i as int,
                                        q as int,
                                        true,
                                        uni.descriptor,
                                    ));
                                    // the accumulated width is realized by a
                                    // visited entry.
                                    if vd.width != uni.descriptor.width {
                                        assert(uni.descriptor.width == d_pre.width);
                                    }
                                }
                            },
                            Err(d) => {
                                proof {
                                    let en = m.inputs@[i as int]@[q as int];
                                    assert(edge_into(program, n as int, en.edge as int));
                                    assert(program.graph.edges@[en.edge as int].source
                                        == en.source_node);
                                    assert(types@[en.source_node as int] == Some(
                                        DataType::Vector(vd),
                                    ));
                                    if primitive_denied(denied_seq, vd.primitive) {
                                        assert(denies_bool);
                                        assert(seq![PrimitiveType::Bool].contains(vd.primitive));
                                        assert(seq![PrimitiveType::Bool][0]
                                            == PrimitiveType::Bool);
                                        assert(vd.primitive == PrimitiveType::Bool);
                                    } else {
                                        // a conflict with an already visited
                                        // vector source witnesses blockage.
                                        let (i0, q0) = choose|i0: int, q0: int|
                                            0 <= i0 <= i && 0 <= q0 < m.inputs@[i0]@.len() && (i0
                                                < i || q0 < q) && (types@[(
                                            #[trigger] m.inputs@[i0]@[q0]).source_node as int]
                                                matches Some(DataType::Vector(sv)) && sv.width
                                                == uni.descriptor.width);
                                        let en2 = m.inputs@[i0]@[q0];
                                        assert(edge_into(program, n as int, en2.edge as int));
                                        assert(program.graph.edges@[en2.edge as int].source
                                            == en2.source_node);
                                        assert(entry_state_ok(
                                            program,
                                            types@,
                                            &m,
                                            i0,
                                            q0,
                                            true,
                                            uni.descriptor,
                                        ));
                                        if vd.primitive != d_pre.primitive {
                                        } else if vd.width == 0 {
                                        } else {
                                            assert(d_pre.width != 1 && vd.width != 1
                                                && d_pre.width != vd.width);
                                        }
                                    }
                                    reveal(node_blocked);
            assert(node_blocked(program, types@, n as int));
                                }
                                diagnostics.add_diagnostic(d);
                                return NodeOutcome::Diagnosed;
                            },
                        }
                    }
                },
            }
            proof {
                if types@[src as int] matches Some(DataType::Never) {
                    assert(entry_state_ok(
                        program,
                        types@,
                        &m,
                        i as int,
                        q as int,
                        has_unifier,
                        uni.descriptor,
                    ));
                }
            }
            q += 1;
        }
        i += 1;
    }
    let ghost d_final = uni.descriptor;
    proof {
        if has_unifier {
            assert forall|i0: int, q0: int|
                0 <= i0 < m.inputs@.len() && 0 <= q0 < m.inputs@[i0]@.len()
                    implies #[trigger] entry_state_ok(program, types@, &m, i0, q0, true, d_final) by {
                assert(entry_state_ok(program, types@, &m, i0, q0, has_unifier, uni.descriptor));
            }
            assert(exists|i0: int, q0: int|
                0 <= i0 < i && 0 <= q0 < m.inputs@[i0]@.len() && (types@[(
                #[trigger] m.inputs@[i0]@[q0]).source_node as int] matches Some(
                    DataType::Vector(sv),
                ) && sv.width == uni.descriptor.width));
            assert(i == m.inputs@.len());
            assert(exists|i0: int, q0: int|
                0 <= i0 < m.inputs@.len() && 0 <= q0 < m.inputs@[i0]@.len() && (types@[(
                #[trigger] m.inputs@[i0]@[q0]).source_node as int] matches Some(
                    DataType::Vector(sv),
                ) && sv.width == d_final.width));
        }
    }
    let unified_ty: Option<VectorDescriptor> = if has_unifier {
        match uni.resolve(program) {
            Ok(x) => Some(x),
            Err(d) => {
                diagnostics.add_diagnostic(d);
                return NodeOutcome::Diagnosed;
            },
        }
    } else {
        None
    };
    // apply the operation's own constraint.
    match descriptor.constraint {
        TypeConstraint::IsExactly { data_type, .. } => {
            proof {
                assert(node_sources_ok(program, types@, n as int, data_type));
            }
            NodeOutcome::Typed(data_type)
        },
        TypeConstraint::IsFromInput(i) => {
            if i >= program.inputs.len() {
                let mut what = String::from_str("attempt to read input ");
                let i_str = i.to_string();
                what.append(i_str.as_str());
                what.append(", but only ");
                let n_str = program.inputs.len().to_string();
                what.append(n_str.as_str());
                what.append(" inputs available");
                proof {
                    reveal(node_blocked);
                    assert(node_blocked(program, types@, n as int));
                }
                diagnose_node(program, diagnostics, n, what.as_str());
                return NodeOutcome::Diagnosed;
            }
            proof {
                assert(node_sources_ok(
                    program,
                    types@,
                    n as int,
                    DataType::Vector(program.inputs@[i as int]),
                ));
            }
            NodeOutcome::Typed(DataType::Vector(program.inputs[i]))
        },
        TypeConstraint::IsFromProperty(i) => {
            if i >= program.properties.len() {
                let mut what = String::from_str("attempt to read property ");
                let i_str = i.to_string();
                what.append(i_str.as_str());
                what.append(", but only ");
                let n_str = program.properties.len().to_string();
                what.append(n_str.as_str());
                what.append(" properties available");
                proof {
                    reveal(node_blocked);
                    assert(node_blocked(program, types@, n as int));
                }
                diagnose_node(program, diagnostics, n, what.as_str());
                return NodeOutcome::Diagnosed;
            }
            proof {
                assert(node_sources_ok(
                    program,
                    types@,
                    n as int,
                    DataType::Vector(
                        VectorDescriptor { primitive: program.properties@[i as int], width: 1 },
                    ),
                ));
            }
            NodeOutcome::Typed(DataType::new_vector(program.properties[i], 1))
        },
        TypeConstraint::IsFromState(i) => {
            if i >= program.states.len() {
                let mut what = String::from_str("attempt to read state ");
                let i_str = i.to_string();
                what.append(i_str.as_str());
                what.append(", but only ");
                let n_str = program.states.len().to_string();
                what.append(n_str.as_str());
                what.append(" states available");
                proof {
                    reveal(node_blocked);
                    assert(node_blocked(program, types@, n as int));
                }
                diagnose_node(program, diagnostics, n, what.as_str());
                return NodeOutcome::Diagnosed;
            }
            proof {
                assert(node_sources_ok(
                    program,
                    types@,
                    n as int,
                    DataType::Vector(program.states@[i as int].vector),
                ));
            }
            NodeOutcome::Typed(DataType::Vector(program.states[i].vector))
        },
        TypeConstraint::IsFromOutput(o) => {
            if o >= program.outputs.len() {
                let mut what = String::from_str("attempt to write output ");
                let o_str = o.to_string();
                what.append(o_str.as_str());
                what.append(", but only ");
                let n_str = program.outputs.len().to_string();
                what.append(n_str.as_str());
                what.append(" outputs available");
                proof {
                    reveal(node_blocked);
                    assert(node_blocked(program, types@, n as int));
                }
                diagnose_node(program, diagnostics, n, what.as_str());
                return NodeOutcome::Diagnosed;
            }
            let expected = program.outputs[o];
            match unified_ty {
                Some(has) => {
                    if expected != has {
                        let mut what = String::from_str("attempt to write output ");
                        let o_str = o.to_string();
                        what.append(o_str.as_str());
                        what.append(": expected ");
                        let e_str = expected.render();
                        what.append(e_str.as_str());
                        what.append(" but found ");
                        let h_str = has.render();
                        what.append(h_str.as_str());
                        proof {
                            lemma_crosscheck_blocked(program, types@, &m, n, d_final, expected);
                            reveal(node_blocked);
            assert(node_blocked(program, types@, n as int));
                        }
                        diagnose_node(program, diagnostics, n, what.as_str());
                        return NodeOutcome::Diagnosed;
                    }
                    proof {
                        lemma_walk_gives_sources_ok(program, types@, &m, n, d_final, expected);
                    }
                    NodeOutcome::Typed(DataType::Vector(expected))
                },
                None => {
                    proof {
                        lemma_no_data_blocked(program, types@, &m, n, d_final);
                    }
                    diagnose_node(program, diagnostics, n, "no data-carrying input reached this node");
                    NodeOutcome::Diagnosed
                },
            }
        },
        TypeConstraint::IsIntoState(s) => {
            if s >= program.states.len() {
                let mut what = String::from_str("attempt to write state ");
                let s_str = s.to_string();
                what.append(s_str.as_str());
                what.append(", but only ");
                let n_str = program.states.len().to_string();
                what.append(n_str.as_str());
                what.append(" states available");
                proof {
                    reveal(node_blocked);
                    assert(node_blocked(program, types@, n as int));
                }
                diagnose_node(program, diagnostics, n, what.as_str());
                return NodeOutcome::Diagnosed;
            }
            let expected = program.states[s].vector;
            match unified_ty {
                Some(has) => {
                    if expected != has {
                        let mut what = String::from_str("attempt to write state ");
                        let s_str = s.to_string();
                        what.append(s_str.as_str());
                        what.append(": expected ");
                        let e_str = expected.render();
                        what.append(e_str.as_str());
                        what.append(" but found ");
                        let h_str = has.render();
                        what.append(h_str.as_str());
                        proof {
                            lemma_crosscheck_blocked(program, types@, &m, n, d_final, expected);
                            reveal(node_blocked);
            assert(node_blocked(program, types@, n as int));
                        }
                        diagnose_node(program, diagnostics, n, what.as_str());
                        return NodeOutcome::Diagnosed;
                    }
                    proof {
                        lemma_walk_gives_sources_ok(program, types@, &m, n, d_final, expected);
                    }
                    NodeOutcome::Typed(DataType::Vector(expected))
                },
                None => {
                    proof {
                        lemma_no_data_blocked(program, types@, &m, n, d_final);
                    }
                    diagnose_node(program, diagnostics, n, "no data-carrying input reached this node");
                    NodeOutcome::Diagnosed
                },
            }
        },
        TypeConstraint::IsPrimitive(prim) => {
            match unified_ty {
                Some(got) => {
                    proof {
                        lemma_walk_gives_sources_ok(
                            program,
                            types@,
                            &m,
                            n,
                            d_final,
                            VectorDescriptor { primitive: prim, width: got.width },
                        );
                    }
                    NodeOutcome::Typed(DataType::new_vector(prim, got.width))
                },
                None => {
                    proof {
                        lemma_no_data_blocked(program, types@, &m, n, d_final);
                    }
                    diagnose_node(program, diagnostics, n, "no data-carrying input reached this node");
                    NodeOutcome::Diagnosed
                },
            }
        },
        TypeConstraint::MustNotBeBool => {
            match unified_ty {
                Some(got) => {
                    proof {
                        lemma_walk_gives_sources_ok(program, types@, &m, n, d_final, got);
                    }
                    NodeOutcome::Typed(DataType::Vector(got))
                },
                None => {
                    proof {
                        lemma_no_data_blocked(program, types@, &m, n, d_final);
                    }
                    diagnose_node(program, diagnostics, n, "no data-carrying input reached this node");
                    NodeOutcome::Diagnosed
                },
            }
        },
    }
}

/// Run type inference: a topological walk that types every node or pushes
/// diagnostics for everything that prevents it.
///
/// On success every node has a type, the Start and Final nodes resolve to
/// `Never`, every other node to a vector respecting its operation's
/// constraint, and no diagnostic was pushed.  On failure at least one
/// diagnostic was pushed.
#[verifier::rlimit(100)]
pub fn type_inference(program: &Program, diagnostics: &mut DiagnosticCollection) -> (r: Result<
    TypeInfo,
    TypeInferenceError,
>)
    requires
        program.wf(),
    ensures
        r matches Ok(ti) ==> {
            &&& types_consistent(program, ti.types@)
            &&& forall|j: int| 0 <= j < ti.types@.len() ==> (#[trigger] ti.types@[j]) is Some
            &&& forall|j: int| 0 <= j < ti.types@.len() ==> node_arity_ok(program, j)
            &&& final(diagnostics).errors@ == old(diagnostics).errors@
        },
        r is Err ==> final(diagnostics).errors@.len() > old(diagnostics).errors@.len(),
        // failure is genuine: either the graph has a cycle, or the typing
        // reached a fixed point that leaves some node blocked, and every
        // untyped node either waits on an unresolved source or has a
        // diagnostic of its own in the appended range.
        r is Err ==> (exists|sset: Set<OperationGraphNode>, w: OperationGraphNode|
            sset.contains(w) && crate::program::is_stuck_set(&program.graph, sset)) || (exists|
            ts: Seq<Option<DataType>>,
        |
            {
                &&& ts.len() == program.graph.nodes@.len()
                &&& types_consistent(program, ts)
                &&& closed_typing(program, ts)
                &&& exists|y: int| 0 <= y < ts.len() && (#[trigger] ts[y]) is None
                &&& forall|y: int|
                    0 <= y < ts.len() && (#[trigger] ts[y]) is None ==> ((exists|k: int|
                        #[trigger] edge_into(program, y, k) && (program.graph.edges@[k].source
                            >= ts.len() || ts[program.graph.edges@[k].source as int] is None)) || (
                    exists|d: int|
                        old(diagnostics).errors@.len() <= d < final(diagnostics).errors@.len() && (
                        #[trigger] final(diagnostics).errors@[d]).node_refs@.len() >= 1 && (forall|
                            q: int,
                        |
                            0 <= q < final(diagnostics).errors@[d].node_refs@.len() ==> final(diagnostics).errors@[d].node_refs@[q].node == y)))
            }),
{
    let n_nodes = program.graph.num_nodes();
    let order = match program.topological_sort() {
        Ok(o) => o,
        Err(d) => {
            proof {
                let sset = choose|sset: Set<OperationGraphNode>|
                    sset.contains(d.node_refs@[0].node) && crate::program::is_stuck_set(
                        &program.graph,
                        sset,
                    );
                assert(sset.contains(d.node_refs@[0].node) && crate::program::is_stuck_set(
                    &program.graph,
                    sset,
                ));
            }
            diagnostics.add_diagnostic(d);
            return Err(TypeInferenceError);
        },
    };
    let mut types: Vec<Option<DataType>> = Vec::new();
    let mut k: usize = 0;
    while k < n_nodes
        invariant
            k <= n_nodes,
            types@.len() == k,
            forall|j: int| 0 <= j < k ==> (#[trigger] types@[j]) is None,
        decreases n_nodes - k,
    {
        types.push(None);
        k += 1;
    }
    let mut uncheckable_count: usize = 0;
    let mut i: usize = 0;
    while i < order.len()
        invariant
            program.wf(),
            n_nodes == program.graph.nodes@.len(),
            crate::program::is_topological_order(&program.graph, order@),
            order@.len() == n_nodes,
            forall|j: int| 0 <= j < order@.len() ==> (#[trigger] order@[j]) < n_nodes,
            forall|j1: int, j2: int| 0 <= j1 < j2 < order@.len() ==> order@[j1] != order@[j2],
            i <= order@.len(),
            uncheckable_count <= i,
            types_ok(program, types@),
            forall|j: int|
                0 <= j < types@.len() ==> ((#[trigger] types@[j]) matches Some(tj)
                    ==> node_sources_ok(program, types@, j, tj)),
            // positions not yet visited are still untyped.
            forall|j: int|
                i <= j < order@.len() ==> (#[trigger] types@[order@[j] as int]) is None,
            // the diagnostics only ever grow.
            diagnostics.errors@.len() >= old(diagnostics).errors@.len(),
            forall|k2: int|
                0 <= k2 < old(diagnostics).errors@.len() ==> #[trigger] diagnostics.errors@[k2]
                    == old(diagnostics).errors@[k2],
            // growth witnesses an untyped node.
            diagnostics.errors@.len() > old(diagnostics).errors@.len() ==> exists|j: int|
                0 <= j < i && (#[trigger] types@[order@[j] as int]) is None,
            // an untyped processed node is explained by a diagnostic or an
            // uncheckable source.
            forall|j: int|
                0 <= j < i && (#[trigger] types@[order@[j] as int]) is None ==> (
                diagnostics.errors@.len() > old(diagnostics).errors@.len() || uncheckable_count
                    > 0),
            // typed nodes satisfy their operation's arity.
            forall|j: int|
                0 <= j < types@.len() ==> ((#[trigger] types@[j]) is Some ==> node_arity_ok(
                    program,
                    j,
                )),
            // every processed node is typed or genuinely blocked.
            forall|j: int|
                0 <= j < i ==> ((#[trigger] types@[order@[j] as int]) is Some || node_blocked(
                    program,
                    types@,
                    order@[j] as int,
                )),
            // an untyped processed node waits on an unresolved source or
            // has a diagnostic of its own.
            forall|j: int|
                0 <= j < i && (#[trigger] types@[order@[j] as int]) is None ==> ((exists|k: int|
                    #[trigger] edge_into(program, order@[j] as int, k) && (
                    program.graph.edges@[k].source >= types@.len()
                        || types@[program.graph.edges@[k].source as int] is None)) || (exists|
                    d: int,
                |
                    old(diagnostics).errors@.len() <= d < diagnostics.errors@.len() && (
                    #[trigger] diagnostics.errors@[d]).node_refs@.len() >= 1 && (forall|q: int|
                        0 <= q < diagnostics.errors@[d].node_refs@.len()
                            ==> diagnostics.errors@[d].node_refs@[q].node == order@[j]))),
        decreases order@.len() - i,
    {
        let node = order[i];
        let ghost types_pre = types@;
        match infer_node_type(program, &types, node, diagnostics) {
            NodeOutcome::Typed(t) => {
                types[node] = Some(t);
                proof {
                    // the typed node cannot be its own source: a self-edge
                    // contradicts the topological order.
                    assert forall|k: int|
                        #[trigger] edge_into(program, node as int, k)
                            implies program.graph.edges@[k].source != node by {
                        if program.graph.edges@[k].source == node {
                            lemma_distinct_seq_covers(order@, n_nodes as int, node as int);
                            let pos = choose|p2: int|
                                0 <= p2 < order@.len() && (#[trigger] order@[p2]) == node;
                            let jj = choose|jj: int|
                                0 <= jj < pos && order@[jj] == program.graph.edges@[k].source;
                            assert(order@[jj] == order@[pos]);
                        }
                    }
                    assert forall|k: int|
                        #[trigger] edge_into(program, node as int, k)
                            implies types@[program.graph.edges@[k].source as int]
                            == types_pre[program.graph.edges@[k].source as int] by {
                        assert(program.graph.edges@[k].source != node);
                    }
                    lemma_sources_ok_stable(program, types_pre, types@, node as int, t);
                    // nodes typed earlier never had this one as a source: it
                    // was still untyped when they resolved.
                    assert forall|j: int|
                        0 <= j < types@.len() implies ((#[trigger] types@[j]) matches Some(tj)
                            ==> node_sources_ok(program, types@, j, tj)) by {
                        if types@[j] is Some {
                            let tj = types@[j]->Some_0;
                            if j != node as int {
                                assert(types_pre[j] == types@[j]);
                                assert(node_sources_ok(program, types_pre, j, tj));
                                match program.graph.nodes@[j].op {
                                    Op::Cast(_) | Op::Negate | Op::BinOp(_) | Op::WriteOutput(_)
                                        | Op::WriteState { .. } => {
                                        assert forall|k: int|
                                            #[trigger] edge_into(program, j, k)
                                                implies types@[program.graph.edges@[k].source as int]
                                                == types_pre[program.graph.edges@[k].source as int] by {
                                            if program.graph.edges@[k].source == node {
                                                assert(types_pre[node as int] is Some);
                                                assert(types_pre[node as int] is None);
                                            }
                                        }
                                        lemma_sources_ok_stable(program, types_pre, types@, j, tj);
                                    },
                                    _ => {
                                        assert(node_sources_ok(program, types@, j, tj));
                                    },
                                }
                            }
                        }
                    }
                    // earlier blocked nodes stay blocked: all their sources
                    // come before them in the order, so none is the node
                    // typed now.
                    assert forall|j: int|
                        0 <= j < i && !((#[trigger] types@[order@[j] as int]) is Some) implies {
                        &&& node_blocked(program, types@, order@[j] as int)
                        &&& forall|k: int|
                            #[trigger] edge_into(program, order@[j] as int, k)
                                ==> types@[program.graph.edges@[k].source as int]
                                == types_pre[program.graph.edges@[k].source as int]
                    } by {
                        let y = order@[j] as int;
                        assert(order@[j] != order@[i as int]);
                        assert(types@[y] == types_pre[y]);
                        assert(node_blocked(program, types_pre, y));
                        assert forall|k: int| #[trigger] edge_into(program, y, k)
                            implies types@[program.graph.edges@[k].source as int]
                            == types_pre[program.graph.edges@[k].source as int] by {
                            let src = program.graph.edges@[k].source;
                            assert(order@[j] == program.graph.edges@[k].target);
                            let p = choose|p: int| 0 <= p < j && order@[p] == src;
                            assert(order@[p] != order@[i as int]);
                            assert(src != node);
                        }
                        lemma_blocked_stable(program, types_pre, types@, y);
                    }
                }
            },
            NodeOutcome::Diagnosed => {},
            NodeOutcome::Uncheckable => {
                uncheckable_count += 1;
            },
        }
        proof {
            if diagnostics.errors@.len() > old(diagnostics).errors@.len() {
                if exists|j: int| 0 <= j < i && (#[trigger] types_pre[order@[j] as int]) is None {
                    let j0 = choose|j: int|
                        0 <= j < i && (#[trigger] types_pre[order@[j] as int]) is None;
                    assert(order@[j0] != order@[i as int]);
                    assert(types@[order@[j0] as int] is None);
                } else {
                    // growth happened this iteration, which leaves the
                    // visited node untyped.
                    assert(types@[order@[i as int] as int] is None);
                }
            }
            // the node visited now satisfies the per-position invariants.
            if types@[order@[i as int] as int] is None {
                assert(node_blocked(program, types@, order@[i as int] as int));
            }
        }
        i += 1;
    }
    // did every node get a type?
    let mut all_typed = true;
    let mut k: usize = 0;
    while k < n_nodes
        invariant
            n_nodes == types@.len(),
            k <= n_nodes,
            all_typed <==> forall|j: int| 0 <= j < k ==> (#[trigger] types@[j]) is Some,
        decreases n_nodes - k,
    {
        if types[k].is_none() {
            all_typed = false;
        }
        k += 1;
    }
    if !all_typed {
        proof {
            let missing = choose|j: int| 0 <= j < types@.len() && !((#[trigger] types@[j]) is Some);
            lemma_distinct_seq_covers(order@, n_nodes as int, missing);
            let pos = choose|p: int| 0 <= p < order@.len() && (#[trigger] order@[p]) == missing;
            assert(types@[order@[pos] as int] is None);
        }
        let ghost diag_exit = diagnostics.errors@;
        if uncheckable_count > 0 {
            let mut message = String::from_str("Type inference was unable to check ");
            let c_str = uncheckable_count.to_string();
            message.append(c_str.as_str());
            message.append(" nodes entirely; giving up");
            diagnostics.add_simple_diagnostic(program, message, None);
        }
        proof {
            let ts = types@;
            assert forall|j: int| 0 <= j < ts.len() implies ((#[trigger] ts[j]) is Some
                || node_blocked(program, ts, j)) by {
                lemma_distinct_seq_covers(order@, n_nodes as int, j);
                let pos = choose|p: int| 0 <= p < order@.len() && (#[trigger] order@[p]) == j;
                assert(ts[order@[pos] as int] is Some || node_blocked(
                    program,
                    ts,
                    order@[pos] as int,
                ));
            }
            assert(closed_typing(program, ts));
            assert forall|y: int| 0 <= y < ts.len() && (#[trigger] ts[y]) is None implies ((exists|
                k: int,
            |
                #[trigger] edge_into(program, y, k) && (program.graph.edges@[k].source >= ts.len()
                    || ts[program.graph.edges@[k].source as int] is None)) || (exists|d: int|
                old(diagnostics).errors@.len() <= d < diagnostics.errors@.len() && (
                #[trigger] diagnostics.errors@[d]).node_refs@.len() >= 1 && (forall|q: int|
                    0 <= q < diagnostics.errors@[d].node_refs@.len()
                        ==> diagnostics.errors@[d].node_refs@[q].node == y))) by {
                lemma_distinct_seq_covers(order@, n_nodes as int, y);
                let pos = choose|p: int| 0 <= p < order@.len() && (#[trigger] order@[p]) == y;
                assert(ts[order@[pos] as int] is None);
                if exists|d: int|
                    old(diagnostics).errors@.len() <= d < diag_exit.len() && (
                    #[trigger] diag_exit[d]).node_refs@.len() >= 1 && (forall|q: int|
                        0 <= q < diag_exit[d].node_refs@.len() ==> diag_exit[d].node_refs@[q].node
                            == order@[pos]) {
                    let d = choose|d: int|
                        old(diagnostics).errors@.len() <= d < diag_exit.len() && (
                        #[trigger] diag_exit[d]).node_refs@.len() >= 1 && (forall|q: int|
                            0 <= q < diag_exit[d].node_refs@.len()
                                ==> diag_exit[d].node_refs@[q].node == order@[pos]);
                    assert(diagnostics.errors@[d] == diag_exit[d]);
                }
            }
            let missing = choose|j: int| 0 <= j < ts.len() && !((#[trigger] ts[j]) is Some);
            assert(0 <= missing < ts.len() && ts[missing] is None);
        }
        return Err(TypeInferenceError);
    }
    proof {
        if diagnostics.errors@.len() > old(diagnostics).errors@.len() {
            let j = choose|j: int|
                0 <= j < order@.len() && (#[trigger] types@[order@[j] as int]) is None;
            assert(types@[order@[j] as int] is Some);
        }
        assert(diagnostics.errors@.len() == old(diagnostics).errors@.len());
        assert(diagnostics.errors@ =~= old(diagnostics).errors@);
        assert forall|j: int| 0 <= j < types@.len() implies node_arity_ok(program, j) by {
            assert(types@[j] is Some);
        }
    }
    Ok(TypeInfo { types })
}

} // verus!

//! The pass that wires sources to Start and sinks to Final.
//!
//! It makes the graph self-contained, so later passes need no ad-hoc
//! scanning: every node classified [`ImplicitEdgeKind::Start`] gets an edge
//! from the start node, every node classified [`ImplicitEdgeKind::Final`]
//! an edge to the final node, idempotently (keyed on the node pair, only
//! the missing edges are inserted; new synthetic edges take input index 0).
//! Before touching the graph it validates that no node already sits on the
//! wrong side of a boundary, reporting every violation before failing.

use vstd::prelude::*;

use crate::diagnostics::{DiagnosticBuilder, DiagnosticCollection};
use crate::edge::Edge;
use crate::op::{op_implicit_edges, ImplicitEdgeKind, Op};
use crate::program::{
    is_stuck_set, is_topological_order, lemma_topo_refutes_stuck, GraphEdge, OperationGraph,
    OperationGraphNode, Program,
};

verus! {

/// The pass failed; the diagnostics were pushed to the collection.
#[derive(Debug, Eq, PartialEq, Structural, Copy, Clone)]
pub struct InsertStartFinalEdgesError;

/// Which implicit edge this operation gets; the descriptor table's
/// classification.
pub fn implicit_edge_kind(o: &Op) -> (r: ImplicitEdgeKind)
    ensures
        r == op_implicit_edges(o),
{
    o.get_descriptor().implicit_edges
}

/// Does node `n` sit on the wrong side of a boundary?  A source-node must
/// not already have an edge to Final, a sink-node must not have an edge
/// from Start, and no node may have both.
pub open spec fn node_violates(
    g: &OperationGraph,
    start: OperationGraphNode,
    fin: OperationGraphNode,
    n: OperationGraphNode,
) -> bool {
    let kind = op_implicit_edges(&g.nodes@[n as int].op);
    let from_start = g.has_edge_spec(start, n);
    let to_final = g.has_edge_spec(n, fin);
    ||| (kind == ImplicitEdgeKind::Start && to_final)
    ||| (kind == ImplicitEdgeKind::Final && from_start)
    ||| (from_start && to_final)
}

/// No node of the graph violates the boundary rules.
pub open spec fn no_violations(
    g: &OperationGraph,
    start: OperationGraphNode,
    fin: OperationGraphNode,
) -> bool {
    forall|n: OperationGraphNode| n < g.nodes@.len() ==> !node_violates(g, start, fin, n)
}

/// Is `(a, b)` one of the pairs this pass owes the graph?
pub open spec fn boundary_pair(
    g: &OperationGraph,
    start: OperationGraphNode,
    fin: OperationGraphNode,
    a: OperationGraphNode,
    b: OperationGraphNode,
) -> bool {
    ||| (a == start && b < g.nodes@.len() && op_implicit_edges(&g.nodes@[b as int].op)
        == ImplicitEdgeKind::Start)
    ||| (b == fin && a < g.nodes@.len() && op_implicit_edges(&g.nodes@[a as int].op)
        == ImplicitEdgeKind::Final)
}

/// What a successful run leaves behind: the same nodes, every owed boundary
/// edge present, the pre-existing edges untouched (indices, payloads and
/// all), and nothing appended but the owed edges that were missing, one
/// per pair, with input index 0.
pub open spec fn pass_edges_ok(
    pre: &OperationGraph,
    post: &OperationGraph,
    start: OperationGraphNode,
    fin: OperationGraphNode,
) -> bool {
    &&& post.nodes@ == pre.nodes@
    &&& forall|n: OperationGraphNode|
        n < post.nodes@.len() && op_implicit_edges(&post.nodes@[n as int].op)
            == ImplicitEdgeKind::Start ==> #[trigger] post.has_edge_spec(start, n)
    &&& forall|n: OperationGraphNode|
        n < post.nodes@.len() && op_implicit_edges(&post.nodes@[n as int].op)
            == ImplicitEdgeKind::Final ==> #[trigger] post.has_edge_spec(n, fin)
    &&& post.edges@.len() >= pre.edges@.len()
    &&& forall|k: int| 0 <= k < pre.edges@.len() ==> #[trigger] post.edges@[k] == pre.edges@[k]
    &&& forall|k: int|
        pre.edges@.len() <= k < post.edges@.len() ==> {
            let e = #[trigger] post.edges@[k];
            &&& boundary_pair(pre, start, fin, e.source, e.target)
            &&& e.payload == (Edge { input: 0, source_loc: Option::<crate::source_loc::SourceLoc>::None })
            &&& !pre.has_edge_spec(e.source, e.target)
            &&& forall|j: int|
                pre.edges@.len() <= j < k ==> !(post.edges@[j].source == e.source
                    && post.edges@[j].target == e.target)
        }
    &&& forall|a: OperationGraphNode, b: OperationGraphNode|
        #![trigger post.has_edge_spec(a, b)]
        #![trigger pre.has_edge_spec(a, b)]
        post.has_edge_spec(a, b) <==> (pre.has_edge_spec(a, b) || boundary_pair(
            pre,
            start,
            fin,
            a,
            b,
        ))
}

/// Insert the implicit edges from the start node and to the final node.
///
/// On success the graph satisfies [`pass_edges_ok`] and the validation
/// found nothing; on failure the graph is untouched and at least one
/// diagnostic was pushed.
pub fn insert_start_final_edges(
    program: &mut Program,
    diagnostics: &mut DiagnosticCollection,
) -> (r: Result<(), InsertStartFinalEdgesError>)
    requires
        old(program).wf(),
    ensures
        final(program).wf(),
        final(program).inputs@ == old(program).inputs@,
        final(program).outputs@ == old(program).outputs@,
        final(program).properties@ == old(program).properties@,
        final(program).states@ == old(program).states@,
        final(program).start_node == old(program).start_node,
        final(program).final_node == old(program).final_node,
        final(program).graph.nodes@ == old(program).graph.nodes@,
        r is Ok ==> no_violations(
            &old(program).graph,
            old(program).start_node,
            old(program).final_node,
        ) && pass_edges_ok(
            &old(program).graph,
            &final(program).graph,
            old(program).start_node,
            old(program).final_node,
        ) && final(diagnostics).errors@ == old(diagnostics).errors@,
        r is Err ==> final(program).graph.edges@ == old(program).graph.edges@ && final(diagnostics).errors@.len() > old(diagnostics).errors@.len(),
        // success is owed: an acyclic graph with no boundary violation
        // passes.
        no_violations(&old(program).graph, old(program).start_node, old(program).final_node) && (
        exists|o: Seq<OperationGraphNode>|
            is_topological_order(&old(program).graph, o)) ==> r is Ok,
        // every violation is reported with its own diagnostic referencing
        // the offending node.
        (exists|o: Seq<OperationGraphNode>| is_topological_order(&old(program).graph, o))
            ==> forall|y: OperationGraphNode|
            y < old(program).graph.nodes@.len() && #[trigger] node_violates(
                &old(program).graph,
                old(program).start_node,
                old(program).final_node,
                y,
            ) ==> exists|d: int|
                old(diagnostics).errors@.len() <= d < final(diagnostics).errors@.len() && (
                #[trigger] final(diagnostics).errors@[d]).node_refs@.len() == 1 && final(diagnostics).errors@[d].node_refs@[0].node == y,
{
    let n_nodes = program.graph.num_nodes();
    let start = program.start_node;
    let fin = program.final_node;
    // a topological sort gates the pass: a cyclic graph is reported and
    // nothing is touched.
    match program.topological_sort() {
        Ok(_) => {},
        Err(d) => {
            proof {
                let s = choose|s: Set<OperationGraphNode>|
                    s.contains(d.node_refs@[0].node) && is_stuck_set(&program.graph, s);
                assert(!(exists|o: Seq<OperationGraphNode>|
                    is_topological_order(&program.graph, o))) by {
                    if exists|o: Seq<OperationGraphNode>|
                        is_topological_order(&program.graph, o) {
                        let o = choose|o: Seq<OperationGraphNode>|
                            is_topological_order(&program.graph, o);
                        lemma_topo_refutes_stuck(&program.graph, o, s);
                    }
                }
            }
            diagnostics.add_diagnostic(d);
            return Err(InsertStartFinalEdgesError);
        },
    }
    // validate every node before inserting anything, so the diagnostics
    // cover the whole program.
    let mut validation_succeeded = true;
    let mut n: usize = 0;
    while n < n_nodes
        invariant
            *program == *old(program),
            n_nodes == program.graph.nodes@.len(),
            start == program.start_node,
            fin == program.final_node,
            program.wf(),
            n <= n_nodes,
            validation_succeeded ==> forall|y: OperationGraphNode|
                y < n ==> !node_violates(&program.graph, start, fin, y),
            validation_succeeded ==> diagnostics.errors@ == old(diagnostics).errors@,
            !validation_succeeded ==> diagnostics.errors@.len() > old(diagnostics).errors@.len(),
            !validation_succeeded ==> exists|y: OperationGraphNode|
                y < n_nodes && node_violates(&program.graph, start, fin, y),
            diagnostics.errors@.len() >= old(diagnostics).errors@.len(),
            forall|y: OperationGraphNode|
                y < n && #[trigger] node_violates(&program.graph, start, fin, y) ==> exists|
                    d: int,
                |
                    old(diagnostics).errors@.len() <= d < diagnostics.errors@.len() && (
                    #[trigger] diagnostics.errors@[d]).node_refs@.len() == 1
                        && diagnostics.errors@[d].node_refs@[0].node == y,
        decreases n_nodes - n,
    {
        let ghost diags_pre = diagnostics.errors@;
        let kind = implicit_edge_kind(&program.graph.nodes[n].op);
        let needs_start = matches!(kind, ImplicitEdgeKind::Start);
        let needs_final = matches!(kind, ImplicitEdgeKind::Final);
        let has_start = program.graph.contains_edge(start, n);
        let has_final = program.graph.contains_edge(n, fin);
        let err: Option<&'static str> = if needs_start && has_final {
            Some("Nodes which connect to the start node must not be connected to the final node")
        } else if has_start && needs_final {
            Some("Nodes which end the program must not connect to the start node")
        } else if has_start && has_final {
            Some("Nodes cannot be connected both to the start and final node at the same time")
        } else {
            None
        };
        match err {
            Some(msg) => {
                proof {
                    assert(node_violates(&program.graph, start, fin, n as OperationGraphNode));
                }
                let ghost len_before = diagnostics.errors@.len();
                let mut db = DiagnosticBuilder::new(String::from_str(msg), None);
                db.node_ref(String::from_str("The problematic node"), n);
                let d = db.build(program);
                diagnostics.add_diagnostic(d);
                proof {
                    assert(diagnostics.errors@[len_before as int].node_refs@.len() == 1);
                    assert(diagnostics.errors@[len_before as int].node_refs@[0].node == n);
                    assert forall|y: OperationGraphNode|
                        y < n + 1 && #[trigger] node_violates(
                            &program.graph,
                            start,
                            fin,
                            y,
                        ) implies exists|di: int|
                        old(diagnostics).errors@.len() <= di < diagnostics.errors@.len() && (
                        #[trigger] diagnostics.errors@[di]).node_refs@.len() == 1
                            && diagnostics.errors@[di].node_refs@[0].node == y by {
                        if y == n {
                            assert(diagnostics.errors@[len_before as int].node_refs@[0].node == y);
                        } else {
                            let di = choose|di: int|
                                old(diagnostics).errors@.len() <= di < diags_pre.len() && (
                                #[trigger] diags_pre[di]).node_refs@.len() == 1
                                    && diags_pre[di].node_refs@[0].node == y;
                            assert(diagnostics.errors@[di] == diags_pre[di]);
                        }
                    }
                }
                validation_succeeded = false;
            },
            None => {
                proof {
                    assert(!node_violates(&program.graph, start, fin, n as OperationGraphNode));
                }
            },
        }
        n += 1;
    }
    if !validation_succeeded {
        proof {
            let y = choose|y: OperationGraphNode|
                y < n_nodes && node_violates(&program.graph, start, fin, y);
            assert(node_violates(&old(program).graph, start, fin, y));
        }
        return Err(InsertStartFinalEdgesError);
    }
    // insert the owed edges that are missing; pre-existing connections
    // are left exactly as they are.
    let ghost pre = program.graph;
    let mut n: usize = 0;
    while n < n_nodes
        invariant
            n_nodes == program.graph.nodes@.len(),
            start == program.start_node,
            fin == program.final_node,
            start < n_nodes,
            fin < n_nodes,
            program.wf(),
            program.inputs@ == old(program).inputs@,
            program.outputs@ == old(program).outputs@,
            program.properties@ == old(program).properties@,
            program.states@ == old(program).states@,
            program.graph.nodes@ == pre.nodes@,
            n <= n_nodes,
            forall|y: OperationGraphNode|
                y < n && op_implicit_edges(&program.graph.nodes@[y as int].op)
                    == ImplicitEdgeKind::Start ==> #[trigger] program.graph.has_edge_spec(start, y),
            forall|y: OperationGraphNode|
                y < n && op_implicit_edges(&program.graph.nodes@[y as int].op)
                    == ImplicitEdgeKind::Final ==> #[trigger] program.graph.has_edge_spec(y, fin),
            program.graph.edges@.len() >= pre.edges@.len(),
            forall|k: int|
                0 <= k < pre.edges@.len() ==> #[trigger] program.graph.edges@[k] == pre.edges@[k],
            forall|k: int|
                pre.edges@.len() <= k < program.graph.edges@.len() ==> {
                    let e = #[trigger] program.graph.edges@[k];
                    &&& boundary_pair(&pre, start, fin, e.source, e.target)
                    &&& e.payload == (Edge {
                        input: 0,
                        source_loc: Option::<crate::source_loc::SourceLoc>::None,
                    })
                    &&& !pre.has_edge_spec(e.source, e.target)
                    &&& forall|j: int|
                        pre.edges@.len() <= j < k ==> !(program.graph.edges@[j].source == e.source
                            && program.graph.edges@[j].target == e.target)
                },
            forall|a: OperationGraphNode, b: OperationGraphNode|
                #![trigger program.graph.has_edge_spec(a, b)]
                #![trigger pre.has_edge_spec(a, b)]
                program.graph.has_edge_spec(a, b) <==> (pre.has_edge_spec(a, b) || (boundary_pair(
                    &pre,
                    start,
                    fin,
                    a,
                    b,
                ) && (if a == start {
                    b < n
                } else {
                    a < n
                }))),
        decreases n_nodes - n,
    {
        let kind = implicit_edge_kind(&program.graph.nodes[n].op);
        let ghost g_pre = program.graph;
        match kind {
            ImplicitEdgeKind::NoEdges => {},
            ImplicitEdgeKind::Start => {
                if !program.graph.contains_edge(start, n) {
                    program.graph.add_edge(start, n, Edge { input: 0, source_loc: None });
                    proof {
                        lemma_add_edge_set(
                            &g_pre,
                            &program.graph,
                            start,
                            n as OperationGraphNode,
                            Edge { input: 0, source_loc: None },
                        );
                    }
                }
            },
            ImplicitEdgeKind::Final => {
                if !program.graph.contains_edge(n, fin) {
                    program.graph.add_edge(n, fin, Edge { input: 0, source_loc: None });
                    proof {
                        lemma_add_edge_set(
                            &g_pre,
                            &program.graph,
                            n as OperationGraphNode,
                            fin,
                            Edge { input: 0, source_loc: None },
                        );
                    }
                }
            },
        }
        n += 1;
    }
    Ok(())
}

/// After appending one edge `(a, b)`, exactly that connection was added to
/// the edge relation.
proof fn lemma_add_edge_set(
    g_pre: &OperationGraph,
    g_post: &OperationGraph,
    a: OperationGraphNode,
    b: OperationGraphNode,
    p: Edge,
)
    requires
        g_post.edges@ == g_pre.edges@.push(GraphEdge { source: a, target: b, payload: p }),
    ensures
        forall|x: OperationGraphNode, y: OperationGraphNode|
            #![trigger g_post.has_edge_spec(x, y)]
            #![trigger g_pre.has_edge_spec(x, y)]
            g_post.has_edge_spec(x, y) <==> (g_pre.has_edge_spec(x, y) || (x == a && y == b)),
{
    assert forall|x: OperationGraphNode, y: OperationGraphNode|
        #![trigger g_post.has_edge_spec(x, y)]
        #![trigger g_pre.has_edge_spec(x, y)]
        g_post.has_edge_spec(x, y) <==> (g_pre.has_edge_spec(x, y) || (x == a && y == b)) by {
        if g_pre.has_edge_spec(x, y) {
            let k = choose|k: int|
                0 <= k < g_pre.edges@.len() && (#[trigger] g_pre.edges@[k]).source == x
                    && g_pre.edges@[k].target == y;
            assert(g_post.edges@[k].source == x && g_post.edges@[k].target == y);
        }
        if g_post.has_edge_spec(x, y) {
            let k = choose|k: int|
                0 <= k < g_post.edges@.len() && (#[trigger] g_post.edges@[k]).source == x
                    && g_post.edges@[k].target == y;
            if k < g_pre.edges@.len() {
                assert(g_pre.edges@[k].source == x && g_pre.edges@[k].target == y);
            } else {
                assert(x == a && y == b);
            }
        }
        if x == a && y == b {
            assert(g_post.edges@[g_pre.edges@.len() as int].source == a);
            assert(g_post.edges@[g_pre.edges@.len() as int].target == b);
        }
    }
}

/// Running the pass a second time changes nothing at all: every edge the
/// second run would owe is already present after the first, so it appends
/// nothing, and pre-existing edges are never touched.
pub proof fn lemma_implicit_edges_idempotent(
    pre: &OperationGraph,
    mid: &OperationGraph,
    post: &OperationGraph,
    start: OperationGraphNode,
    fin: OperationGraphNode,
)
    requires
        pass_edges_ok(pre, mid, start, fin),
        pass_edges_ok(mid, post, start, fin),
    ensures
        post.edges@ == mid.edges@,
        post.nodes@ == mid.nodes@,
{
    // nothing can have been appended: an appended edge would be an owed
    // boundary pair missing from the first run's result, but the first run
    // left none missing.
    if post.edges@.len() > mid.edges@.len() {
        let k = mid.edges@.len() as int;
        let e = post.edges@[k];
        assert(boundary_pair(mid, start, fin, e.source, e.target));
        assert(mid.has_edge_spec(e.source, e.target)) by {
            if e.source == start {
                assert(mid.has_edge_spec(start, e.target));
            } else {
                assert(mid.has_edge_spec(e.source, fin));
            }
        }
        assert(false);
    }
    assert(post.edges@.len() == mid.edges@.len());
    assert(post.edges@ =~= mid.edges@);
}

/// A successful run leaves a graph that would pass the validation again:
/// the inserted edges create no boundary violation.
pub proof fn lemma_pass_preserves_validity(
    pre: &OperationGraph,
    mid: &OperationGraph,
    start: OperationGraphNode,
    fin: OperationGraphNode,
)
    requires
        start < pre.nodes@.len(),
        fin < pre.nodes@.len(),
        start != fin,
        op_implicit_edges(&pre.nodes@[start as int].op) == ImplicitEdgeKind::NoEdges,
        op_implicit_edges(&pre.nodes@[fin as int].op) == ImplicitEdgeKind::NoEdges,
        no_violations(pre, start, fin),
        pass_edges_ok(pre, mid, start, fin),
    ensures
        no_violations(mid, start, fin),
{
    assert forall|n: OperationGraphNode| n < mid.nodes@.len() implies !node_violates(
        mid,
        start,
        fin,
        n,
    ) by {
        assert(!node_violates(pre, start, fin, n));
        let kind = op_implicit_edges(&pre.nodes@[n as int].op);
        assert(mid.has_edge_spec(start, n) <==> (pre.has_edge_spec(start, n) || boundary_pair(
            pre,
            start,
            fin,
            start,
            n,
        )));
        assert(mid.has_edge_spec(n, fin) <==> (pre.has_edge_spec(n, fin) || boundary_pair(
            pre,
            start,
            fin,
            n,
            fin,
        )));
    }
}

} // verus!

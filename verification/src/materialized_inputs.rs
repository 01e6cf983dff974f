//! A per-node view of incoming edges, grouped by input index.
//!
//! Passes need to know a node's actual input structure, not raw edges: for
//! a node N, `inputs[i]` lists the sources feeding logical input slot `i`.
//! Unused slots appear as empty lists.  A source can be excluded (the Start
//! node, during type inference).  The view holds handles only; it copies no
//! node payloads.

use vstd::prelude::*;

use crate::program::{OperationGraph, OperationGraphEdgeIndex, OperationGraphNode, Program};

verus! {

/// One incoming edge of the materialized node.
#[derive(Debug, Eq, PartialEq, Structural, Copy, Clone)]
pub struct MaterializedInput {
    /// The producer.
    pub source_node: OperationGraphNode,
    /// The node the view was materialized for.
    pub target_node: OperationGraphNode,
    /// The edge's handle, for callers that need more than is copied here.
    pub edge: OperationGraphEdgeIndex,
}

/// The incoming edges of one node, grouped by input index.
#[derive(Debug, Clone)]
pub struct MaterializedInputs {
    pub inputs: Vec<Vec<MaterializedInput>>,
}

/// Should this source be kept, given the optional exclusion?
pub open spec fn source_kept(excluded: Option<OperationGraphNode>, src: OperationGraphNode) -> bool {
    match excluded {
        Some(x) => src != x,
        None => true,
    }
}

/// `m` is exactly the grouping of `node`'s incoming edges (minus excluded
/// sources) by input index: every listed entry is such an edge, every such
/// edge is listed exactly once in its slot.
pub open spec fn is_materialization(
    g: &OperationGraph,
    node: OperationGraphNode,
    excluded: Option<OperationGraphNode>,
    m: &MaterializedInputs,
) -> bool {
    &&& forall|i: int, q: int|
        0 <= i < m.inputs@.len() && 0 <= q < m.inputs@[i]@.len() ==> {
            let en = #[trigger] m.inputs@[i]@[q];
            &&& en.target_node == node
            &&& en.edge < g.edges@.len()
            &&& g.edges@[en.edge as int].target == node
            &&& g.edges@[en.edge as int].payload.input == i
            &&& g.edges@[en.edge as int].source == en.source_node
            &&& source_kept(excluded, en.source_node)
        }
    &&& forall|k: int|
        0 <= k < g.edges@.len() && (#[trigger] g.edges@[k]).target == node && source_kept(
            excluded,
            g.edges@[k].source,
        ) ==> g.edges@[k].payload.input < m.inputs@.len() && exists|q: int|
            0 <= q < m.inputs@[g.edges@[k].payload.input as int]@.len()
                && m.inputs@[g.edges@[k].payload.input as int]@[q].edge == k
    &&& forall|i: int, q1: int, q2: int|
        0 <= i < m.inputs@.len() && 0 <= q1 < q2 < m.inputs@[i]@.len() ==> m.inputs@[i]@[q1].edge
            != m.inputs@[i]@[q2].edge
    &&& (m.inputs@.len() > 0 ==> exists|k: int|
        0 <= k < g.edges@.len() && (#[trigger] g.edges@[k]).target == node && source_kept(
            excluded,
            g.edges@[k].source,
        ) && g.edges@[k].payload.input + 1 == m.inputs@.len())
}

impl MaterializedInputs {
    /// Materialize the inputs of `node`; see [`Self::materialize_excluding`].
    pub fn materialize(program: &Program, node: OperationGraphNode) -> (r: MaterializedInputs)
        requires
            program.graph.edges_wf(),
        ensures
            is_materialization(&program.graph, node, None, &r),
    {
        Self::materialize_excluding(program, node, None)
    }

    /// Materialize the inputs of `node`, leaving out edges whose source is
    /// `excluded` (used to drop the Start node during type inference).
    pub fn materialize_excluding(
        program: &Program,
        node: OperationGraphNode,
        excluded: Option<OperationGraphNode>,
    ) -> (r: MaterializedInputs)
        requires
            program.graph.edges_wf(),
        ensures
            is_materialization(&program.graph, node, excluded, &r),
    {
        let g = &program.graph;
        // how many slots the view needs: one past the highest used index.
        let mut n_slots: usize = 0;
        let mut k: usize = 0;
        while k < g.edges.len()
            invariant
                g.edges_wf(),
                k <= g.edges@.len(),
                forall|j: int|
                    0 <= j < k && (#[trigger] g.edges@[j]).target == node && source_kept(
                        excluded,
                        g.edges@[j].source,
                    ) ==> g.edges@[j].payload.input < n_slots,
                n_slots > 0 ==> exists|j: int|
                    0 <= j < k && (#[trigger] g.edges@[j]).target == node && source_kept(
                        excluded,
                        g.edges@[j].source,
                    ) && g.edges@[j].payload.input + 1 == n_slots,
            decreases g.edges@.len() - k,
        {
            let keep = g.edges[k].target == node && match excluded {
                Some(x) => g.edges[k].source != x,
                None => true,
            };
            if keep && g.edges[k].payload.input >= n_slots {
                n_slots = g.edges[k].payload.input + 1;
            }
            k += 1;
        }
        let mut inputs: Vec<Vec<MaterializedInput>> = Vec::new();
        while inputs.len() < n_slots
            invariant
                g.edges_wf(),
                inputs@.len() <= n_slots,
                n_slots > 0 ==> exists|j: int|
                    0 <= j < g.edges@.len() && (#[trigger] g.edges@[j]).target == node
                        && source_kept(excluded, g.edges@[j].source) && g.edges@[j].payload.input
                        + 1 == n_slots,
                forall|j: int|
                    0 <= j < g.edges@.len() && (#[trigger] g.edges@[j]).target == node
                        && source_kept(excluded, g.edges@[j].source) ==> g.edges@[j].payload.input
                        < n_slots,
                forall|i: int, q: int|
                    0 <= i < inputs@.len() && 0 <= q < inputs@[i]@.len() ==> {
                        let en = #[trigger] inputs@[i]@[q];
                        &&& en.target_node == node
                        &&& en.edge < g.edges@.len()
                        &&& g.edges@[en.edge as int].target == node
                        &&& g.edges@[en.edge as int].payload.input == i
                        &&& g.edges@[en.edge as int].source == en.source_node
                        &&& source_kept(excluded, en.source_node)
                    },
                forall|j: int|
                    0 <= j < g.edges@.len() && (#[trigger] g.edges@[j]).target == node
                        && source_kept(excluded, g.edges@[j].source) && g.edges@[j].payload.input
                        < inputs@.len() ==> exists|q: int|
                        0 <= q < inputs@[g.edges@[j].payload.input as int]@.len()
                            && inputs@[g.edges@[j].payload.input as int]@[q].edge == j,
                forall|i: int, q1: int, q2: int|
                    0 <= i < inputs@.len() && 0 <= q1 < q2 < inputs@[i]@.len()
                        ==> inputs@[i]@[q1].edge != inputs@[i]@[q2].edge,
            decreases n_slots - inputs@.len(),
        {
            let slot = inputs.len();
            let mut lst: Vec<MaterializedInput> = Vec::new();
            let mut j: usize = 0;
            while j < g.edges.len()
                invariant
                    g.edges_wf(),
                    j <= g.edges@.len(),
                    forall|q: int|
                        0 <= q < lst@.len() ==> {
                            let en = #[trigger] lst@[q];
                            &&& en.target_node == node
                            &&& en.edge < j
                            &&& g.edges@[en.edge as int].target == node
                            &&& g.edges@[en.edge as int].payload.input == slot
                            &&& g.edges@[en.edge as int].source == en.source_node
                            &&& source_kept(excluded, en.source_node)
                        },
                    forall|j2: int|
                        0 <= j2 < j && (#[trigger] g.edges@[j2]).target == node && source_kept(
                            excluded,
                            g.edges@[j2].source,
                        ) && g.edges@[j2].payload.input == slot ==> exists|q: int|
                            0 <= q < lst@.len() && lst@[q].edge == j2,
                    forall|q1: int, q2: int|
                        0 <= q1 < q2 < lst@.len() ==> lst@[q1].edge != lst@[q2].edge,
                decreases g.edges@.len() - j,
            {
                let keep = g.edges[j].target == node && match excluded {
                    Some(x) => g.edges[j].source != x,
                    None => true,
                };
                if keep && g.edges[j].payload.input == slot {
                    let ghost lst_pre = lst@;
                    lst.push(
                        MaterializedInput {
                            source_node: g.edges[j].source,
                            target_node: node,
                            edge: j,
                        },
                    );
                    proof {
                        assert(lst@[lst@.len() - 1].edge == j);
                        assert(forall|q: int| 0 <= q < lst_pre.len() ==> lst@[q] == lst_pre[q]);
                    }
                }
                j += 1;
            }
            let ghost inputs_pre = inputs@;
            inputs.push(lst);
            proof {
                assert(inputs@[slot as int] == lst);
                assert(forall|i: int| 0 <= i < slot ==> inputs@[i] == inputs_pre[i]);
            }
        }
        MaterializedInputs { inputs }
    }

    /// The sources feeding input slot `index`; empty for unused slots.
    pub fn get_input(&self, index: usize) -> (r: Vec<MaterializedInput>)
        ensures
            index < self.inputs@.len() ==> r@ == self.inputs@[index as int]@,
            index >= self.inputs@.len() ==> r@.len() == 0,
    {
        if index < self.inputs.len() {
            self.inputs[index].clone()
        } else {
            Vec::new()
        }
    }
}

} // verus!

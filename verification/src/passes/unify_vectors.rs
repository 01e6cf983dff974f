//! Broadcasting-aware unification of vector descriptors.
//!
//! A unifier is seeded with one `(node, descriptor)` pair and an optional
//! denylist of primitives.  Presenting further pairs either widens the
//! accumulated descriptor (a width-1 operand broadcasts to the wider one)
//! or fails with a diagnostic referencing the last accepted node and the
//! offending node.

use vstd::prelude::*;

use crate::diagnostics::{Diagnostic, DiagnosticBuilder, SingleErrorResult};
use crate::program::{OperationGraphNode, Program};
use crate::vector_descriptor::{PrimitiveType, VectorDescriptor};

verus! {

/// The ways presenting a descriptor to a unifier can fail, in the order
/// the checks are made.
#[derive(Debug, Eq, PartialEq, Structural, Copy, Clone)]
pub enum UnifyFailure {
    /// The primitive is on the denylist.
    DisallowedPrimitive,
    /// The primitive differs from the unifier's current primitive.
    PrimitiveMismatch,
    /// The descriptor has width zero.
    ZeroWidth,
    /// Both widths exceed one and differ.
    NonBroadcastable,
}

/// Is `p` on the denylist?
pub open spec fn primitive_denied(denied: Option<Seq<PrimitiveType>>, p: PrimitiveType) -> bool {
    match denied {
        Some(l) => l.contains(p),
        None => false,
    }
}

/// What seeding a unifier with `d` yields: the descriptor itself, or the
/// failure the checks find first.
pub open spec fn unify_seed(denied: Option<Seq<PrimitiveType>>, d: VectorDescriptor) -> Result<
    VectorDescriptor,
    UnifyFailure,
> {
    if primitive_denied(denied, d.primitive) {
        Err(UnifyFailure::DisallowedPrimitive)
    } else if d.width == 0 {
        Err(UnifyFailure::ZeroWidth)
    } else {
        Ok(d)
    }
}

/// What presenting `next` to a unifier holding `cur` yields: the broadcast
/// of the two, or the failure the checks find first.
pub open spec fn unify_step(
    denied: Option<Seq<PrimitiveType>>,
    cur: VectorDescriptor,
    next: VectorDescriptor,
) -> Result<VectorDescriptor, UnifyFailure> {
    if primitive_denied(denied, next.primitive) {
        Err(UnifyFailure::DisallowedPrimitive)
    } else if next.primitive != cur.primitive {
        Err(UnifyFailure::PrimitiveMismatch)
    } else if next.width == 0 {
        Err(UnifyFailure::ZeroWidth)
    } else if cur.width != 1 && next.width != 1 && cur.width != next.width {
        Err(UnifyFailure::NonBroadcastable)
    } else {
        Ok(
            VectorDescriptor {
                primitive: cur.primitive,
                width: if cur.width >= next.width {
                    cur.width
                } else {
                    next.width
                },
            },
        )
    }
}

/// Unification of boundary cases is commutative: a scalar against a width
/// `w` vector of the same primitive resolves to width `w` either way round,
/// and two descriptors of different primitives fail either way round.
pub proof fn lemma_unify_boundary_commutes(
    denied: Option<Seq<PrimitiveType>>,
    p: PrimitiveType,
    w: u64,
    a: VectorDescriptor,
    b: VectorDescriptor,
)
    requires
        w >= 1,
    ensures
        unify_step(denied, VectorDescriptor { primitive: p, width: 1 },
            VectorDescriptor { primitive: p, width: w },
        ) == unify_step(denied, VectorDescriptor { primitive: p, width: w },
            VectorDescriptor { primitive: p, width: 1 },
        ),
        !primitive_denied(denied, p) ==> unify_step(denied, VectorDescriptor { primitive: p, width: 1 },
            VectorDescriptor { primitive: p, width: w },
        ) == Ok::<VectorDescriptor, UnifyFailure>(VectorDescriptor { primitive: p, width: w }),
        a.primitive != b.primitive ==> (unify_step(denied, a, b) is Err && unify_step(
            denied,
            b,
            a,
        ) is Err),
{
}

/// A unifier in progress: the accumulated descriptor, the last accepted
/// node (for error reports), and the denylist.
pub struct VectorUnifier {
    pub descriptor: VectorDescriptor,
    pub last_node: OperationGraphNode,
    pub denied_primitives: Option<Vec<PrimitiveType>>,
}

/// The denylist as a ghost sequence.
pub open spec fn denied_view(denied: &Option<Vec<PrimitiveType>>) -> Option<Seq<PrimitiveType>> {
    match denied {
        Some(v) => Some(v@),
        None => None,
    }
}

/// Check a primitive against the denylist; on denial, a diagnostic
/// referencing the node.
fn validate_primitive(
    prog: &Program,
    node: OperationGraphNode,
    prim: PrimitiveType,
    denied_primitives: &Option<Vec<PrimitiveType>>,
) -> (r: SingleErrorResult<()>)
    ensures
        r is Ok <==> !primitive_denied(denied_view(denied_primitives), prim),
        r matches Err(d) ==> d.node_refs@.len() == 1 && d.node_refs@[0].node == node,
{
    match denied_primitives {
        None => Ok(()),
        Some(s) => {
            let mut k: usize = 0;
            let mut found = false;
            while k < s.len()
                invariant
                    k <= s@.len(),
                    found <==> exists|j: int| 0 <= j < k && s@[j] == prim,
                decreases s@.len() - k,
            {
                if s[k] == prim {
                    found = true;
                }
                k += 1;
            }
            if !found {
                proof {
                    assert(!s@.contains(prim));
                }
                Ok(())
            } else {
                let mut message = String::from_str("Unsupported primitive type ");
                message.append(prim.label());
                message.append(" for node");
                let mut builder = DiagnosticBuilder::new(message, None);
                builder.node_ref(
                    String::from_str("This is the node of the disallowed type"),
                    node,
                );
                Err(builder.build(prog))
            }
        },
    }
}

/// The mismatch diagnostic names both primitives and references both nodes.
fn build_primitive_type_mismatch_err(
    program: &Program,
    node1: OperationGraphNode,
    prim1: PrimitiveType,
    node2: OperationGraphNode,
    prim2: PrimitiveType,
) -> (r: Diagnostic)
    ensures
        r.node_refs@.len() == 2,
        r.node_refs@[0].node == node1,
        r.node_refs@[1].node == node2,
{
    let mut message = String::from_str("Primitive type mismatch. Expected ");
    message.append(prim1.label());
    message.append(" but found ");
    message.append(prim2.label());
    let mut builder = DiagnosticBuilder::new(message, None);
    let mut reason1 = String::from_str("This node is ");
    reason1.append(prim1.label());
    builder.node_ref(reason1, node1);
    let mut reason2 = String::from_str("But this node is ");
    reason2.append(prim2.label());
    reason2.append(", which is of a different primitive type");
    builder.node_ref(reason2, node2);
    builder.build(program)
}

/// The broadcast-failure diagnostic names both shapes and references both
/// nodes.
fn build_broadcasting_error(
    program: &Program,
    node1: OperationGraphNode,
    desc1: &VectorDescriptor,
    node2: OperationGraphNode,
    desc2: &VectorDescriptor,
) -> (r: Diagnostic)
    ensures
        r.node_refs@.len() == 2,
        r.node_refs@[0].node == node1,
        r.node_refs@[1].node == node2,
{
    let mut message = String::from_str("Unable to broadcast from ");
    let r1 = desc1.render();
    message.append(r1.as_str());
    message.append(" to ");
    let r2 = desc2.render();
    message.append(r2.as_str());
    let mut builder = DiagnosticBuilder::new(message, None);
    let mut reason1 = String::from_str("This node is a ");
    reason1.append(r1.as_str());
    builder.node_ref(reason1, node1);
    let mut reason2 = String::from_str("But this node is a ");
    reason2.append(r2.as_str());
    builder.node_ref(reason2, node2);
    builder.build(program)
}

/// The zero-width diagnostic references the offending node.
fn build_zero_width_error(
    program: &Program,
    node: OperationGraphNode,
    desc: &VectorDescriptor,
) -> (r: Diagnostic)
    ensures
        r.node_refs@.len() == 1,
        r.node_refs@[0].node == node,
{
    let mut builder = DiagnosticBuilder::new(
        String::from_str("Nodes which carry data must not use vectors of zero width"),
        None,
    );
    let mut reason = String::from_str("This node is a ");
    let r = desc.render();
    reason.append(r.as_str());
    builder.node_ref(reason, node);
    builder.build(program)
}

impl VectorUnifier {
    /// Seed a unifier with one node's descriptor.
    pub fn new(
        program: &Program,
        node: OperationGraphNode,
        descriptor: VectorDescriptor,
        denied_primitives: Option<Vec<PrimitiveType>>,
    ) -> (r: SingleErrorResult<VectorUnifier>)
        ensures
            match unify_seed(denied_view(&denied_primitives), descriptor) {
                Ok(d) => r matches Ok(u) && u.descriptor == d && u.last_node == node
                    && denied_view(&u.denied_primitives) == denied_view(&denied_primitives),
                Err(_) => r matches Err(diag) && diag.node_refs@.len() == 1
                    && diag.node_refs@[0].node == node,
            },
    {
        validate_primitive(program, node, descriptor.primitive, &denied_primitives)?;
        if descriptor.width == 0 {
            return Err(build_zero_width_error(program, node, &descriptor));
        }
        Ok(VectorUnifier { last_node: node, descriptor, denied_primitives })
    }

    /// Present one more node's descriptor, widening the accumulated one or
    /// failing with a diagnostic that references the last accepted node and
    /// the offending node.
    pub fn present(
        &mut self,
        program: &Program,
        node: OperationGraphNode,
        descriptor: VectorDescriptor,
    ) -> (r: SingleErrorResult<()>)
        ensures
            match unify_step(
                denied_view(&old(self).denied_primitives),
                old(self).descriptor,
                descriptor,
            ) {
                Ok(d) => r is Ok && final(self).descriptor == d && final(self).last_node == node
                    && final(self).denied_primitives == old(self).denied_primitives,
                Err(f) => r matches Err(diag) && *final(self) == *old(self) && (match f {
                    UnifyFailure::DisallowedPrimitive | UnifyFailure::ZeroWidth => {
                        diag.node_refs@.len() == 1 && diag.node_refs@[0].node == node
                    },
                    UnifyFailure::PrimitiveMismatch | UnifyFailure::NonBroadcastable => {
                        diag.node_refs@.len() == 2 && diag.node_refs@[0].node == old(
                            self,
                        ).last_node && diag.node_refs@[1].node == node
                    },
                }),
            },
    {
        let denied = &self.denied_primitives;
        match validate_primitive(program, node, descriptor.primitive, denied) {
            Ok(()) => {},
            Err(d) => {
                return Err(d);
            },
        }
        if self.descriptor.primitive != descriptor.primitive {
            return Err(
                build_primitive_type_mismatch_err(
                    program,
                    self.last_node,
                    self.descriptor.primitive,
                    node,
                    descriptor.primitive,
                ),
            );
        }
        if descriptor.width == 0 {
            return Err(build_zero_width_error(program, node, &descriptor));
        }
        let can_broadcast = self.descriptor.width == 1 || descriptor.width == 1;
        if !can_broadcast && self.descriptor.width != descriptor.width {
            return Err(
                build_broadcasting_error(
                    program,
                    self.last_node,
                    &self.descriptor,
                    node,
                    &descriptor,
                ),
            );
        }
        if self.descriptor.width < descriptor.width {
            self.descriptor = descriptor;
        }
        self.last_node = node;
        Ok(())
    }

    /// The accumulated descriptor.
    pub fn resolve(self, _program: &Program) -> (r: SingleErrorResult<VectorDescriptor>)
        ensures
            r == Ok::<VectorDescriptor, Diagnostic>(self.descriptor),
    {
        Ok(self.descriptor)
    }
}

} // verus!

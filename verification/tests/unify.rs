//! Tests of broadcasting-aware vector unification.

use waveling::diagnostics::Diagnostic;
use waveling::passes::unify_vectors::VectorUnifier;
use waveling::program::Program;
use waveling::vector_descriptor::{PrimitiveType, VectorDescriptor};

/// Run a unification against a set of types, returning the final result.
fn run_unification(
    tys: &[VectorDescriptor],
    denied_tys: Option<Vec<PrimitiveType>>,
) -> Result<VectorDescriptor, Diagnostic> {
    let mut prog = Program::new();
    let fake_index = prog.op_add_node(None).unwrap();
    let mut unifier = VectorUnifier::new(&prog, fake_index, tys[0], denied_tys)?;
    for t in tys.iter().skip(1) {
        unifier.present(&prog, fake_index, *t)?;
    }

    unifier.resolve(&prog)
}

use VectorDescriptor as VD;

#[test]
fn test_no_primitive_denial() {
    // OK: only one descriptor.
    assert_eq!(
        run_unification(&[VD::new_bool(1)], None).unwrap(),
        VD::new_bool(1)
    );

    // Ok: all are the same width and type.
    assert_eq!(
        run_unification(&[VD::new_i64(3), VD::new_i64(3), VD::new_i64(3)], None).unwrap(),
        VD::new_i64(3)
    );

    // Constants can broadcast out.
    assert_eq!(
        run_unification(&[VD::new_f32(1), VD::new_f32(4)], None).unwrap(),
        VD::new_f32(4)
    );
    assert_eq!(
        run_unification(&[VD::new_f32(4), VD::new_f32(1)], None).unwrap(),
        VD::new_f32(4)
    );
    assert_eq!(
        run_unification(
            &[
                VD::new_f32(1),
                VD::new_f32(4),
                VD::new_f32(1),
                VD::new_f32(4)
            ],
            None
        )
        .unwrap(),
        VD::new_f32(4)
    );

    // Zero-width vectors always fail out.
    assert!(run_unification(&[VD::new_f32(0), VD::new_f32(4)], None).is_err());
    assert!(run_unification(&[VD::new_f32(1), VD::new_f32(0)], None).is_err());

    // Changing the primitive must also fail.
    assert!(run_unification(&[VD::new_f32(1), VD::new_f64(1)], None).is_err());
}

#[test]
fn test_denying_primitives() {
    // Denying a primitive that isn't in the list of types is fine.
    assert!(run_unification(
        &[VD::new_f32(5), VD::new_f32(5)],
        Some(vec![PrimitiveType::I64])
    )
    .is_ok());

    // We want to check denial in both positions, because the check happens
    // in two places.  The error's text pins down which failure was hit.
    for tys in [
        [VD::new_f32(5), VD::new_i64(5)],
        [VD::new_i64(5), VD::new_f32(5)],
    ] {
        assert!(run_unification(&tys[..], Some(vec![PrimitiveType::I64]))
            .err()
            .unwrap()
            .render()
            .contains("Unsupported primitive"));
    }
}

#[test]
fn unification_failures_reference_both_nodes() {
    // a primitive mismatch names the last accepted node and the offender.
    let mut prog = Program::new();
    let n1 = prog.op_add_node(None).unwrap();
    let n2 = prog.op_add_node(None).unwrap();
    let mut unifier = VectorUnifier::new(&prog, n1, VD::new_f32(2), None).unwrap();
    let d = unifier.present(&prog, n2, VD::new_i64(2)).unwrap_err();
    assert_eq!(d.node_refs.len(), 2);
    assert_eq!(d.node_refs[0].node, n1);
    assert_eq!(d.node_refs[1].node, n2);

    // a broadcast failure does the same.
    let mut unifier = VectorUnifier::new(&prog, n1, VD::new_f32(2), None).unwrap();
    let d = unifier.present(&prog, n2, VD::new_f32(3)).unwrap_err();
    assert_eq!(d.node_refs.len(), 2);
    assert_eq!(d.node_refs[0].node, n1);
    assert_eq!(d.node_refs[1].node, n2);
}

#[test]
fn unification_boundary_cases_commute() {
    // (1, W) and (W, 1) of the same primitive resolve to width W in both
    // orders.
    for w in [1u64, 2, 7, 128] {
        let a = run_unification(&[VD::new_f32(1), VD::new_f32(w)], None).unwrap();
        let b = run_unification(&[VD::new_f32(w), VD::new_f32(1)], None).unwrap();
        assert_eq!(a, VD::new_f32(w));
        assert_eq!(b, VD::new_f32(w));
    }

    // different primitives fail in both orders.
    assert!(run_unification(&[VD::new_i64(2), VD::new_f32(2)], None).is_err());
    assert!(run_unification(&[VD::new_f32(2), VD::new_i64(2)], None).is_err());
}

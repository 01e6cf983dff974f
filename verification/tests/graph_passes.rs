//! Tests of the operation graph, the materialized-inputs view, and the
//! Start/Final implicit-edges pass.

use waveling::constant::Constant;
use waveling::diagnostics::DiagnosticCollection;
use waveling::materialized_inputs::MaterializedInputs;
use waveling::op::{binop_to_descriptor, BinOp, ImplicitEdgeKind, Op};
use waveling::passes::insert_start_final_edges::insert_start_final_edges;
use waveling::program::{Program, ProgramError};
use waveling::vector_descriptor::PrimitiveType;

#[test]
fn test_materializing_inputs() {
    let mut program = Program::new();

    let input1 = program.op_add_node(None).unwrap();
    let input2 = program.op_add_node(None).unwrap();
    let input3 = program.op_add_node(None).unwrap();
    let input4 = program.op_add_node(None).unwrap();
    let no_inputs = program.op_add_node(None).unwrap();
    let both_inputs = program.op_add_node(None).unwrap();
    let first_input = program.op_add_node(None).unwrap();
    let second_input = program.op_add_node(None).unwrap();
    let multiple_nodes = program.op_add_node(None).unwrap();

    program.connect(input1, first_input, 0, None).unwrap();
    program.connect(input2, second_input, 1, None).unwrap();
    program.connect(input1, both_inputs, 0, None).unwrap();
    program.connect(input2, both_inputs, 1, None).unwrap();
    program.connect(input1, multiple_nodes, 0, None).unwrap();
    program.connect(input2, multiple_nodes, 0, None).unwrap();
    program.connect(input3, multiple_nodes, 1, None).unwrap();
    program.connect(input4, multiple_nodes, 1, None).unwrap();

    {
        let mat = MaterializedInputs::materialize(&program, no_inputs);
        assert_eq!(mat.inputs.len(), 0);
    }

    {
        let mat = MaterializedInputs::materialize(&program, first_input);
        assert_eq!(mat.inputs.len(), 1);
        assert_eq!(mat.inputs[0][0].source_node, input1);
        assert_eq!(mat.inputs[0][0].target_node, first_input);
        assert_eq!(mat.get_input(0)[0].source_node, input1);
        assert_eq!(mat.get_input(1).len(), 0);
    }

    {
        let mat = MaterializedInputs::materialize(&program, second_input);
        assert_eq!(mat.inputs.len(), 2);
        assert_eq!(mat.get_input(0).len(), 0);
        assert_eq!(mat.get_input(1).len(), 1);
        assert_eq!(mat.get_input(1)[0].source_node, input2);
        assert_eq!(mat.get_input(1)[0].target_node, second_input);
    }

    {
        let mat = MaterializedInputs::materialize(&program, multiple_nodes);
        let mut slot0 = mat.get_input(0);
        slot0.sort_unstable_by_key(|x| x.source_node);
        let mut slot1 = mat.get_input(1);
        slot1.sort_unstable_by_key(|x| x.source_node);
        assert_eq!(mat.inputs.len(), 2);
        assert_eq!(slot0[0].source_node, input1);
        assert_eq!(slot0[1].source_node, input2);
        assert_eq!(slot1[0].source_node, input3);
        assert_eq!(slot1[1].source_node, input4);
    }
}

#[test]
fn test_implicit_edges() {
    let mut program = Program::new();
    let input_index = program.add_input(PrimitiveType::F32, 3).unwrap();
    let output_index = program.add_output(PrimitiveType::F32, 3).unwrap();
    let prop_index = program.add_property(PrimitiveType::F32).unwrap();
    let state_index = program.add_state(PrimitiveType::F32, 3, 10).unwrap();

    // These nodes should get an edge from the start node.  Fold them into
    // one add node, then connect that add node to the ones that should get
    // an edge to the final node.
    let starts = vec![
        program.op_read_input_node(input_index, None).unwrap(),
        program
            .op_constant_node(
                Constant::F32(vec![0.0f32.to_bits(), 0.0f32.to_bits(), 0.0f32.to_bits()]),
                None,
            )
            .unwrap(),
        program.op_clock_node(None).unwrap(),
        program.op_sr_node(None).unwrap(),
        program.op_read_property_node(prop_index, None).unwrap(),
    ];

    let mut adds = vec![];
    let mut final_add = starts[0];
    for n in starts.iter().skip(1).cloned() {
        let add = program.op_add_node(None).unwrap();
        program.connect(final_add, add, 0, None).unwrap();
        program.connect(n, add, 1, None).unwrap();
        adds.push(add);
        final_add = add;
    }

    let ends = vec![
        program.op_write_state_direct_node(state_index, None).unwrap(),
        program.op_write_output_node(output_index, None).unwrap(),
    ];

    for n in ends.iter().cloned() {
        program.connect(final_add, n, 0, None).unwrap();
    }

    insert_start_final_edges(&mut program, &mut DiagnosticCollection::new()).unwrap();

    // All of the start nodes should have an incoming edge from the start
    // node, and no edges to the final node.
    for n in starts.iter().cloned() {
        assert!(program.graph.contains_edge(program.start_node, n));
        assert!(!program.graph.contains_edge(n, program.final_node));
    }

    // The adds should never go to either.
    for n in adds.iter().cloned() {
        assert!(!program.graph.contains_edge(program.start_node, n));
        assert!(!program.graph.contains_edge(n, program.final_node));
    }

    // And the final nodes never to the starts.
    for n in starts.iter().cloned() {
        assert!(!program.graph.contains_edge(program.final_node, n));
    }
}

#[test]
fn disallows_duplicate_edges() {
    let mut program = Program::new();
    let n1 = program.op_add_node(None).unwrap();
    let n2 = program.op_add_node(None).unwrap();
    program.connect(n1, n2, 0, None).unwrap();
    assert!(program.connect(n1, n2, 0, None).is_err());
    // But a duplicate edge to a different input should be fine.
    program.connect(n1, n2, 1, None).unwrap();
}

#[test]
fn duplicate_edge_error_kind() {
    let mut program = Program::new();
    let n1 = program.op_add_node(None).unwrap();
    let n2 = program.op_add_node(None).unwrap();
    program.connect(n1, n2, 3, None).unwrap();
    assert_eq!(
        program.connect(n1, n2, 3, None),
        Err(ProgramError::DuplicateEdge)
    );
    assert_eq!(
        program.connect(9999, n2, 0, None),
        Err(ProgramError::UnknownNode)
    );
    assert_eq!(
        program.add_input(PrimitiveType::F32, 0),
        Err(ProgramError::ZeroWidthVector)
    );
    assert_eq!(
        program.add_state(PrimitiveType::F32, 1, 0),
        Err(ProgramError::ZeroLengthState)
    );
    assert_eq!(
        program.op_read_input_node(5, None),
        Err(ProgramError::IndexOutOfRange)
    );
}

#[test]
fn implicit_edges_idempotent() {
    // running the Start/Final pass twice leaves the edge set unchanged.
    let mut program = Program::new();
    let input_index = program.add_input(PrimitiveType::F32, 1).unwrap();
    let output_index = program.add_output(PrimitiveType::F32, 1).unwrap();
    let read = program.op_read_input_node(input_index, None).unwrap();
    let write = program.op_write_output_node(output_index, None).unwrap();
    program.connect(read, write, 0, None).unwrap();

    insert_start_final_edges(&mut program, &mut DiagnosticCollection::new()).unwrap();
    let edges_after_one: Vec<(usize, usize, usize)> = program
        .graph
        .edges
        .iter()
        .map(|e| (e.source, e.target, e.payload.input))
        .collect();

    insert_start_final_edges(&mut program, &mut DiagnosticCollection::new()).unwrap();
    let edges_after_two: Vec<(usize, usize, usize)> = program
        .graph
        .edges
        .iter()
        .map(|e| (e.source, e.target, e.payload.input))
        .collect();

    assert_eq!(edges_after_one, edges_after_two);
}

#[test]
fn implicit_edges_validation() {
    // a ReadInput node erroneously connected to Final fails the pass.
    let mut program = Program::new();
    let input_index = program.add_input(PrimitiveType::F32, 1).unwrap();
    let read = program.op_read_input_node(input_index, None).unwrap();
    program.connect(read, program.final_node, 0, None).unwrap();
    let mut diags = DiagnosticCollection::new();
    assert!(insert_start_final_edges(&mut program, &mut diags).is_err());
    assert!(!diags.errors.is_empty());

    // a WriteOutput node erroneously connected from Start fails the pass.
    let mut program = Program::new();
    let output_index = program.add_output(PrimitiveType::F32, 1).unwrap();
    let write = program.op_write_output_node(output_index, None).unwrap();
    program.connect(program.start_node, write, 0, None).unwrap();
    let mut diags = DiagnosticCollection::new();
    assert!(insert_start_final_edges(&mut program, &mut diags).is_err());
    assert!(!diags.errors.is_empty());
}

#[test]
fn only_add_and_mul_are_commutative() {
    assert!(binop_to_descriptor(BinOp::Add).commutative);
    assert!(binop_to_descriptor(BinOp::Mul).commutative);
    assert!(!binop_to_descriptor(BinOp::Sub).commutative);
    assert!(!binop_to_descriptor(BinOp::Div).commutative);
    // no other operation is commutative either.
    assert!(!Op::Negate.get_descriptor().commutative);
    assert!(!Op::Clock.get_descriptor().commutative);
    assert!(!Op::Start.get_descriptor().commutative);
    assert!(!Op::Final.get_descriptor().commutative);
}

#[test]
fn descriptor_table_classifies_implicit_edges() {
    assert_eq!(
        Op::ReadInput(0).get_descriptor().implicit_edges,
        ImplicitEdgeKind::Start
    );
    assert_eq!(Op::Clock.get_descriptor().implicit_edges, ImplicitEdgeKind::Start);
    assert_eq!(
        Op::WriteOutput(0).get_descriptor().implicit_edges,
        ImplicitEdgeKind::Final
    );
    assert_eq!(
        Op::Negate.get_descriptor().implicit_edges,
        ImplicitEdgeKind::NoEdges
    );
    assert_eq!(
        Op::BinOp(BinOp::Add).get_descriptor().implicit_edges,
        ImplicitEdgeKind::NoEdges
    );
}

#[test]
fn read_state_node_constructor() {
    let mut program = Program::new();
    assert_eq!(
        program.op_read_state_node(0, -2, None),
        Err(ProgramError::IndexOutOfRange)
    );
    let state = program.add_state(PrimitiveType::F32, 1, 3).unwrap();
    let node = program.op_read_state_node(state, -2, None).unwrap();
    assert!(matches!(
        program.graph.nodes[node].op,
        Op::ReadState { state: 0, modulus: -2 }
    ));
}

#[test]
fn cycle_diagnostic_names_a_node() {
    // three Negate nodes wired in a cycle: the sort reports the cycle and
    // names one of them.
    let mut program = Program::new();
    let n1 = program.op_negate_node(None).unwrap();
    let n2 = program.op_negate_node(None).unwrap();
    let n3 = program.op_negate_node(None).unwrap();
    program.connect(n1, n2, 0, None).unwrap();
    program.connect(n2, n3, 0, None).unwrap();
    program.connect(n3, n1, 0, None).unwrap();
    let d = program.topological_sort().unwrap_err();
    assert!(d.render().contains("This graph has a cycle"));
    let named = d.node_refs[0].node;
    assert!(named == n1 || named == n2 || named == n3);
}

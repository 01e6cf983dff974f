//! Tests of the type-inference pass.

use waveling::constant::Constant;
use waveling::data_type::DataType;
use waveling::diagnostics::DiagnosticCollection;
use waveling::passes::insert_start_final_edges::insert_start_final_edges;
use waveling::passes::type_inference::{type_inference, TypeInfo};
use waveling::program::Program;
use waveling::vector_descriptor::PrimitiveType;

fn type_program(prog: &mut Program) -> TypeInfo {
    let mut diags = DiagnosticCollection::new();
    insert_start_final_edges(prog, &mut diags).unwrap();
    let res = type_inference(prog, &mut diags);
    assert!(res.is_ok(), "{}", diags.render());
    res.unwrap()
}

#[test]
fn test_basic() {
    let mut prog = Program::new();

    let i_i64_v1 = prog.add_input(PrimitiveType::I64, 1).unwrap();
    let i_f32_v2 = prog.add_input(PrimitiveType::F32, 2).unwrap();

    let p_i64_v1 = prog.add_property(PrimitiveType::I64).unwrap();
    let p_f32_v1 = prog.add_property(PrimitiveType::F32).unwrap();

    let o_i64_v2 = prog.add_output(PrimitiveType::I64, 2).unwrap();
    let o_f64_v2 = prog.add_output(PrimitiveType::F64, 2).unwrap();

    let read_input_i64_v1 = prog.op_read_input_node(i_i64_v1, None).unwrap();
    let read_input_f32_v2 = prog.op_read_input_node(i_f32_v2, None).unwrap();
    let read_prop_i64_v1 = prog.op_read_property_node(p_i64_v1, None).unwrap();
    let read_prop_f32_v1 = prog.op_read_property_node(p_f32_v1, None).unwrap();

    let write_output_i64_v2 = prog.op_write_output_node(o_i64_v2, None).unwrap();
    let write_output_f64_v2 = prog.op_write_output_node(o_f64_v2, None).unwrap();

    // We don't bother using anything beyond add because all BinOp are the
    // same.

    // Negating should keep the type of the inputs.
    let negate_i64_v1 = prog.op_negate_node(None).unwrap();
    prog.connect(read_input_i64_v1, negate_i64_v1, 0, None)
        .unwrap();

    let cast_f64_v2 = prog.op_cast_node(PrimitiveType::F64, None).unwrap();
    prog.connect(read_input_f32_v2, cast_f64_v2, 0, None)
        .unwrap();

    let const_f64_v1 = prog
        .op_constant_node(Constant::F64(vec![0.0f64.to_bits()]), None)
        .unwrap();
    let broadcasted_add_f64_v2 = prog.op_add_node(None).unwrap();
    prog.connect(cast_f64_v2, broadcasted_add_f64_v2, 0, None)
        .unwrap();
    prog.connect(const_f64_v1, broadcasted_add_f64_v2, 0, None)
        .unwrap();
    let const_f64_v2 = prog
        .op_constant_node(
            Constant::F64(vec![0.0f64.to_bits(), 0.0f64.to_bits()]),
            None,
        )
        .unwrap();
    prog.connect(const_f64_v2, broadcasted_add_f64_v2, 1, None)
        .unwrap();

    prog.connect(broadcasted_add_f64_v2, write_output_f64_v2, 0, None)
        .unwrap();

    let const_i64_v2 = prog
        .op_constant_node(Constant::I64(vec![0, 0]), None)
        .unwrap();
    prog.connect(const_i64_v2, write_output_i64_v2, 0, None)
        .unwrap();

    let typed = type_program(&mut prog);

    assert_eq!(
        typed.get_type(read_input_i64_v1),
        Some(DataType::new_v_i64(1))
    );
    assert_eq!(
        typed.get_type(read_input_f32_v2),
        Some(DataType::new_v_f32(2))
    );
    assert_eq!(
        typed.get_type(read_prop_i64_v1),
        Some(DataType::new_v_i64(1))
    );
    assert_eq!(
        typed.get_type(read_prop_f32_v1),
        Some(DataType::new_v_f32(1))
    );
    assert_eq!(typed.get_type(const_f64_v1), Some(DataType::new_v_f64(1)));
    assert_eq!(typed.get_type(cast_f64_v2), Some(DataType::new_v_f64(2)));
    assert_eq!(
        typed.get_type(broadcasted_add_f64_v2),
        Some(DataType::new_v_f64(2))
    );
    assert_eq!(
        typed.get_type(write_output_i64_v2),
        Some(DataType::new_v_i64(2))
    );
    assert_eq!(
        typed.get_type(write_output_f64_v2),
        Some(DataType::new_v_f64(2))
    );
}

fn assert_fails_typing(prog: &mut Program) -> DiagnosticCollection {
    let mut diags = DiagnosticCollection::new();
    insert_start_final_edges(prog, &mut diags).unwrap();
    let res = type_inference(prog, &mut diags);
    assert!(res.is_err(), "{}", diags.render());
    diags
}

#[test]
fn test_too_few_inputs() {
    let mut prog = Program::new();
    let c1 = prog.op_constant_node(Constant::I64(vec![0]), None).unwrap();
    let adder = prog.op_add_node(None).unwrap();
    prog.connect(c1, adder, 0, None).unwrap();
    assert_fails_typing(&mut prog);
}

#[test]
fn test_missing_inputs() {
    let mut prog = Program::new();
    let c1 = prog.op_constant_node(Constant::I64(vec![0]), None).unwrap();
    let adder = prog.op_add_node(None).unwrap();
    prog.connect(c1, adder, 1, None).unwrap();
    assert_fails_typing(&mut prog);
}

#[test]
fn test_too_many_inputs() {
    let mut prog = Program::new();
    let c1 = prog.op_constant_node(Constant::I64(vec![0]), None).unwrap();
    let adder = prog.op_add_node(None).unwrap();
    for i in 0..5 {
        prog.connect(c1, adder, i, None).unwrap();
    }
    assert_fails_typing(&mut prog);
}

#[test]
fn test_primitive_mismatch_writing_output() {
    let mut prog = Program::new();
    let o = prog.add_output(PrimitiveType::F32, 2).unwrap();
    let writer = prog.op_write_output_node(o, None).unwrap();
    let constant = prog
        .op_constant_node(Constant::I64(vec![0, 0]), None)
        .unwrap();
    prog.connect(constant, writer, 0, None).unwrap();
    assert_fails_typing(&mut prog);
}

#[test]
fn test_width_mismatch_writing_output() {
    let mut prog = Program::new();
    let o = prog.add_output(PrimitiveType::F32, 2).unwrap();
    let writer = prog.op_write_output_node(o, None).unwrap();
    let constant = prog
        .op_constant_node(Constant::I64(vec![0, 0, 0]), None)
        .unwrap();
    prog.connect(constant, writer, 0, None).unwrap();
    assert_fails_typing(&mut prog);
}

#[test]
fn test_no_inputs_to_clock() {
    let mut prog = Program::new();
    let clock = prog.op_clock_node(None).unwrap();
    let constant = prog
        .op_constant_node(Constant::I64(vec![1, 1]), None)
        .unwrap();
    prog.connect(constant, clock, 0, None).unwrap();
    assert_fails_typing(&mut prog);
}

#[test]
fn test_no_inputs_to_sr() {
    let mut prog = Program::new();
    let sr = prog.op_sr_node(None).unwrap();
    let constant = prog
        .op_constant_node(Constant::I64(vec![1, 1]), None)
        .unwrap();
    prog.connect(constant, sr, 0, None).unwrap();
    assert_fails_typing(&mut prog);
}

#[test]
fn typing_failure_names_both_sides() {
    // an i64 constant wired into a WriteOutput declared f32: the error
    // names what was expected and what was found.
    let mut prog = Program::new();
    let o = prog.add_output(PrimitiveType::F32, 1).unwrap();
    let writer = prog.op_write_output_node(o, None).unwrap();
    let constant = prog.op_constant_node(Constant::I64(vec![7]), None).unwrap();
    prog.connect(constant, writer, 0, None).unwrap();
    let diags = assert_fails_typing(&mut prog);
    let text = diags.render();
    assert!(text.contains("expected f32"), "{}", text);
    assert!(text.contains("found i64"), "{}", text);
}

#[test]
fn start_and_final_resolve_to_never() {
    let mut prog = Program::new();
    let i = prog.add_input(PrimitiveType::F32, 1).unwrap();
    let o = prog.add_output(PrimitiveType::F32, 1).unwrap();
    let read = prog.op_read_input_node(i, None).unwrap();
    let write = prog.op_write_output_node(o, None).unwrap();
    prog.connect(read, write, 0, None).unwrap();
    let typed = type_program(&mut prog);
    assert_eq!(typed.get_type(prog.start_node), Some(DataType::Never));
    assert_eq!(typed.get_type(prog.final_node), Some(DataType::Never));
    assert_eq!(typed.get_type(read), Some(DataType::new_v_f32(1)));
    assert_eq!(typed.get_type(write), Some(DataType::new_v_f32(1)));
}

#[test]
fn typing_failure_diagnostics_reference_the_node() {
    // every diagnostic of a mismatch names the node that failed to type.
    let mut prog = Program::new();
    let o = prog.add_output(PrimitiveType::F32, 2).unwrap();
    let writer = prog.op_write_output_node(o, None).unwrap();
    let constant = prog
        .op_constant_node(Constant::I64(vec![0, 0]), None)
        .unwrap();
    prog.connect(constant, writer, 0, None).unwrap();
    let diags = assert_fails_typing(&mut prog);
    assert!(!diags.errors.is_empty());
    let d = &diags.errors[0];
    assert!(!d.node_refs.is_empty());
    for r in &d.node_refs {
        assert_eq!(r.node, writer);
    }
}

#[test]
fn typing_failure_reports_every_bad_node() {
    // two independent failures each get their own diagnostic.
    let mut prog = Program::new();
    let o = prog.add_output(PrimitiveType::F32, 2).unwrap();
    let writer = prog.op_write_output_node(o, None).unwrap();
    let c1 = prog
        .op_constant_node(Constant::I64(vec![0, 0]), None)
        .unwrap();
    prog.connect(c1, writer, 0, None).unwrap();
    let adder = prog.op_add_node(None).unwrap();
    let c2 = prog.op_constant_node(Constant::I64(vec![1]), None).unwrap();
    prog.connect(c2, adder, 1, None).unwrap();
    let diags = assert_fails_typing(&mut prog);
    let named: Vec<usize> = diags
        .errors
        .iter()
        .flat_map(|d| d.node_refs.iter().map(|r| r.node))
        .collect();
    assert!(named.contains(&writer));
    assert!(named.contains(&adder));
}

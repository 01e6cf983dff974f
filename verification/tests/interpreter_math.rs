//! Tests covering the basic mathematical instructions: build a program
//! that applies one operation and compare against the same operation in
//! Rust, abusing differing input widths to exercise broadcasting.

use waveling::ir::context::ValueRef;
use waveling::ir::inst_builder;

use waveling::host::HostNumerics;
use waveling::interpreter::Interpreter;
use waveling::ir::context::Context;
use waveling::ir::types::{Primitive, Type};

struct NativeHost;

impl HostNumerics for NativeHost {
    fn s_add(&self, a: u32, b: u32) -> u32 {
        (f32::from_bits(a) + f32::from_bits(b)).to_bits()
    }
    fn s_sub(&self, a: u32, b: u32) -> u32 {
        (f32::from_bits(a) - f32::from_bits(b)).to_bits()
    }
    fn s_mul(&self, a: u32, b: u32) -> u32 {
        (f32::from_bits(a) * f32::from_bits(b)).to_bits()
    }
    fn s_div(&self, a: u32, b: u32) -> u32 {
        (f32::from_bits(a) / f32::from_bits(b)).to_bits()
    }
    fn s_rem(&self, a: u32, b: u32) -> u32 {
        (f32::from_bits(a) % f32::from_bits(b)).to_bits()
    }
    fn s_min(&self, a: u32, b: u32) -> u32 {
        f32::from_bits(a).min(f32::from_bits(b)).to_bits()
    }
    fn s_max(&self, a: u32, b: u32) -> u32 {
        f32::from_bits(a).max(f32::from_bits(b)).to_bits()
    }
    fn s_pow(&self, a: u32, b: u32) -> u32 {
        f32::from_bits(a).powf(f32::from_bits(b)).to_bits()
    }
    fn s_sin(&self, a: u32) -> u32 {
        f32::from_bits(a).sin().to_bits()
    }
    fn s_cos(&self, a: u32) -> u32 {
        f32::from_bits(a).cos().to_bits()
    }
    fn s_tan(&self, a: u32) -> u32 {
        f32::from_bits(a).tan().to_bits()
    }
    fn s_sinh(&self, a: u32) -> u32 {
        f32::from_bits(a).sinh().to_bits()
    }
    fn s_cosh(&self, a: u32) -> u32 {
        f32::from_bits(a).cosh().to_bits()
    }
    fn s_tanh(&self, a: u32) -> u32 {
        f32::from_bits(a).tanh().to_bits()
    }
    fn d_add(&self, a: u64, b: u64) -> u64 {
        (f64::from_bits(a) + f64::from_bits(b)).to_bits()
    }
    fn d_sub(&self, a: u64, b: u64) -> u64 {
        (f64::from_bits(a) - f64::from_bits(b)).to_bits()
    }
    fn d_mul(&self, a: u64, b: u64) -> u64 {
        (f64::from_bits(a) * f64::from_bits(b)).to_bits()
    }
    fn d_div(&self, a: u64, b: u64) -> u64 {
        (f64::from_bits(a) / f64::from_bits(b)).to_bits()
    }
    fn d_rem(&self, a: u64, b: u64) -> u64 {
        (f64::from_bits(a) % f64::from_bits(b)).to_bits()
    }
    fn d_min(&self, a: u64, b: u64) -> u64 {
        f64::from_bits(a).min(f64::from_bits(b)).to_bits()
    }
    fn d_max(&self, a: u64, b: u64) -> u64 {
        f64::from_bits(a).max(f64::from_bits(b)).to_bits()
    }
    fn d_pow(&self, a: u64, b: u64) -> u64 {
        f64::from_bits(a).powf(f64::from_bits(b)).to_bits()
    }
    fn d_sin(&self, a: u64) -> u64 {
        f64::from_bits(a).sin().to_bits()
    }
    fn d_cos(&self, a: u64) -> u64 {
        f64::from_bits(a).cos().to_bits()
    }
    fn d_tan(&self, a: u64) -> u64 {
        f64::from_bits(a).tan().to_bits()
    }
    fn d_sinh(&self, a: u64) -> u64 {
        f64::from_bits(a).sinh().to_bits()
    }
    fn d_cosh(&self, a: u64) -> u64 {
        f64::from_bits(a).cosh().to_bits()
    }
    fn d_tanh(&self, a: u64) -> u64 {
        f64::from_bits(a).tanh().to_bits()
    }
    fn i32_to_s(&self, a: i32) -> u32 {
        (a as f32).to_bits()
    }
    fn i64_to_s(&self, a: i64) -> u32 {
        (a as f32).to_bits()
    }
    fn d_to_s(&self, a: u64) -> u32 {
        (f64::from_bits(a) as f32).to_bits()
    }
    fn i32_to_d(&self, a: i32) -> u64 {
        (a as f64).to_bits()
    }
    fn i64_to_d(&self, a: i64) -> u64 {
        (a as f64).to_bits()
    }
    fn s_to_d(&self, a: u32) -> u64 {
        (f32::from_bits(a) as f64).to_bits()
    }
    fn s_to_i32(&self, a: u32) -> i32 {
        f32::from_bits(a) as i32
    }
    fn s_to_i64(&self, a: u32) -> i64 {
        f32::from_bits(a) as i64
    }
    fn d_to_i32(&self, a: u64) -> i32 {
        f64::from_bits(a) as i32
    }
    fn d_to_i64(&self, a: u64) -> i64 {
        f64::from_bits(a) as i64
    }
}

/// Set up a context, declare the inputs and outputs, let the builder fill
/// in the program, run one block, and hand the output buffers back.
fn run_program<F>(
    sr: u64,
    block_size: usize,
    inputs: &[(Type, &[f32])],
    outputs: &[Type],
    builder: F,
) -> Vec<Vec<f32>>
where
    F: Fn(&mut Context),
{
    let mut ctx = Context::new(sr, block_size).unwrap();

    for i in inputs {
        ctx.declare_input(i.0).unwrap();
    }

    for o in outputs {
        ctx.declare_output(*o).unwrap();
    }

    builder(&mut ctx);

    let mut interpreter = Interpreter::new(&ctx, NativeHost).unwrap();
    for (ind, i) in inputs.iter().enumerate() {
        let bits: Vec<u32> = i.1.iter().map(|x| x.to_bits()).collect();
        interpreter.write_input(ind, &bits).unwrap();
    }

    interpreter.run_block(&ctx).unwrap();

    let mut outgoing = vec![];
    for i in 0..outputs.len() {
        let bits = interpreter.read_output(i).unwrap();
        outgoing.push(bits.into_iter().map(f32::from_bits).collect::<Vec<f32>>());
    }

    outgoing
}

/// Compare two float arrays, treating NaN as equal to NaN and exact
/// equality as fine for infinities; finite values must agree within 1e-5.
fn assert_float_arrays_same(got: &[f32], expected: &[f32]) {
    assert_eq!(got.len(), expected.len());
    for (ind, (g, e)) in got.iter().zip(expected.iter()).enumerate() {
        if g == e {
            continue;
        }
        if g.is_nan() && e.is_nan() {
            continue;
        }
        assert!(
            (g - e).abs() < 1e-5,
            "At index {}, got={} expected={}",
            ind,
            g,
            e
        );
    }
}

/// The inputs are filled with consecutively increasing integers as floats;
/// the second input starts off where the first one left.  Either width may
/// be 1, or they must match.
fn test_binop_simple<F, G>(op_fact: F, expected_fn: G, i1_width: usize, i2_width: usize)
where
    F: Fn(&mut Context, ValueRef, ValueRef) -> ValueRef,
    G: Fn(f32, f32) -> f32,
{
    const BLOCK_SIZE: usize = 16;

    let mut ctx = Context::new(10000, BLOCK_SIZE).unwrap();
    let input1 = ctx
        .declare_input(Type::new_vector(Primitive::F32, i1_width as u64).unwrap())
        .unwrap();
    let input2 = ctx
        .declare_input(Type::new_vector(Primitive::F32, i2_width as u64).unwrap())
        .unwrap();
    let o_width = i1_width.max(i2_width);
    let output = ctx
        .declare_output(Type::new_vector(Primitive::F32, o_width as u64).unwrap())
        .unwrap();

    let in1_ref = inst_builder::read_input(&mut ctx, input1).unwrap();
    let in2_ref = inst_builder::read_input(&mut ctx, input2).unwrap();
    let res_ref = op_fact(&mut ctx, in1_ref, in2_ref);
    inst_builder::write_output(&mut ctx, res_ref, output).unwrap();

    let mut interpreter = Interpreter::new(&ctx, NativeHost).unwrap();

    let i1_stops_at = BLOCK_SIZE * i1_width;
    let i2_stops_at = i1_stops_at + BLOCK_SIZE * i2_width;

    let d1: Vec<f32> = (0..i1_stops_at).map(|i| i as f32).collect();
    let d2: Vec<f32> = (i1_stops_at..i2_stops_at).map(|i| i as f32).collect();

    let b1: Vec<u32> = d1.iter().map(|x| x.to_bits()).collect();
    let b2: Vec<u32> = d2.iter().map(|x| x.to_bits()).collect();
    interpreter.write_input(input1, &b1).unwrap();
    interpreter.write_input(input2, &b2).unwrap();
    interpreter.run_block(&ctx).unwrap();

    let mut expected = vec![];
    for b in 0..BLOCK_SIZE {
        for ch in 0..i1_width.max(i2_width) {
            let i1_o = i1_width * b;
            let i2_o = i2_width * b;

            let i1_ind = i1_o + (ch % i1_width);
            let i2_ind = i2_o + (ch % i2_width);
            expected.push(expected_fn(d1[i1_ind], d2[i2_ind]));
        }
    }

    let got: Vec<f32> = interpreter
        .read_output(output)
        .unwrap()
        .into_iter()
        .map(f32::from_bits)
        .collect();

    assert_float_arrays_same(&got, &expected);
}

#[test]
fn add_simple() {
    for (w1, w2) in [(1, 1), (1, 2), (2, 1), (2, 2)] {
        test_binop_simple(
            |ctx, a, b| inst_builder::add(ctx, a, b).unwrap(),
            |a, b| a + b,
            w1,
            w2,
        );
    }
}

#[test]
fn sub_simple() {
    for (w1, w2) in [(1, 1), (1, 2), (2, 1), (2, 2)] {
        test_binop_simple(
            |ctx, a, b| inst_builder::sub(ctx, a, b).unwrap(),
            |a, b| a - b,
            w1,
            w2,
        );
    }
}

#[test]
fn mul_simple() {
    for (w1, w2) in [(1, 1), (1, 2), (2, 1), (2, 2)] {
        test_binop_simple(
            |ctx, a, b| inst_builder::mul(ctx, a, b).unwrap(),
            |a, b| a * b,
            w1,
            w2,
        );
    }
}

#[test]
fn div_simple() {
    for (w1, w2) in [(1, 1), (1, 2), (2, 1), (2, 2)] {
        test_binop_simple(
            |ctx, a, b| inst_builder::div(ctx, a, b).unwrap(),
            |a, b| a / b,
            w1,
            w2,
        );
    }
}

#[test]
fn pow_simple() {
    for (w1, w2) in [(1, 1), (1, 2), (2, 1), (2, 2)] {
        test_binop_simple(
            |ctx, a, b| inst_builder::pow(ctx, a, b).unwrap(),
            |a, b| a.powf(b),
            w1,
            w2,
        );
    }
}

// We test modulus both ways since the first test here checks that it works
// if the input is less than the divisor, and the second one if the divisor
// is less than the input.
#[test]
fn mod_forward() {
    for (w1, w2) in [(1, 1), (1, 2), (2, 1), (2, 2)] {
        test_binop_simple(
            |ctx, a, b| inst_builder::mod_positive(ctx, a, b).unwrap(),
            |a, b| a % b,
            w1,
            w2,
        );
    }
}

#[test]
fn mod_rev() {
    for (w1, w2) in [(1, 1), (1, 2), (2, 1), (2, 2)] {
        test_binop_simple(
            |ctx, a, b| inst_builder::mod_positive(ctx, b, a).unwrap(),
            |a, b| b % a,
            w1,
            w2,
        );
    }
}

#[test]
fn scalar_add_constant() {
    // one f32 mono input plus a constant 3.0 into one f32 mono output.
    let input: Vec<f32> = (0..8).map(|i| i as f32).collect();
    let got = run_program(
        44100,
        8,
        &[(Type::new_vector(Primitive::F32, 1).unwrap(), &input[..])],
        &[Type::new_vector(Primitive::F32, 1).unwrap()],
        |ctx| {
            let c = ctx.new_value_const(
                Type::new_vector(Primitive::F32, 1).unwrap(),
                waveling::constant::Constant::F32(vec![3.0f32.to_bits()]),
            );
            let read = inst_builder::read_input(ctx, 0).unwrap();
            let sum = inst_builder::add(ctx, read, c).unwrap();
            inst_builder::write_output(ctx, sum, 0).unwrap();
        },
    )
    .pop()
    .unwrap();
    assert_eq!(got, vec![3.0, 4.0, 5.0, 6.0, 7.0, 8.0, 9.0, 10.0]);
}

#[test]
fn broadcast_mul_stereo() {
    // stereo f32 input times a mono constant 2.0 into a stereo output.
    let input = vec![1.0f32, 2.0, 3.0, 4.0, 5.0, 6.0, 7.0, 8.0];
    let got = run_program(
        44100,
        4,
        &[(Type::new_vector(Primitive::F32, 2).unwrap(), &input[..])],
        &[Type::new_vector(Primitive::F32, 2).unwrap()],
        |ctx| {
            let c = ctx.new_value_const(
                Type::new_vector(Primitive::F32, 1).unwrap(),
                waveling::constant::Constant::F32(vec![2.0f32.to_bits()]),
            );
            let read = inst_builder::read_input(ctx, 0).unwrap();
            let prod = inst_builder::mul(ctx, read, c).unwrap();
            inst_builder::write_output(ctx, prod, 0).unwrap();
        },
    )
    .pop()
    .unwrap();
    assert_eq!(got, vec![2.0, 4.0, 6.0, 8.0, 10.0, 12.0, 14.0, 16.0]);
}

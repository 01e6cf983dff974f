//! Tests of state memory: a running accumulator and a small delay line.

use waveling::constant::Constant;
use waveling::ir::inst_builder;

use waveling::host::HostNumerics;
use waveling::interpreter::Interpreter;
use waveling::ir::context::Context;
use waveling::ir::types::{Primitive, Type};

struct NativeHost;

impl HostNumerics for NativeHost {
    fn s_add(&self, a: u32, b: u32) -> u32 {
        (f32::from_bits(a) + f32::from_bits(b)).to_bits()
    }
    fn s_sub(&self, a: u32, b: u32) -> u32 {
        (f32::from_bits(a) - f32::from_bits(b)).to_bits()
    }
    fn s_mul(&self, a: u32, b: u32) -> u32 {
        (f32::from_bits(a) * f32::from_bits(b)).to_bits()
    }
    fn s_div(&self, a: u32, b: u32) -> u32 {
        (f32::from_bits(a) / f32::from_bits(b)).to_bits()
    }
    fn s_rem(&self, a: u32, b: u32) -> u32 {
        (f32::from_bits(a) % f32::from_bits(b)).to_bits()
    }
    fn s_min(&self, a: u32, b: u32) -> u32 {
        f32::from_bits(a).min(f32::from_bits(b)).to_bits()
    }
    fn s_max(&self, a: u32, b: u32) -> u32 {
        f32::from_bits(a).max(f32::from_bits(b)).to_bits()
    }
    fn s_pow(&self, a: u32, b: u32) -> u32 {
        f32::from_bits(a).powf(f32::from_bits(b)).to_bits()
    }
    fn s_sin(&self, a: u32) -> u32 {
        f32::from_bits(a).sin().to_bits()
    }
    fn s_cos(&self, a: u32) -> u32 {
        f32::from_bits(a).cos().to_bits()
    }
    fn s_tan(&self, a: u32) -> u32 {
        f32::from_bits(a).tan().to_bits()
    }
    fn s_sinh(&self, a: u32) -> u32 {
        f32::from_bits(a).sinh().to_bits()
    }
    fn s_cosh(&self, a: u32) -> u32 {
        f32::from_bits(a).cosh().to_bits()
    }
    fn s_tanh(&self, a: u32) -> u32 {
        f32::from_bits(a).tanh().to_bits()
    }
    fn d_add(&self, a: u64, b: u64) -> u64 {
        (f64::from_bits(a) + f64::from_bits(b)).to_bits()
    }
    fn d_sub(&self, a: u64, b: u64) -> u64 {
        (f64::from_bits(a) - f64::from_bits(b)).to_bits()
    }
    fn d_mul(&self, a: u64, b: u64) -> u64 {
        (f64::from_bits(a) * f64::from_bits(b)).to_bits()
    }
    fn d_div(&self, a: u64, b: u64) -> u64 {
        (f64::from_bits(a) / f64::from_bits(b)).to_bits()
    }
    fn d_rem(&self, a: u64, b: u64) -> u64 {
        (f64::from_bits(a) % f64::from_bits(b)).to_bits()
    }
    fn d_min(&self, a: u64, b: u64) -> u64 {
        f64::from_bits(a).min(f64::from_bits(b)).to_bits()
    }
    fn d_max(&self, a: u64, b: u64) -> u64 {
        f64::from_bits(a).max(f64::from_bits(b)).to_bits()
    }
    fn d_pow(&self, a: u64, b: u64) -> u64 {
        f64::from_bits(a).powf(f64::from_bits(b)).to_bits()
    }
    fn d_sin(&self, a: u64) -> u64 {
        f64::from_bits(a).sin().to_bits()
    }
    fn d_cos(&self, a: u64) -> u64 {
        f64::from_bits(a).cos().to_bits()
    }
    fn d_tan(&self, a: u64) -> u64 {
        f64::from_bits(a).tan().to_bits()
    }
    fn d_sinh(&self, a: u64) -> u64 {
        f64::from_bits(a).sinh().to_bits()
    }
    fn d_cosh(&self, a: u64) -> u64 {
        f64::from_bits(a).cosh().to_bits()
    }
    fn d_tanh(&self, a: u64) -> u64 {
        f64::from_bits(a).tanh().to_bits()
    }
    fn i32_to_s(&self, a: i32) -> u32 {
        (a as f32).to_bits()
    }
    fn i64_to_s(&self, a: i64) -> u32 {
        (a as f32).to_bits()
    }
    fn d_to_s(&self, a: u64) -> u32 {
        (f64::from_bits(a) as f32).to_bits()
    }
    fn i32_to_d(&self, a: i32) -> u64 {
        (a as f64).to_bits()
    }
    fn i64_to_d(&self, a: i64) -> u64 {
        (a as f64).to_bits()
    }
    fn s_to_d(&self, a: u32) -> u64 {
        (f32::from_bits(a) as f64).to_bits()
    }
    fn s_to_i32(&self, a: u32) -> i32 {
        f32::from_bits(a) as i32
    }
    fn s_to_i64(&self, a: u32) -> i64 {
        f32::from_bits(a) as i64
    }
    fn d_to_i32(&self, a: u64) -> i32 {
        f64::from_bits(a) as i32
    }
    fn d_to_i64(&self, a: u64) -> i64 {
        f64::from_bits(a) as i64
    }
}

/// Set up a context, declare the inputs and outputs, let the builder fill
/// in the program, run one block, and hand the output buffers back.
fn run_program<F>(
    sr: u64,
    block_size: usize,
    inputs: &[(Type, &[f32])],
    outputs: &[Type],
    builder: F,
) -> Vec<Vec<f32>>
where
    F: Fn(&mut Context),
{
    let mut ctx = Context::new(sr, block_size).unwrap();

    for i in inputs {
        ctx.declare_input(i.0).unwrap();
    }

    for o in outputs {
        ctx.declare_output(*o).unwrap();
    }

    builder(&mut ctx);

    let mut interpreter = Interpreter::new(&ctx, NativeHost).unwrap();
    for (ind, i) in inputs.iter().enumerate() {
        let bits: Vec<u32> = i.1.iter().map(|x| x.to_bits()).collect();
        interpreter.write_input(ind, &bits).unwrap();
    }

    interpreter.run_block(&ctx).unwrap();

    let mut outgoing = vec![];
    for i in 0..outputs.len() {
        let bits = interpreter.read_output(i).unwrap();
        outgoing.push(bits.into_iter().map(f32::from_bits).collect::<Vec<f32>>());
    }

    outgoing
}

/// Compare two float arrays, treating NaN as equal to NaN and exact
/// equality as fine for infinities; finite values must agree within 1e-5.
fn assert_float_arrays_same(got: &[f32], expected: &[f32]) {
    assert_eq!(got.len(), expected.len());
    for (ind, (g, e)) in got.iter().zip(expected.iter()).enumerate() {
        if g == e {
            continue;
        }
        if g.is_nan() && e.is_nan() {
            continue;
        }
        assert!(
            (g - e).abs() < 1e-5,
            "At index {}, got={} expected={}",
            ind,
            g,
            e
        );
    }
}

/// Test that we can use state to maintain a running sum.
#[test]
fn simple_accumulator() {
    const BLOCK_SIZE: usize = 8;

    let got = run_program(
        44100,
        BLOCK_SIZE,
        &[],
        &[Type::new_vector(Primitive::F32, 1).unwrap()],
        |ctx| {
            let zero = ctx.new_value_const(
                Type::new_vector(Primitive::I32, 1).unwrap(),
                Constant::new_integral(vec![0]).unwrap(),
            );
            let one = ctx.new_value_const(
                Type::new_vector(Primitive::I32, 1).unwrap(),
                Constant::new_integral(vec![1]).unwrap(),
            );

            let state = ctx.new_state(Type::new_vector(Primitive::I32, 1).unwrap());
            let read = inst_builder::read_state(ctx, state, zero).unwrap();
            let added = inst_builder::add(ctx, read, one).unwrap();
            inst_builder::write_state(ctx, state, added, zero).unwrap();
            let float = inst_builder::to_f32(ctx, read).unwrap();
            inst_builder::write_output(ctx, float, 0).unwrap();
        },
    )
    .pop()
    .unwrap();

    assert_eq!(got, vec![0.0f32, 1.0, 2.0, 3.0, 4.0, 5.0, 6.0, 7.0]);
}

/// A small 3-sample delay line with a constant fixed offset.
#[test]
fn delay_line() {
    const BLOCK_SIZE: usize = 8;

    let input: Vec<f32> = (0..8usize).map(|i| i as f32).collect();

    let got = run_program(
        44100,
        BLOCK_SIZE,
        &[(Type::new_vector(Primitive::F32, 1).unwrap(), &input[..])],
        &[Type::new_vector(Primitive::F32, 1).unwrap()],
        |ctx| {
            let zero = ctx.new_value_const(
                Type::new_vector(Primitive::I32, 1).unwrap(),
                Constant::new_integral(vec![0]).unwrap(),
            );
            let neg_two = ctx.new_value_const(
                Type::new_vector(Primitive::I32, 1).unwrap(),
                Constant::new_integral(vec![-2]).unwrap(),
            );

            let state = ctx.new_state(Type::new(Primitive::F32, 1, 3).unwrap());
            let read = inst_builder::read_state_relative(ctx, state, neg_two).unwrap();
            let input = inst_builder::read_input(ctx, 0).unwrap();
            inst_builder::write_state_relative(ctx, state, input, zero).unwrap();
            inst_builder::write_output(ctx, read, 0).unwrap();
        },
    )
    .pop()
    .unwrap();

    assert_eq!(got, vec![0.0, 0.0, 0.0, 1.0, 2.0, 3.0, 4.0, 5.0]);
}

/// The accumulator keeps counting on a second block: state persists.
#[test]
fn accumulator_persists_across_blocks() {
    const BLOCK_SIZE: usize = 8;
    let mut ctx = Context::new(44100, BLOCK_SIZE).unwrap();
    ctx.declare_output(Type::new_vector(Primitive::F32, 1).unwrap())
        .unwrap();
    let zero = ctx.new_value_const(
        Type::new_vector(Primitive::I32, 1).unwrap(),
        Constant::new_integral(vec![0]).unwrap(),
    );
    let one = ctx.new_value_const(
        Type::new_vector(Primitive::I32, 1).unwrap(),
        Constant::new_integral(vec![1]).unwrap(),
    );
    let state = ctx.new_state(Type::new_vector(Primitive::I32, 1).unwrap());
    let read = inst_builder::read_state(&mut ctx, state, zero).unwrap();
    let added = inst_builder::add(&mut ctx, read, one).unwrap();
    inst_builder::write_state(&mut ctx, state, added, zero).unwrap();
    let float = inst_builder::to_f32(&mut ctx, read).unwrap();
    inst_builder::write_output(&mut ctx, float, 0).unwrap();

    let mut interpreter = Interpreter::new(&ctx, NativeHost).unwrap();
    interpreter.run_block(&ctx).unwrap();
    let first: Vec<f32> = interpreter
        .read_output(0)
        .unwrap()
        .into_iter()
        .map(f32::from_bits)
        .collect();
    assert_eq!(first, vec![0.0, 1.0, 2.0, 3.0, 4.0, 5.0, 6.0, 7.0]);

    interpreter.run_block(&ctx).unwrap();
    let second: Vec<f32> = interpreter
        .read_output(0)
        .unwrap()
        .into_iter()
        .map(f32::from_bits)
        .collect();
    assert_eq!(second, vec![8.0, 9.0, 10.0, 11.0, 12.0, 13.0, 14.0, 15.0]);
}

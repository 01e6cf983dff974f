//! Tests of the fast trigonometric instructions: for evenly spaced samples
//! over [-2pi, 2pi] the error against the native function stays below
//! 1e-5.

use waveling::ir::context::ValueRef;
use waveling::ir::inst_builder;

use waveling::host::HostNumerics;
use waveling::interpreter::Interpreter;
use waveling::ir::context::Context;
use waveling::ir::types::{Primitive, Type};

struct NativeHost;

impl HostNumerics for NativeHost {
    fn s_add(&self, a: u32, b: u32) -> u32 {
        (f32::from_bits(a) + f32::from_bits(b)).to_bits()
    }
    fn s_sub(&self, a: u32, b: u32) -> u32 {
        (f32::from_bits(a) - f32::from_bits(b)).to_bits()
    }
    fn s_mul(&self, a: u32, b: u32) -> u32 {
        (f32::from_bits(a) * f32::from_bits(b)).to_bits()
    }
    fn s_div(&self, a: u32, b: u32) -> u32 {
        (f32::from_bits(a) / f32::from_bits(b)).to_bits()
    }
    fn s_rem(&self, a: u32, b: u32) -> u32 {
        (f32::from_bits(a) % f32::from_bits(b)).to_bits()
    }
    fn s_min(&self, a: u32, b: u32) -> u32 {
        f32::from_bits(a).min(f32::from_bits(b)).to_bits()
    }
    fn s_max(&self, a: u32, b: u32) -> u32 {
        f32::from_bits(a).max(f32::from_bits(b)).to_bits()
    }
    fn s_pow(&self, a: u32, b: u32) -> u32 {
        f32::from_bits(a).powf(f32::from_bits(b)).to_bits()
    }
    fn s_sin(&self, a: u32) -> u32 {
        f32::from_bits(a).sin().to_bits()
    }
    fn s_cos(&self, a: u32) -> u32 {
        f32::from_bits(a).cos().to_bits()
    }
    fn s_tan(&self, a: u32) -> u32 {
        f32::from_bits(a).tan().to_bits()
    }
    fn s_sinh(&self, a: u32) -> u32 {
        f32::from_bits(a).sinh().to_bits()
    }
    fn s_cosh(&self, a: u32) -> u32 {
        f32::from_bits(a).cosh().to_bits()
    }
    fn s_tanh(&self, a: u32) -> u32 {
        f32::from_bits(a).tanh().to_bits()
    }
    fn d_add(&self, a: u64, b: u64) -> u64 {
        (f64::from_bits(a) + f64::from_bits(b)).to_bits()
    }
    fn d_sub(&self, a: u64, b: u64) -> u64 {
        (f64::from_bits(a) - f64::from_bits(b)).to_bits()
    }
    fn d_mul(&self, a: u64, b: u64) -> u64 {
        (f64::from_bits(a) * f64::from_bits(b)).to_bits()
    }
    fn d_div(&self, a: u64, b: u64) -> u64 {
        (f64::from_bits(a) / f64::from_bits(b)).to_bits()
    }
    fn d_rem(&self, a: u64, b: u64) -> u64 {
        (f64::from_bits(a) % f64::from_bits(b)).to_bits()
    }
    fn d_min(&self, a: u64, b: u64) -> u64 {
        f64::from_bits(a).min(f64::from_bits(b)).to_bits()
    }
    fn d_max(&self, a: u64, b: u64) -> u64 {
        f64::from_bits(a).max(f64::from_bits(b)).to_bits()
    }
    fn d_pow(&self, a: u64, b: u64) -> u64 {
        f64::from_bits(a).powf(f64::from_bits(b)).to_bits()
    }
    fn d_sin(&self, a: u64) -> u64 {
        f64::from_bits(a).sin().to_bits()
    }
    fn d_cos(&self, a: u64) -> u64 {
        f64::from_bits(a).cos().to_bits()
    }
    fn d_tan(&self, a: u64) -> u64 {
        f64::from_bits(a).tan().to_bits()
    }
    fn d_sinh(&self, a: u64) -> u64 {
        f64::from_bits(a).sinh().to_bits()
    }
    fn d_cosh(&self, a: u64) -> u64 {
        f64::from_bits(a).cosh().to_bits()
    }
    fn d_tanh(&self, a: u64) -> u64 {
        f64::from_bits(a).tanh().to_bits()
    }
    fn i32_to_s(&self, a: i32) -> u32 {
        (a as f32).to_bits()
    }
    fn i64_to_s(&self, a: i64) -> u32 {
        (a as f32).to_bits()
    }
    fn d_to_s(&self, a: u64) -> u32 {
        (f64::from_bits(a) as f32).to_bits()
    }
    fn i32_to_d(&self, a: i32) -> u64 {
        (a as f64).to_bits()
    }
    fn i64_to_d(&self, a: i64) -> u64 {
        (a as f64).to_bits()
    }
    fn s_to_d(&self, a: u32) -> u64 {
        (f32::from_bits(a) as f64).to_bits()
    }
    fn s_to_i32(&self, a: u32) -> i32 {
        f32::from_bits(a) as i32
    }
    fn s_to_i64(&self, a: u32) -> i64 {
        f32::from_bits(a) as i64
    }
    fn d_to_i32(&self, a: u64) -> i32 {
        f64::from_bits(a) as i32
    }
    fn d_to_i64(&self, a: u64) -> i64 {
        f64::from_bits(a) as i64
    }
}

/// Set up a context, declare the inputs and outputs, let the builder fill
/// in the program, run one block, and hand the output buffers back.
fn run_program<F>(
    sr: u64,
    block_size: usize,
    inputs: &[(Type, &[f32])],
    outputs: &[Type],
    builder: F,
) -> Vec<Vec<f32>>
where
    F: Fn(&mut Context),
{
    let mut ctx = Context::new(sr, block_size).unwrap();

    for i in inputs {
        ctx.declare_input(i.0).unwrap();
    }

    for o in outputs {
        ctx.declare_output(*o).unwrap();
    }

    builder(&mut ctx);

    let mut interpreter = Interpreter::new(&ctx, NativeHost).unwrap();
    for (ind, i) in inputs.iter().enumerate() {
        let bits: Vec<u32> = i.1.iter().map(|x| x.to_bits()).collect();
        interpreter.write_input(ind, &bits).unwrap();
    }

    interpreter.run_block(&ctx).unwrap();

    let mut outgoing = vec![];
    for i in 0..outputs.len() {
        let bits = interpreter.read_output(i).unwrap();
        outgoing.push(bits.into_iter().map(f32::from_bits).collect::<Vec<f32>>());
    }

    outgoing
}

/// Compare two float arrays, treating NaN as equal to NaN and exact
/// equality as fine for infinities; finite values must agree within 1e-5.
fn assert_float_arrays_same(got: &[f32], expected: &[f32]) {
    assert_eq!(got.len(), expected.len());
    for (ind, (g, e)) in got.iter().zip(expected.iter()).enumerate() {
        if g == e {
            continue;
        }
        if g.is_nan() && e.is_nan() {
            continue;
        }
        assert!(
            (g - e).abs() < 1e-5,
            "At index {}, got={} expected={}",
            ind,
            g,
            e
        );
    }
}

/// Fill a single input with -2pi..2pi and compare the output.
fn trig_test<F, G>(trig_builder: F, trig_tester: G, width: u64)
where
    F: Fn(&mut Context, ValueRef) -> ValueRef,
    G: Fn(f32) -> f32,
{
    const BLOCK_SIZE: usize = 16;

    let total_vals = width * BLOCK_SIZE as u64;
    let idata: Vec<f32> = (0..total_vals)
        .map(|i| {
            let pi = std::f32::consts::PI;
            (-2.0f32 * pi) + (i as f32 / (total_vals as f32 - 1.0f32)) * 4f32 * pi
        })
        .collect();

    // keep the oracle a genuine runtime call of the native function, so
    // it is not constant-folded at a different precision.
    let expected: Vec<f32> = idata
        .iter()
        .map(|x| trig_tester(std::hint::black_box(*x)))
        .collect();

    let got = run_program(
        44100,
        BLOCK_SIZE,
        &[(Type::new_vector(Primitive::F32, width).unwrap(), &idata[..])],
        &[Type::new_vector(Primitive::F32, width).unwrap()],
        |ctx| {
            let read = inst_builder::read_input(ctx, 0).unwrap();
            let trig = trig_builder(ctx, read);
            inst_builder::write_output(ctx, trig, 0).unwrap();
        },
    )
    .pop()
    .unwrap();

    assert_float_arrays_same(&got, &expected);
}

#[test]
fn sin_1() {
    trig_test(|c, v| inst_builder::fast_sin(c, v).unwrap(), |x| x.sin(), 1);
}

#[test]
fn sin_2() {
    trig_test(|c, v| inst_builder::fast_sin(c, v).unwrap(), |x| x.sin(), 2);
}

#[test]
fn cos_1() {
    trig_test(|c, v| inst_builder::fast_cos(c, v).unwrap(), |x| x.cos(), 1);
}

#[test]
fn cos_2() {
    trig_test(|c, v| inst_builder::fast_cos(c, v).unwrap(), |x| x.cos(), 2);
}

#[test]
fn tan_1() {
    trig_test(|c, v| inst_builder::fast_tan(c, v).unwrap(), |x| x.tan(), 1);
}

#[test]
fn tan_2() {
    trig_test(|c, v| inst_builder::fast_tan(c, v).unwrap(), |x| x.tan(), 2);
}

#[test]
fn sinh_1() {
    trig_test(
        |c, v| inst_builder::fast_sinh(c, v).unwrap(),
        |x| x.sinh(),
        1,
    );
}

#[test]
fn sinh_2() {
    trig_test(
        |c, v| inst_builder::fast_sinh(c, v).unwrap(),
        |x| x.sinh(),
        2,
    );
}

#[test]
fn cosh_1() {
    trig_test(
        |c, v| inst_builder::fast_cosh(c, v).unwrap(),
        |x| x.cosh(),
        1,
    );
}

#[test]
fn cosh_2() {
    trig_test(
        |c, v| inst_builder::fast_cosh(c, v).unwrap(),
        |x| x.cosh(),
        2,
    );
}

#[test]
fn tanh_1() {
    trig_test(
        |c, v| inst_builder::fast_tanh(c, v).unwrap(),
        |x| x.tanh(),
        1,
    );
}

#[test]
fn tanh_2() {
    trig_test(
        |c, v| inst_builder::fast_tanh(c, v).unwrap(),
        |x| x.tanh(),
        2,
    );
}

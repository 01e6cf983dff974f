//! Tests of the instruction IR surface: types, shapes, the context and
//! the builder's shape rules.

use waveling::constant::Constant;
use waveling::ir::context::{Context, ContextError, ValueRef};
use waveling::ir::inst_builder;
use waveling::ir::inst_builder::BuilderError;
use waveling::ir::types::{Primitive, Type, TypeError};
use waveling::shape::{Shape, ShapeDataType, ShapeMergeError};

#[test]
fn type_dimensions() {
    let t = Type::new(Primitive::F32, 2, 3).unwrap();
    assert_eq!(t.get_primitive(), Primitive::F32);
    assert_eq!(t.get_vector_width(), 2);
    assert_eq!(t.get_buffer_length(), 3);
    assert!(t.is_buffer());
    assert!(!t.is_vector());
    assert!(!t.is_scalar());

    let v = Type::new_vector(Primitive::I64, 4).unwrap();
    assert!(v.is_vector());
    assert!(!v.is_buffer());

    let s = Type::new_scalar(Primitive::F64).unwrap();
    assert!(s.is_scalar());

    assert_eq!(Type::new(Primitive::F32, 0, 1), Err(TypeError::ZeroVectorWidth));
    assert_eq!(Type::new(Primitive::F32, 1, 0), Err(TypeError::ZeroBufferLength));
}

#[test]
fn shape_merge_rules() {
    let a = Shape::new(ShapeDataType::F32, 1);
    let b = Shape::new(ShapeDataType::F32, 4);
    assert_eq!(a.merge(&b).unwrap(), Shape::new(ShapeDataType::F32, 4));
    assert_eq!(b.merge(&a).unwrap(), Shape::new(ShapeDataType::F32, 4));
    assert_eq!(b.merge(&b).unwrap(), b);
    assert!(a.is_scalar());
    assert!(!b.is_scalar());
    assert_eq!(
        a.merge(&Shape::new(ShapeDataType::I64, 1)),
        Err(ShapeMergeError::IncompatibleTypes(
            ShapeDataType::F32,
            ShapeDataType::I64
        ))
    );
    assert_eq!(
        Shape::new(ShapeDataType::F32, 2).merge(&Shape::new(ShapeDataType::F32, 3)),
        Err(ShapeMergeError::IncompatibleWidths(2, 3))
    );
}

#[test]
fn context_construction_rules() {
    assert_eq!(Context::new(44100, 0).unwrap_err(), ContextError::ZeroBlockSize);
    assert_eq!(
        Context::new(44100, 3).unwrap_err(),
        ContextError::NonPowerOfTwoBlockSize
    );
    let mut ctx = Context::new(44100, 8).unwrap();
    assert_eq!(ctx.get_block_size(), 8);
    assert_eq!(ctx.get_sample_rate(), 44100);

    let buffer = Type::new(Primitive::F32, 1, 4).unwrap();
    assert_eq!(ctx.declare_input(buffer).unwrap_err(), ContextError::BufferInput);
    assert_eq!(
        ctx.declare_output(buffer).unwrap_err(),
        ContextError::BufferOutput
    );
    assert_eq!(
        ctx.new_property(Type::new_scalar(Primitive::F32).unwrap())
            .unwrap_err(),
        ContextError::UnsupportedPropertyType
    );
    assert_eq!(
        ctx.new_property(Type::new_scalar(Primitive::F64).unwrap())
            .unwrap(),
        0
    );
    assert_eq!(ctx.get_num_properties(), 1);
}

#[test]
fn builder_shape_rules() {
    let mut ctx = Context::new(44100, 8).unwrap();
    let f1 = ctx.new_value(Type::new_vector(Primitive::F32, 1).unwrap());
    let f2 = ctx.new_value(Type::new_vector(Primitive::F32, 2).unwrap());
    let f3 = ctx.new_value(Type::new_vector(Primitive::F32, 3).unwrap());
    let i1 = ctx.new_value(Type::new_vector(Primitive::I32, 1).unwrap());
    let buf = ctx.new_value(Type::new(Primitive::F32, 1, 4).unwrap());

    // broadcasting widths are fine; mismatched ones are not.
    assert!(inst_builder::add(&mut ctx, f1, f2).is_ok());
    assert_eq!(
        inst_builder::add(&mut ctx, f2, f3).unwrap_err(),
        BuilderError::IncompatibleWidths
    );
    assert_eq!(
        inst_builder::add(&mut ctx, f1, i1).unwrap_err(),
        BuilderError::PrimitiveMismatch
    );
    assert_eq!(
        inst_builder::add(&mut ctx, f1, buf).unwrap_err(),
        BuilderError::BufferOperand
    );
    let stale = ValueRef { index: 9999 };
    assert_eq!(
        inst_builder::add(&mut ctx, f1, stale).unwrap_err(),
        BuilderError::UnresolvedValue
    );

    // power and trigonometry demand floating point.
    assert_eq!(
        inst_builder::pow(&mut ctx, i1, i1).unwrap_err(),
        BuilderError::NonFloatOperand
    );
    assert_eq!(
        inst_builder::fast_sin(&mut ctx, i1).unwrap_err(),
        BuilderError::NonFloatOperand
    );
    assert!(inst_builder::pow(&mut ctx, f1, f1).is_ok());

    // negation rejects buffers; conversions keep the width.
    assert_eq!(
        inst_builder::negate(&mut ctx, buf).unwrap_err(),
        BuilderError::BufferOperand
    );
    assert!(inst_builder::negate(&mut ctx, i1).is_ok());
    assert!(inst_builder::to_f64(&mut ctx, f2).is_ok());

    // state reads demand an integral scalar index.
    let state = ctx.new_state(Type::new(Primitive::F32, 1, 4).unwrap());
    assert_eq!(
        inst_builder::read_state(&mut ctx, state, f1).unwrap_err(),
        BuilderError::NonIntegralIndex
    );
    let i2 = ctx.new_value(Type::new_vector(Primitive::I32, 2).unwrap());
    assert_eq!(
        inst_builder::read_state(&mut ctx, state, i2).unwrap_err(),
        BuilderError::NonScalarIndex
    );
    assert!(inst_builder::read_state(&mut ctx, state, i1).is_ok());
    // a state write takes one frame of the state's shape.
    assert_eq!(
        inst_builder::write_state(&mut ctx, state, f2, i1).unwrap_err(),
        BuilderError::StateTypeMismatch
    );
    assert!(inst_builder::write_state(&mut ctx, state, f1, i1).is_ok());

    // program I/O indices must exist, and output types must match exactly.
    assert_eq!(
        inst_builder::read_input(&mut ctx, 0).unwrap_err(),
        BuilderError::UnknownInput
    );
    assert_eq!(
        inst_builder::read_property(&mut ctx, 0).unwrap_err(),
        BuilderError::UnknownProperty
    );
    assert_eq!(
        inst_builder::write_output(&mut ctx, f1, 0).unwrap_err(),
        BuilderError::UnknownOutput
    );
    let o = ctx
        .declare_output(Type::new_vector(Primitive::F32, 2).unwrap())
        .unwrap();
    assert_eq!(
        inst_builder::write_output(&mut ctx, f1, o).unwrap_err(),
        BuilderError::OutputTypeMismatch
    );
    assert!(inst_builder::write_output(&mut ctx, f2, o).is_ok());

    // the clock reads are always buildable.
    assert!(inst_builder::read_time_samples(&mut ctx).is_ok());
    assert!(inst_builder::read_time_seconds(&mut ctx).is_ok());
}

#[test]
fn value_and_constant_resolution() {
    let mut ctx = Context::new(44100, 8).unwrap();
    let v = ctx.new_value_const(
        Type::new_vector(Primitive::I64, 2).unwrap(),
        Constant::new_integral(vec![4, 5]).unwrap(),
    );
    assert!(v.is_constant(&ctx).unwrap());
    let cref = v.get_constant(&ctx).unwrap().unwrap();
    assert_eq!(cref.as_integral(&ctx).unwrap().unwrap(), vec![4, 5]);
    assert_eq!(
        v.get_type(&ctx).unwrap(),
        Type::new_vector(Primitive::I64, 2).unwrap()
    );

    // stale handles fail with a typed error rather than anything worse.
    let stale = ValueRef { index: 100 };
    assert!(stale.get_type(&ctx).is_err());
    let computed = ctx.new_value(Type::new_scalar(Primitive::F32).unwrap());
    assert!(!computed.is_constant(&ctx).unwrap());
    assert!(computed.get_constant(&ctx).unwrap().is_none());
}

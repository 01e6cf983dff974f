//! Compiler middle-end for a small per-sample audio DSP language.
//!
//! Two coupled intermediate representations live here: an operation graph
//! (typed nodes with input-indexed edges and synthetic Start/Final boundary
//! nodes) together with its structural and type-inference passes, and a
//! linear instruction IR executed by a reference interpreter.
//!
//! Floating-point samples are carried everywhere as raw IEEE 754 bit
//! patterns (`u32` for single, `u64` for double); the host arithmetic on
//! those bit patterns is supplied by the embedder through [`host::HostNumerics`].

pub mod constant;
pub mod data_type;
pub mod diagnostics;
pub mod edge;
pub mod host;
pub mod interpreter;
pub mod ir;
pub mod materialized_inputs;
pub mod node;
pub mod op;
pub mod passes;
pub mod program;
pub mod shape;
pub mod source_loc;
pub mod state;
pub mod vector_descriptor;

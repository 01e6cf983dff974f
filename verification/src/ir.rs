//! The linear instruction IR: types, context arenas, instructions, and the
//! typed builder.

pub mod context;
pub mod inst_builder;
pub mod instruction;
pub mod types;

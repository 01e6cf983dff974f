//! The structural and type passes over the operation graph.

pub mod insert_start_final_edges;
pub mod type_inference;
pub mod unify_vectors;

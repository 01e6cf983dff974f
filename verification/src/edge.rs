//! Edge payloads of the operation graph.

use vstd::prelude::*;

use crate::source_loc::SourceLoc;

verus! {

/// Payload of one graph edge, pointing from a producer node to a consumer
/// node.
///
/// `input` says which logical input slot of the consumer the edge feeds;
/// for example addition has two inputs, 0 and 1.  If multiple edges from
/// different sources feed the same input they must unify, and implicitly
/// sum; a later lowering pass expands those sums into explicit addition
/// nodes.  Two edges from the same source to the same input slot of the
/// same consumer are forbidden.
#[derive(Debug, Clone)]
pub struct Edge {
    /// Which input of the consumer this edge connects to.
    pub input: usize,
    pub source_loc: Option<SourceLoc>,
}

} // verus!

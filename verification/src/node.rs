//! Node payloads of the operation graph.

use vstd::prelude::*;

use crate::op::Op;
use crate::source_loc::SourceLoc;

verus! {

/// One node of the operation graph: an operation and where it came from.
#[derive(Debug, Clone)]
pub struct Node {
    pub op: Op,
    pub source_loc: Option<SourceLoc>,
}

} // verus!

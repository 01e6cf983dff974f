//! Accumulating compilation diagnostics.
//!
//! Passes do not bail on the first problem: they push diagnostics for every
//! violation they can see, in order, and only then fail.  A diagnostic is a
//! message, an optional source location, and zero or more node references
//! annotating specific graph nodes.

use vstd::prelude::*;

use crate::program::{OperationGraphNode, Program};
use crate::source_loc::SourceLoc;

verus! {

/// A span in source text, tracked for errors from the surface language.
#[derive(Debug, Eq, PartialEq, Structural, Copy, Clone)]
pub struct Span {
    pub start: usize,
    pub end: usize,
    pub start_line: usize,
    pub start_line_col: usize,
    pub end_line: usize,
    pub end_line_col: usize,
}

/// A reference to a node involved in a diagnostic.
#[derive(Debug, Clone)]
pub struct DiagnosticNodeRef {
    pub reason: String,
    pub node: OperationGraphNode,
    pub source_loc: Option<SourceLoc>,
}

/// A compilation diagnostic; create one through [`DiagnosticBuilder`].
#[derive(Debug, Clone)]
pub struct Diagnostic {
    pub message: String,
    pub node_refs: Vec<DiagnosticNodeRef>,
    pub source_loc: Option<SourceLoc>,
}

/// Helper type for things which return a single diagnostic as their error.
pub type SingleErrorResult<T> = Result<T, Diagnostic>;

/// Builds [`Diagnostic`]s: `DiagnosticBuilder::new(message, loc)`, then any
/// number of `node_ref(reason, node)`, then `build(program)`.
#[derive(Debug)]
pub struct DiagnosticBuilder {
    pub diagnostic: Diagnostic,
}

impl DiagnosticBuilder {
    pub fn new(message: String, source_loc: Option<SourceLoc>) -> (r: DiagnosticBuilder)
        ensures
            r.diagnostic.message@ == message@,
            r.diagnostic.node_refs@.len() == 0,
    {
        DiagnosticBuilder {
            diagnostic: Diagnostic { message, node_refs: Vec::new(), source_loc },
        }
    }

    /// Reference one more node.
    pub fn node_ref(&mut self, reason: String, node: OperationGraphNode)
        ensures
            final(self).diagnostic.message@ == old(self).diagnostic.message@,
            final(self).diagnostic.node_refs@.len() == old(self).diagnostic.node_refs@.len() + 1,
            final(self).diagnostic.node_refs@.last().node == node,
            final(self).diagnostic.node_refs@.last().reason@ == reason@,
            forall|k: int|
                0 <= k < old(self).diagnostic.node_refs@.len() ==> (#[trigger] final(self).diagnostic.node_refs@[k]).node == old(self).diagnostic.node_refs@[k].node,
    {
        self.diagnostic.node_refs.push(
            DiagnosticNodeRef { reason, node, source_loc: None },
        );
    }

    /// Finish, copying each referenced node's source location out of the
    /// program.
    pub fn build(self, program: &Program) -> (r: Diagnostic)
        ensures
            r.message@ == self.diagnostic.message@,
            r.node_refs@.len() == self.diagnostic.node_refs@.len(),
            forall|k: int|
                0 <= k < r.node_refs@.len() ==> (#[trigger] r.node_refs@[k]).node
                    == self.diagnostic.node_refs@[k].node,
    {
        let DiagnosticBuilder { diagnostic } = self;
        let Diagnostic { message, node_refs, source_loc } = diagnostic;
        let mut filled: Vec<DiagnosticNodeRef> = Vec::new();
        let mut k: usize = 0;
        while k < node_refs.len()
            invariant
                k <= node_refs@.len(),
                filled@.len() == k,
                forall|j: int|
                    0 <= j < k ==> (#[trigger] filled@[j]).node == node_refs@[j].node,
            decreases node_refs@.len() - k,
        {
            let nr = &node_refs[k];
            filled.push(
                DiagnosticNodeRef {
                    reason: nr.reason.clone(),
                    node: nr.node,
                    source_loc: program.cloned_source_loc(nr.node),
                },
            );
            k += 1;
        }
        Diagnostic { message, node_refs: filled, source_loc }
    }
}

impl Diagnostic {
    /// Render the diagnostic as text: the message, then each node reference
    /// with its location.
    pub fn render(&self) -> String {
        let mut out = String::from_str("Error: ");
        out.append(self.message.as_str());
        match &self.source_loc {
            Some(loc) => {
                out.append("\n  ");
                let rendered = loc.render();
                out.append(rendered.as_str());
            },
            None => {},
        }
        let mut k: usize = 0;
        while k < self.node_refs.len()
            decreases self.node_refs@.len() - k,
        {
            let r = &self.node_refs[k];
            out.append("\nFor node ");
            let n_str = r.node.to_string();
            out.append(n_str.as_str());
            out.append(": ");
            out.append(r.reason.as_str());
            out.append(":");
            match &r.source_loc {
                Some(loc) => {
                    out.append("\nat:\n  ");
                    let rendered = loc.render();
                    out.append(rendered.as_str());
                },
                None => {},
            }
            k += 1;
        }
        out
    }
}

/// A collection of diagnostics, for eventual display to the user; ordering
/// is preserved.
#[derive(Debug)]
pub struct DiagnosticCollection {
    pub errors: Vec<Diagnostic>,
}

impl DiagnosticCollection {
    pub fn new() -> (r: DiagnosticCollection)
        ensures
            r.errors@.len() == 0,
    {
        DiagnosticCollection { errors: Vec::new() }
    }

    pub fn add_diagnostic(&mut self, diag: Diagnostic)
        ensures
            final(self).errors@ == old(self).errors@.push(diag),
    {
        self.errors.push(diag);
    }

    /// Push a diagnostic with a message and location but no node references.
    pub fn add_simple_diagnostic(
        &mut self,
        program: &Program,
        message: String,
        source_loc: Option<SourceLoc>,
    )
        ensures
            final(self).errors@.len() == old(self).errors@.len() + 1,
            forall|k: int|
                0 <= k < old(self).errors@.len() ==> #[trigger] final(self).errors@[k] == old(self).errors@[k],
            final(self).errors@.last().message@ == message@,
    {
        let builder = DiagnosticBuilder::new(message, source_loc);
        let diag = builder.build(program);
        self.add_diagnostic(diag);
    }

    /// Render every diagnostic, separated by blank lines.
    pub fn render(&self) -> String {
        let mut out = String::new();
        let mut k: usize = 0;
        while k < self.errors.len()
            decreases self.errors@.len() - k,
        {
            if k > 0 {
                out.append("\n");
            }
            let rendered = self.errors[k].render();
            out.append(rendered.as_str());
            k += 1;
        }
        out
    }
}

impl Default for DiagnosticCollection {
    fn default() -> (r: Self)
        ensures
            r.errors@.len() == 0,
    {
        DiagnosticCollection::new()
    }
}

} // verus!

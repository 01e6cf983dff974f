//! Source locations: a backtrace of where a node or edge was declared in
//! user code.  Frames are stored outermost first.

use vstd::prelude::*;

verus! {

/// One stack frame of a source location.
#[derive(Debug, Clone)]
pub struct SourceFrame {
    pub file: String,
    pub line: u32,
    pub function: String,
    pub printable_source: String,
}

/// A backtrace of frames, outermost first.
#[derive(Debug, Clone)]
pub struct SourceLoc {
    pub frames: Vec<SourceFrame>,
}

impl SourceLoc {
    pub fn new(frames: Vec<SourceFrame>) -> (r: SourceLoc)
        ensures
            r.frames@ == frames@,
    {
        SourceLoc { frames }
    }

    /// Render the backtrace, one line per frame with the source text
    /// indented beneath it.
    pub fn render(&self) -> String {
        let mut out = String::new();
        let mut k: usize = 0;
        while k < self.frames.len()
            decreases self.frames@.len() - k,
        {
            let f = &self.frames[k];
            out.append(f.file.as_str());
            out.append(" line ");
            let line_str = f.line.to_string();
            out.append(line_str.as_str());
            out.append(", in function ");
            out.append(f.function.as_str());
            out.append("\n    ");
            out.append(f.printable_source.as_str());
            out.append("\n");
            k += 1;
        }
        out
    }
}

} // verus!

use vstd::prelude::*;

verus! {

/// A half-open byte range `start..end` inside the source unit `source_id`.
#[derive(Clone, Copy, Debug, PartialEq, Eq, Structural)]
pub struct SourceSpan {
    pub source_id: usize,
    pub start: usize,
    pub end: usize,
}

impl SourceSpan {
    /// A span is well formed when it does not end before it starts.
    pub open spec fn wf(&self) -> bool {
        self.start <= self.end
    }

    /// The span `start..end` of source `source_id`, or `None` where it would
    /// end before it starts.
    pub fn new(source_id: usize, start: usize, end: usize) -> (r: Option<SourceSpan>)
        ensures
            start <= end ==> r == Some(SourceSpan { source_id, start, end }),
            start > end ==> r.is_none(),
            r.is_some() ==> r.unwrap().wf(),
    {
        if start <= end {
            Some(SourceSpan { source_id, start, end })
        } else {
            None
        }
    }
}

} // verus!

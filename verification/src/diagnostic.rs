use vstd::prelude::*;
use crate::span::SourceSpan;

verus! {

/// How grave a diagnostic is. Type errors are always errors.
#[derive(Clone, Copy, Debug, PartialEq, Eq, Structural)]
pub enum Severity {
    Error,
}

/// The emphasis a piece of a diagnostic is shown in.
#[derive(Clone, Copy, Debug, PartialEq, Eq, Structural)]
pub enum Emphasis {
    /// What was expected: shown in the colour of success.
    Success,
    /// What was found, or what is wrong: shown in the colour of failure.
    Failure,
}

/// A source range with the text that explains it.
#[derive(Clone, Debug, PartialEq, Eq)]
pub struct Label {
    pub span: SourceSpan,
    pub message: String,
    pub emphasis: Emphasis,
}

/// The mathematical content of a [`Label`].
pub struct LabelView {
    pub span: SourceSpan,
    pub message: Seq<char>,
    pub emphasis: Emphasis,
}

impl View for Label {
    type V = LabelView;

    open spec fn view(&self) -> LabelView {
        LabelView { span: self.span, message: self.message@, emphasis: self.emphasis }
    }
}

/// A diagnostic ready for a renderer: one message, the labelled source
/// ranges in the order they are shown, and a note if there is one.
#[derive(Clone, Debug, PartialEq, Eq)]
pub struct Diagnostic {
    pub severity: Severity,
    pub source_id: usize,
    pub offset: usize,
    pub message: String,
    pub labels: Vec<Label>,
    pub note: Option<String>,
}

/// The mathematical content of a [`Diagnostic`].
pub struct DiagnosticView {
    pub severity: Severity,
    pub source_id: usize,
    pub offset: usize,
    pub message: Seq<char>,
    pub labels: Seq<LabelView>,
    pub note: Option<Seq<char>>,
}

impl View for Diagnostic {
    type V = DiagnosticView;

    open spec fn view(&self) -> DiagnosticView {
        DiagnosticView {
            severity: self.severity,
            source_id: self.source_id,
            offset: self.offset,
            message: self.message@,
            labels: Seq::new(self.labels@.len(), |i: int| self.labels@[i]@),
            note: match self.note {
                Some(n) => Some(n@),
                None => None,
            },
        }
    }
}

} // verus!

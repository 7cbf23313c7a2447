use vstd::prelude::*;
use crate::checked_type::CheckedType;
use crate::diagnostic::{DiagnosticView, Emphasis, LabelView, Severity};
use crate::paint::painted;
use crate::span::SourceSpan;
use crate::text::{
    both_contexts_message, boxed_label, boxed_message, expected_modal_message, mismatch_label,
    mismatch_message, missing_variant_label, missing_variants_message, missing_variants_note,
    undefined_variable_message, unknown_field_message, unknown_index_message,
    unknown_type_message,
};

verus! {

/// A way in which a program is ill-typed. Each variant carries the byte offset by
/// which diagnostics are ordered, the span it is anchored to, and what is
/// needed to explain it.
#[derive(Clone, Debug, PartialEq, Eq)]
pub enum TypeError {
    /// A boxed expression uses a binding of the local context.
    BoxedExprHasLocalDeps(usize, SourceSpan, String),
    /// An expression has another type than its context demands.
    Mismatch { offset: usize, span: SourceSpan, expected: CheckedType, actual: CheckedType },
    /// A binder's name is already bound in both contexts.
    VariableDefinedInBothContexts(usize, SourceSpan, String),
    /// A match leaves out the listed constructors, each with its field type.
    MissingVariants(usize, SourceSpan, Vec<(String, CheckedType)>),
    /// A variable is bound in neither context.
    UndefinedVariable(usize, SourceSpan, String),
    /// A projection names a field that the record type does not have.
    UnknownField(usize, SourceSpan, String, CheckedType),
    /// A projection names a position that the tuple type does not have.
    UnknownIndex { offset: usize, span: SourceSpan, index: usize, tuple_type: CheckedType },
    /// A modal type was required and another one found.
    ExpectedModal(usize, SourceSpan, CheckedType),
    /// A type name is not declared.
    UnknownType(usize, SourceSpan, String),
}

/// The mathematical content of a [`TypeError`]: texts as sequences of
/// characters, a type as its rendering.
pub enum TypeErrorView {
    BoxedExprHasLocalDeps(usize, SourceSpan, Seq<char>),
    Mismatch { offset: usize, span: SourceSpan, expected: Seq<char>, actual: Seq<char> },
    VariableDefinedInBothContexts(usize, SourceSpan, Seq<char>),
    MissingVariants(usize, SourceSpan, Seq<(Seq<char>, Seq<char>)>),
    UndefinedVariable(usize, SourceSpan, Seq<char>),
    UnknownField(usize, SourceSpan, Seq<char>, Seq<char>),
    UnknownIndex { offset: usize, span: SourceSpan, index: usize, tuple_type: Seq<char> },
    ExpectedModal(usize, SourceSpan, Seq<char>),
    UnknownType(usize, SourceSpan, Seq<char>),
}

/// The missing constructors as pairs of texts.
pub open spec fn variants_view(variants: Seq<(String, CheckedType)>) -> Seq<
    (Seq<char>, Seq<char>),
> {
    Seq::new(variants.len(), |i: int| (variants[i].0@, variants[i].1@))
}

impl View for TypeError {
    type V = TypeErrorView;

    open spec fn view(&self) -> TypeErrorView {
        match *self {
            TypeError::BoxedExprHasLocalDeps(offset, span, expr) => {
                TypeErrorView::BoxedExprHasLocalDeps(offset, span, expr@)
            },
            TypeError::Mismatch { offset, span, expected, actual } => TypeErrorView::Mismatch {
                offset,
                span,
                expected: expected@,
                actual: actual@,
            },
            TypeError::VariableDefinedInBothContexts(offset, span, name) => {
                TypeErrorView::VariableDefinedInBothContexts(offset, span, name@)
            },
            TypeError::MissingVariants(offset, span, variants) => {
                TypeErrorView::MissingVariants(offset, span, variants_view(variants@))
            },
            TypeError::UndefinedVariable(offset, span, name) => {
                TypeErrorView::UndefinedVariable(offset, span, name@)
            },
            TypeError::UnknownField(offset, span, label, record) => {
                TypeErrorView::UnknownField(offset, span, label@, record@)
            },
            TypeError::UnknownIndex { offset, span, index, tuple_type } => {
                TypeErrorView::UnknownIndex { offset, span, index, tuple_type: tuple_type@ }
            },
            TypeError::ExpectedModal(offset, span, ty) => {
                TypeErrorView::ExpectedModal(offset, span, ty@)
            },
            TypeError::UnknownType(offset, span, name) => {
                TypeErrorView::UnknownType(offset, span, name@)
            },
        }
    }
}

impl TypeErrorView {
    /// The byte offset the error is ordered by.
    pub open spec fn offset(self) -> usize {
        match self {
            TypeErrorView::BoxedExprHasLocalDeps(offset, _, _) => offset,
            TypeErrorView::Mismatch { offset, .. } => offset,
            TypeErrorView::VariableDefinedInBothContexts(offset, _, _) => offset,
            TypeErrorView::MissingVariants(offset, _, _) => offset,
            TypeErrorView::UndefinedVariable(offset, _, _) => offset,
            TypeErrorView::UnknownField(offset, _, _, _) => offset,
            TypeErrorView::UnknownIndex { offset, .. } => offset,
            TypeErrorView::ExpectedModal(offset, _, _) => offset,
            TypeErrorView::UnknownType(offset, _, _) => offset,
        }
    }

    /// The span the error is anchored to.
    pub open spec fn span(self) -> SourceSpan {
        match self {
            TypeErrorView::BoxedExprHasLocalDeps(_, span, _) => span,
            TypeErrorView::Mismatch { span, .. } => span,
            TypeErrorView::VariableDefinedInBothContexts(_, span, _) => span,
            TypeErrorView::MissingVariants(_, span, _) => span,
            TypeErrorView::UndefinedVariable(_, span, _) => span,
            TypeErrorView::UnknownField(_, span, _, _) => span,
            TypeErrorView::UnknownIndex { span, .. } => span,
            TypeErrorView::ExpectedModal(_, span, _) => span,
            TypeErrorView::UnknownType(_, span, _) => span,
        }
    }

    /// What is owed for every error: a span that does not end
    /// before it starts, the offset at which that span starts, and at least
    /// one constructor where constructors are reported missing.
    pub open spec fn wf(self) -> bool {
        &&& self.span().wf()
        &&& self.offset() == self.span().start
        &&& (self matches TypeErrorView::MissingVariants(_, _, variants) ==> variants.len() > 0)
    }

    /// The one top-level message of the error's diagnostic.
    pub open spec fn message(self) -> Seq<char> {
        match self {
            TypeErrorView::BoxedExprHasLocalDeps(_, _, _) => boxed_message(),
            TypeErrorView::Mismatch { .. } => mismatch_message(),
            TypeErrorView::VariableDefinedInBothContexts(_, _, name) => both_contexts_message(
                name,
            ),
            TypeErrorView::MissingVariants(_, _, _) => missing_variants_message(),
            TypeErrorView::UndefinedVariable(_, _, name) => undefined_variable_message(name),
            TypeErrorView::UnknownField(_, _, label, record) => unknown_field_message(
                label,
                record,
            ),
            TypeErrorView::UnknownIndex { index, tuple_type, .. } => unknown_index_message(
                index as nat,
                tuple_type,
            ),
            TypeErrorView::ExpectedModal(_, _, ty) => expected_modal_message(ty),
            TypeErrorView::UnknownType(_, _, name) => unknown_type_message(name),
        }
    }

    /// The note under the diagnostic: only an inexhaustive match has one.
    pub open spec fn note(self) -> Option<Seq<char>> {
        match self {
            TypeErrorView::MissingVariants(_, _, _) => Some(missing_variants_note()),
            _ => None,
        }
    }

    /// How many labels the diagnostic has: one for each missing
    /// constructor, none where a modal type was expected, else one.
    pub open spec fn label_count(self) -> nat {
        match self {
            TypeErrorView::MissingVariants(_, _, variants) => variants.len(),
            TypeErrorView::ExpectedModal(_, _, _) => 0,
            _ => 1,
        }
    }

    /// Whether a label of the diagnostic holds painted pieces, so that its
    /// text depends on whether colouring is on.
    pub open spec fn has_painted_labels(self) -> bool {
        self is BoxedExprHasLocalDeps || self is Mismatch || self is MissingVariants
    }

    /// The text of label `i` where the pieces are painted with colouring
    /// `first`, `second` and `third`, in the order they stand in the text.
    /// A label with fewer painted pieces ignores the later switches.
    pub open spec fn label_text(self, i: int, first: bool, second: bool, third: bool) -> Seq<
        char,
    > {
        match self {
            TypeErrorView::BoxedExprHasLocalDeps(_, _, expr) => boxed_label(
                painted(expr, Emphasis::Failure, first),
            ),
            TypeErrorView::Mismatch { expected, actual, .. } => mismatch_label(
                painted(expected, Emphasis::Success, first),
                painted(actual, Emphasis::Failure, second),
            ),
            TypeErrorView::VariableDefinedInBothContexts(_, _, _) => "defined in both contexts"@,
            TypeErrorView::MissingVariants(_, _, variants) => missing_variant_label(
                painted(variants[i].0, Emphasis::Failure, first),
                painted("{}"@, Emphasis::Failure, second),
                painted(variants[i].1, Emphasis::Failure, third),
            ),
            TypeErrorView::UndefinedVariable(_, _, _) => "not found in this scope"@,
            TypeErrorView::UnknownField(_, _, _, _) => "unknown field"@,
            TypeErrorView::UnknownIndex { .. } => "unknown index"@,
            TypeErrorView::ExpectedModal(_, _, _) => Seq::empty(),
            TypeErrorView::UnknownType(_, _, _) => "not found in this scope"@,
        }
    }

    /// `label` is label `i` of the error's diagnostic: it marks the error's
    /// span as a failure, and its text is the label text under some
    /// colouring of its pieces.
    pub open spec fn is_label(self, i: int, label: LabelView) -> bool {
        &&& label.span == self.span()
        &&& label.emphasis == Emphasis::Failure
        &&& exists|first: bool, second: bool, third: bool|
            label.message == #[trigger] self.label_text(i, first, second, third)
    }

    /// `d` is a diagnostic of the error: everything in it is fixed by the
    /// error but the colouring of the painted pieces of its labels.
    pub open spec fn is_report(self, d: DiagnosticView) -> bool {
        &&& d.severity == Severity::Error
        &&& d.source_id == self.span().source_id
        &&& d.offset == self.offset()
        &&& d.message == self.message()
        &&& d.note == self.note()
        &&& d.labels.len() == self.label_count()
        &&& forall|i: int| 0 <= i < d.labels.len() ==> self.is_label(i, #[trigger] d.labels[i])
    }
}

impl TypeError {
    /// The byte offset the error is ordered by. For a well-formed error it
    /// is where the span starts.
    pub fn offset(&self) -> (offset: usize)
        ensures
            offset == self@.offset(),
            self@.wf() ==> offset == self@.span().start,
    {
        match self {
            TypeError::BoxedExprHasLocalDeps(offset, _, _) => *offset,
            TypeError::Mismatch { offset, .. } => *offset,
            TypeError::VariableDefinedInBothContexts(offset, _, _) => *offset,
            TypeError::MissingVariants(offset, _, _) => *offset,
            TypeError::UndefinedVariable(offset, _, _) => *offset,
            TypeError::UnknownField(offset, _, _, _) => *offset,
            TypeError::UnknownIndex { offset, .. } => *offset,
            TypeError::ExpectedModal(offset, _, _) => *offset,
            TypeError::UnknownType(offset, _, _) => *offset,
        }
    }

    /// The span the error is anchored to.
    pub fn span(&self) -> (span: &SourceSpan)
        ensures
            *span == self@.span(),
    {
        match self {
            TypeError::BoxedExprHasLocalDeps(_, span, _) => span,
            TypeError::Mismatch { span, .. } => span,
            TypeError::VariableDefinedInBothContexts(_, span, _) => span,
            TypeError::MissingVariants(_, span, _) => span,
            TypeError::UndefinedVariable(_, span, _) => span,
            TypeError::UnknownField(_, span, _, _) => span,
            TypeError::UnknownIndex { span, .. } => span,
            TypeError::ExpectedModal(_, span, _) => span,
            TypeError::UnknownType(_, span, _) => span,
        }
    }

    /// The error of a boxed expression `expr` at `span` that uses local
    /// bindings, anchored where the span starts.
    pub fn boxed_expr_has_local_deps(span: SourceSpan, expr: String) -> (err: TypeError)
        ensures
            err == TypeError::BoxedExprHasLocalDeps(span.start, span, expr),
            err@.wf() <==> span.wf(),
    {
        TypeError::BoxedExprHasLocalDeps(span.start, span, expr)
    }

    /// The error of an expression at `span` of type `actual` where
    /// `expected` is demanded, anchored where the span starts.
    pub fn mismatch(span: SourceSpan, expected: CheckedType, actual: CheckedType) -> (err:
        TypeError)
        ensures
            err == (TypeError::Mismatch { offset: span.start, span, expected, actual }),
            err@.wf() <==> span.wf(),
    {
        TypeError::Mismatch { offset: span.start, span, expected, actual }
    }

    /// The error of a binder at `span` whose `name` both contexts hold,
    /// anchored where the span starts.
    pub fn variable_defined_in_both_contexts(span: SourceSpan, name: String) -> (err: TypeError)
        ensures
            err == TypeError::VariableDefinedInBothContexts(span.start, span, name),
            err@.wf() <==> span.wf(),
    {
        TypeError::VariableDefinedInBothContexts(span.start, span, name)
    }

    /// The error of a match at `span` that leaves out `variants`, anchored
    /// where the span starts. It is well formed only if a constructor is
    /// missing.
    pub fn missing_variants(span: SourceSpan, variants: Vec<(String, CheckedType)>) -> (err:
        TypeError)
        ensures
            err == TypeError::MissingVariants(span.start, span, variants),
            err@.wf() <==> span.wf() && variants@.len() > 0,
    {
        TypeError::MissingVariants(span.start, span, variants)
    }

    /// The error of a variable `name` at `span` that nothing binds,
    /// anchored where the span starts.
    pub fn undefined_variable(span: SourceSpan, name: String) -> (err: TypeError)
        ensures
            err == TypeError::UndefinedVariable(span.start, span, name),
            err@.wf() <==> span.wf(),
    {
        TypeError::UndefinedVariable(span.start, span, name)
    }

    /// The error of a projection at `span` of the field `label` that
    /// `record` lacks, anchored where the span starts.
    pub fn unknown_field(span: SourceSpan, label: String, record: CheckedType) -> (err: TypeError)
        ensures
            err == TypeError::UnknownField(span.start, span, label, record),
            err@.wf() <==> span.wf(),
    {
        TypeError::UnknownField(span.start, span, label, record)
    }

    /// The error of a projection at `span` of the position `index` that
    /// `tuple_type` lacks, anchored where the span starts.
    pub fn unknown_index(span: SourceSpan, index: usize, tuple_type: CheckedType) -> (err:
        TypeError)
        ensures
            err == (TypeError::UnknownIndex { offset: span.start, span, index, tuple_type }),
            err@.wf() <==> span.wf(),
    {
        TypeError::UnknownIndex { offset: span.start, span, index, tuple_type }
    }

    /// The error of a type `ty` at `span` that should have been modal,
    /// anchored where the span starts.
    pub fn expected_modal(span: SourceSpan, ty: CheckedType) -> (err: TypeError)
        ensures
            err == TypeError::ExpectedModal(span.start, span, ty),
            err@.wf() <==> span.wf(),
    {
        TypeError::ExpectedModal(span.start, span, ty)
    }

    /// The error of a type name `name` at `span` that nothing declares,
    /// anchored where the span starts.
    pub fn unknown_type(span: SourceSpan, name: String) -> (err: TypeError)
        ensures
            err == TypeError::UnknownType(span.start, span, name),
            err@.wf() <==> span.wf(),
    {
        TypeError::UnknownType(span.start, span, name)
    }

    /// Whether the error is well formed.
    pub fn is_well_formed(&self) -> (ok: bool)
        ensures
            ok == self@.wf(),
    {
        let span = self.span();
        let anchored = span.start <= span.end && self.offset() == span.start;
        match self {
            TypeError::MissingVariants(_, _, variants) => anchored && variants.len() > 0,
            _ => anchored,
        }
    }
}

} // verus!

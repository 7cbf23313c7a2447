use vstd::prelude::*;
use vstd::string::*;
use crate::diagnostic::{Diagnostic, Emphasis, Label, Severity};
use crate::paint::{paint, painted};
use crate::span::SourceSpan;
use crate::taxonomy::{variants_view, TypeError, TypeErrorView};
use crate::text::missing_variant_label;
use crate::text::{
    both_contexts_text, boxed_label_text, expected_modal_text, mismatch_label_text,
    missing_variant_label_text, undefined_variable_text, unknown_field_text,
    unknown_index_text, unknown_type_text,
};

verus! {

/// The label that marks `span` as a failure and explains it with `message`.
pub fn failure_label(span: SourceSpan, message: String) -> (label: Label)
    ensures
        label.span == span,
        label.message == message,
        label.emphasis == Emphasis::Failure,
{
    Label { span, message, emphasis: Emphasis::Failure }
}

/// The label of the missing constructor `name` with field type `ty`.
fn missing_variant(span: SourceSpan, name: &str, ty: &str) -> (label: Label)
    ensures
        label@.span == span,
        label@.emphasis == Emphasis::Failure,
        exists|first: bool, second: bool, third: bool|
            label@.message == missing_variant_label(
                #[trigger] painted(name@, Emphasis::Failure, first),
                #[trigger] painted("{}"@, Emphasis::Failure, second),
                #[trigger] painted(ty@, Emphasis::Failure, third),
            ),
{
    let painted_name = paint(name, Emphasis::Failure);
    let painted_braces = paint("{}", Emphasis::Failure);
    let painted_type = paint(ty, Emphasis::Failure);
    let ghost first = painted_name@ == painted(name@, Emphasis::Failure, true);
    let ghost second = painted_braces@ == painted("{}"@, Emphasis::Failure, true);
    let ghost third = painted_type@ == painted(ty@, Emphasis::Failure, true);
    let text = missing_variant_label_text(
        painted_name.as_str(),
        painted_braces.as_str(),
        painted_type.as_str(),
    );
    proof {
        assert(painted_name@ == painted(name@, Emphasis::Failure, first));
        assert(painted_braces@ == painted("{}"@, Emphasis::Failure, second));
        assert(painted_type@ == painted(ty@, Emphasis::Failure, third));
    }
    failure_label(span, text)
}

impl TypeError {
    /// The labels of the error's diagnostic, in the order they are shown.
    pub fn build_labels(&self) -> (labels: Vec<Label>)
        ensures
            labels@.len() == self@.label_count(),
            forall|i: int| 0 <= i < labels@.len() ==> self@.is_label(i, #[trigger] labels@[i]@),
    {
        let span = *self.span();
        match self {
            TypeError::BoxedExprHasLocalDeps(_, _, expr) => {
                let piece = paint(expr.as_str(), Emphasis::Failure);
                let ghost on = piece@ == painted(expr@, Emphasis::Failure, true);
                let label = failure_label(span, boxed_label_text(piece.as_str()));
                proof {
                    assert(label@.message == self@.label_text(0, on, on, on));
                }
                vec![label]
            },
            TypeError::Mismatch { expected, actual, .. } => {
                let first_piece = paint(expected.as_str(), Emphasis::Success);
                let second_piece = paint(actual.as_str(), Emphasis::Failure);
                let ghost first = first_piece@ == painted(expected@, Emphasis::Success, true);
                let ghost second = second_piece@ == painted(actual@, Emphasis::Failure, true);
                let label = failure_label(
                    span,
                    mismatch_label_text(first_piece.as_str(), second_piece.as_str()),
                );
                proof {
                    assert(label@.message == self@.label_text(0, first, second, second));
                }
                vec![label]
            },
            TypeError::VariableDefinedInBothContexts(_, _, _) => {
                let label = failure_label(span, String::from_str("defined in both contexts"));
                proof {
                    assert(label@.message == self@.label_text(0, false, false, false));
                }
                vec![label]
            },
            TypeError::MissingVariants(_, _, variants) => {
                let mut labels: Vec<Label> = Vec::new();
                let mut i: usize = 0;
                while i < variants.len()
                    invariant
                        i <= variants.len(),
                        labels@.len() == i,
                        span == self@.span(),
                        self@ matches TypeErrorView::MissingVariants(_, _, missing)
                            && missing == variants_view(variants@),
                        forall|j: int|
                            0 <= j < i ==> self@.is_label(j, #[trigger] labels@[j]@),
                    decreases variants.len() - i,
                {
                    let variant = &variants[i];
                    let label = missing_variant(span, variant.0.as_str(), variant.1.as_str());
                    proof {
                        let (first, second, third) = choose|
                            first: bool,
                            second: bool,
                            third: bool,
                        |
                            label@.message == missing_variant_label(
                                #[trigger] painted(variant.0@, Emphasis::Failure, first),
                                #[trigger] painted("{}"@, Emphasis::Failure, second),
                                #[trigger] painted(variant.1@, Emphasis::Failure, third),
                            );
                        assert(label@.message == self@.label_text(
                            i as int,
                            first,
                            second,
                            third,
                        ));
                        assert(self@.is_label(i as int, label@));
                    }
                    let ghost before = labels@;
                    labels.push(label);
                    proof {
                        assert forall|j: int| 0 <= j < i + 1 implies self@.is_label(
                            j,
                            #[trigger] labels@[j]@,
                        ) by {
                            if j < i {
                                assert(labels@[j] == before[j]);
                            }
                        }
                    }
                    i = i + 1;
                }
                labels
            },
            TypeError::UndefinedVariable(_, _, _) => {
                let label = failure_label(span, String::from_str("not found in this scope"));
                proof {
                    assert(label@.message == self@.label_text(0, false, false, false));
                }
                vec![label]
            },
            TypeError::UnknownField(_, _, _, _) => {
                let label = failure_label(span, String::from_str("unknown field"));
                proof {
                    assert(label@.message == self@.label_text(0, false, false, false));
                }
                vec![label]
            },
            TypeError::UnknownIndex { .. } => {
                let label = failure_label(span, String::from_str("unknown index"));
                proof {
                    assert(label@.message == self@.label_text(0, false, false, false));
                }
                vec![label]
            },
            TypeError::ExpectedModal(_, _, _) => Vec::new(),
            TypeError::UnknownType(_, _, _) => {
                let label = failure_label(span, String::from_str("not found in this scope"));
                proof {
                    assert(label@.message == self@.label_text(0, false, false, false));
                }
                vec![label]
            },
        }
    }

    /// The one top-level message of the error's diagnostic.
    pub fn build_message(&self) -> (message: String)
        ensures
            message@ == self@.message(),
    {
        match self {
            TypeError::BoxedExprHasLocalDeps(_, _, _) => String::from_str(
                "Boxed expr depends on local values",
            ),
            TypeError::Mismatch { .. } => String::from_str("mismatched types"),
            TypeError::VariableDefinedInBothContexts(_, _, name) => both_contexts_text(
                name.as_str(),
            ),
            TypeError::MissingVariants(_, _, _) => String::from_str("missing variants"),
            TypeError::UndefinedVariable(_, _, name) => undefined_variable_text(name.as_str()),
            TypeError::UnknownField(_, _, label, record) => unknown_field_text(
                label.as_str(),
                record.as_str(),
            ),
            TypeError::UnknownIndex { index, tuple_type, .. } => unknown_index_text(
                *index,
                tuple_type.as_str(),
            ),
            TypeError::ExpectedModal(_, _, ty) => expected_modal_text(ty.as_str()),
            TypeError::UnknownType(_, _, name) => unknown_type_text(name.as_str()),
        }
    }

    /// The diagnostic of the error: an error anchored at the error's offset
    /// in the source of its span, with the message, the labels and the note
    /// of its kind. Nothing but the colouring of painted pieces is left
    /// open, and no error is without a diagnostic.
    pub fn build_report(&self) -> (d: Diagnostic)
        ensures
            self@.is_report(d@),
    {
        let note = match self {
            TypeError::MissingVariants(_, _, _) => Some(
                String::from_str("Ensure all variants are exhausted by match arms."),
            ),
            _ => None,
        };
        Diagnostic {
            severity: Severity::Error,
            source_id: self.span().source_id,
            offset: self.offset(),
            message: self.build_message(),
            labels: self.build_labels(),
            note,
        }
    }
}

} // verus!

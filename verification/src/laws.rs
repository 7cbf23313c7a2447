use vstd::prelude::*;
use crate::diagnostic::{DiagnosticView, Emphasis};
use crate::error_list::Errors;
use crate::paint::{ansi_prefix, ansi_reset, painted};
use crate::taxonomy::TypeError;
use crate::text::{
    mismatch_label, missing_variant_label, undefined_variable_message, unknown_field_message,
    unknown_type_message,
};

verus! {

/// `piece` between `before` and `after`.
pub open spec fn around(before: Seq<char>, piece: Seq<char>, after: Seq<char>) -> Seq<char> {
    before + piece + after
}

/// `piece` stands somewhere in `text`, whole and unbroken.
pub open spec fn occurs_in(piece: Seq<char>, text: Seq<char>) -> bool {
    exists|before: Seq<char>, after: Seq<char>| text == #[trigger] around(before, piece, after)
}

/// What occurs in the middle of three texts occurs in the three together.
pub proof fn lemma_occurs_in_middle(
    piece: Seq<char>,
    head: Seq<char>,
    inner: Seq<char>,
    tail: Seq<char>,
)
    requires
        occurs_in(piece, inner),
    ensures
        occurs_in(piece, head + inner + tail),
{
    let (before, after) = choose|before: Seq<char>, after: Seq<char>|
        inner == #[trigger] around(before, piece, after);
    assert(head + inner + tail =~= around(head + before, piece, after + tail));
}

/// Painting keeps the text: it occurs in what was painted, whether the
/// colouring was on or off.
pub proof fn lemma_painting_keeps_text(text: Seq<char>, emphasis: Emphasis, on: bool)
    ensures
        occurs_in(text, painted(text, emphasis, on)),
{
    if on {
        assert(painted(text, emphasis, on) == around(ansi_prefix(emphasis), text, ansi_reset()));
    } else {
        assert(painted(text, emphasis, on) =~= around(Seq::empty(), text, Seq::empty()));
    }
}

/// The two emphases are told apart: their colours differ, so a piece
/// painted as a success never reads as one painted as a failure.
pub proof fn lemma_emphases_differ(text: Seq<char>, other: Seq<char>)
    ensures
        ansi_prefix(Emphasis::Success) != ansi_prefix(Emphasis::Failure),
        painted(text, Emphasis::Success, true) != painted(other, Emphasis::Failure, true),
{
    assert(ansi_prefix(Emphasis::Success)[3] == '2');
    assert(ansi_prefix(Emphasis::Failure)[3] == '1');
    assert(painted(text, Emphasis::Success, true)[3] == '2');
    assert(painted(other, Emphasis::Failure, true)[3] == '1');
}

/// For a well-formed error the offset is where its span starts.
pub proof fn lemma_offset_is_span_start(err: TypeError)
    requires
        err@.wf(),
    ensures
        err@.offset() == err@.span().start,
        err@.offset() <= err@.span().end,
{
}

/// Two diagnostics of one error agree in severity, source, offset,
/// message, note, and in the number, spans and emphases of their labels.
/// Where no label holds a painted piece they are the same diagnostic.
pub proof fn lemma_report_is_determined(err: TypeError, d1: DiagnosticView, d2: DiagnosticView)
    requires
        err@.is_report(d1),
        err@.is_report(d2),
    ensures
        d1.severity == d2.severity,
        d1.source_id == d2.source_id,
        d1.offset == d2.offset,
        d1.message == d2.message,
        d1.note == d2.note,
        d1.labels.len() == d2.labels.len(),
        forall|i: int|
            0 <= i < d1.labels.len() ==> (#[trigger] d1.labels[i]).span == d2.labels[i].span
                && d1.labels[i].emphasis == d2.labels[i].emphasis,
        !err@.has_painted_labels() ==> d1 == d2,
{
    assert forall|i: int| 0 <= i < d1.labels.len() implies (#[trigger] d1.labels[i]).span
        == d2.labels[i].span && d1.labels[i].emphasis == d2.labels[i].emphasis by {
        assert(err@.is_label(i, d1.labels[i]));
        assert(err@.is_label(i, d2.labels[i]));
    }
    if !err@.has_painted_labels() {
        assert forall|i: int| 0 <= i < d1.labels.len() implies d1.labels[i] == d2.labels[i] by {
            assert(err@.is_label(i, d1.labels[i]));
            assert(err@.is_label(i, d2.labels[i]));
        }
        assert(d1.labels =~= d2.labels);
    }
}

/// Two diagnostics of one error that were painted alike, every piece with
/// colouring `on`, are the same diagnostic.
pub proof fn lemma_report_is_pure(
    err: TypeError,
    on: bool,
    d1: DiagnosticView,
    d2: DiagnosticView,
)
    requires
        err@.is_report(d1),
        err@.is_report(d2),
        forall|i: int|
            0 <= i < d1.labels.len() ==> (#[trigger] d1.labels[i]).message == err@.label_text(
                i,
                on,
                on,
                on,
            ),
        forall|i: int|
            0 <= i < d2.labels.len() ==> (#[trigger] d2.labels[i]).message == err@.label_text(
                i,
                on,
                on,
                on,
            ),
    ensures
        d1 == d2,
{
    assert forall|i: int| 0 <= i < d1.labels.len() implies d1.labels[i] == d2.labels[i] by {
        assert(err@.is_label(i, d1.labels[i]));
        assert(err@.is_label(i, d2.labels[i]));
    }
    assert(d1.labels =~= d2.labels);
}

/// The diagnostic of a mismatch has one label, and its text shows the
/// rendering of the expected type, painted as a success, and that of the
/// actual type, painted as a failure.
pub proof fn lemma_mismatch_shows_both_types(err: TypeError, d: DiagnosticView)
    requires
        err@ is Mismatch,
        err@.is_report(d),
    ensures
        d.labels.len() == 1,
        occurs_in(err@->expected, d.labels[0].message),
        occurs_in(err@->actual, d.labels[0].message),
        exists|first: bool, second: bool|
            d.labels[0].message == mismatch_label(
                #[trigger] painted(err@->expected, Emphasis::Success, first),
                #[trigger] painted(err@->actual, Emphasis::Failure, second),
            ),
{
    let expected = err@->expected;
    let actual = err@->actual;
    assert(err@.is_label(0, d.labels[0]));
    let (first, second, third) = choose|first: bool, second: bool, third: bool|
        d.labels[0].message == #[trigger] err@.label_text(0, first, second, third);
    let shown_expected = painted(expected, Emphasis::Success, first);
    let shown_actual = painted(actual, Emphasis::Failure, second);
    let text = d.labels[0].message;
    assert(text == mismatch_label(shown_expected, shown_actual));
    lemma_painting_keeps_text(expected, Emphasis::Success, first);
    lemma_painting_keeps_text(actual, Emphasis::Failure, second);
    lemma_occurs_in_middle(
        expected,
        "expected `"@,
        shown_expected,
        "`, found `"@ + shown_actual + "`"@,
    );
    assert(text =~= "expected `"@ + shown_expected + ("`, found `"@ + shown_actual + "`"@));
    lemma_occurs_in_middle(actual, "expected `"@ + shown_expected + "`, found `"@, shown_actual, "`"@);
}

/// The diagnostic of an inexhaustive match has one label for each missing
/// constructor, in their order, each naming its constructor and the field
/// type, and a note that is not empty.
pub proof fn lemma_missing_variants_labelled(err: TypeError, d: DiagnosticView)
    requires
        err@ is MissingVariants,
        err@.is_report(d),
    ensures
        d.labels.len() == err@->MissingVariants_2.len(),
        forall|i: int|
            0 <= i < d.labels.len() ==> occurs_in(
                err@->MissingVariants_2[i].0,
                (#[trigger] d.labels[i]).message,
            ) && occurs_in(err@->MissingVariants_2[i].1, d.labels[i].message),
        d.note is Some,
        d.note->Some_0.len() > 0,
{
    let variants = err@->MissingVariants_2;
    assert forall|i: int| 0 <= i < d.labels.len() implies occurs_in(
        variants[i].0,
        (#[trigger] d.labels[i]).message,
    ) && occurs_in(variants[i].1, d.labels[i].message) by {
        assert(err@.is_label(i, d.labels[i]));
        let (first, second, third) = choose|first: bool, second: bool, third: bool|
            d.labels[i].message == #[trigger] err@.label_text(i, first, second, third);
        let name = painted(variants[i].0, Emphasis::Failure, first);
        let braces = painted("{}"@, Emphasis::Failure, second);
        let ty = painted(variants[i].1, Emphasis::Failure, third);
        let text = d.labels[i].message;
        assert(text == missing_variant_label(name, braces, ty));
        lemma_painting_keeps_text(variants[i].0, Emphasis::Failure, first);
        lemma_painting_keeps_text(variants[i].1, Emphasis::Failure, third);
        lemma_occurs_in_middle(variants[i].0, "missing "@, name, braces + " "@ + ty);
        assert(text =~= "missing "@ + name + (braces + " "@ + ty));
        lemma_occurs_in_middle(variants[i].1, "missing "@ + name + braces + " "@, ty, Seq::empty());
        assert(text =~= "missing "@ + name + braces + " "@ + ty + Seq::empty());
    }
    reveal_strlit("Ensure all variants are exhausted by match arms.");
}

/// The diagnostic of an unknown field names the field and the record type
/// in its message.
pub proof fn lemma_unknown_field_names_both(err: TypeError, d: DiagnosticView)
    requires
        err@ is UnknownField,
        err@.is_report(d),
    ensures
        d.message == unknown_field_message(err@->UnknownField_2, err@->UnknownField_3),
        occurs_in(err@->UnknownField_2, d.message),
        occurs_in(err@->UnknownField_3, d.message),
{
    let label = err@->UnknownField_2;
    let record = err@->UnknownField_3;
    assert(d.message =~= around("no field `"@, label, "` on record `"@ + record + "`"@));
    assert(d.message == around("no field `"@ + label + "` on record `"@, record, "`"@));
}

/// The diagnostics of an undefined variable and of an unknown type each
/// hold in their message the name they are about, and the two messages
/// differ, whatever the names.
pub proof fn lemma_variable_and_type_not_conflated(
    variable: TypeError,
    ty: TypeError,
    of_variable: DiagnosticView,
    of_type: DiagnosticView,
)
    requires
        variable@ is UndefinedVariable,
        ty@ is UnknownType,
        variable@.is_report(of_variable),
        ty@.is_report(of_type),
    ensures
        of_variable.message == undefined_variable_message(variable@->UndefinedVariable_2),
        of_type.message == unknown_type_message(ty@->UnknownType_2),
        occurs_in(variable@->UndefinedVariable_2, of_variable.message),
        occurs_in(ty@->UnknownType_2, of_type.message),
        of_variable.message != of_type.message,
{
    reveal_strlit("cannot find variable `");
    reveal_strlit("cannot find type `");
    let a = of_variable.message;
    let b = of_type.message;
    assert(a == around("cannot find variable `"@, variable@->UndefinedVariable_2, "` in this scope"@));
    assert(b == around("cannot find type `"@, ty@->UnknownType_2, "` in this scope"@));
    assert(a[12] == 'v');
    assert(b[12] == 't');
}

/// A list made of one error holds that error and nothing else, so the
/// diagnostics of its sole element are those of the error.
pub proof fn lemma_lifted_error_reports_alike(err: TypeError, list: Errors, d: DiagnosticView)
    requires
        list@ == seq![err],
    ensures
        list@.len() == 1,
        list@[0] == err,
        list@[0]@.is_report(d) <==> err@.is_report(d),
{
}

} // verus!

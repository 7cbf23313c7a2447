use typecheck_report::checked_type::CheckedType;
use typecheck_report::diagnostic::{Emphasis, Severity};
use typecheck_report::span::SourceSpan;
use typecheck_report::taxonomy::TypeError;

fn span(start: usize, end: usize) -> SourceSpan {
    SourceSpan::new(0, start, end).unwrap()
}

fn red(text: &str) -> String {
    format!("\u{1b}[31m{}\u{1b}[0m", text)
}

fn green(text: &str) -> String {
    format!("\u{1b}[32m{}\u{1b}[0m", text)
}

fn one_of_each() -> Vec<TypeError> {
    vec![
        TypeError::BoxedExprHasLocalDeps(1, span(1, 4), String::from("x + 1")),
        TypeError::Mismatch {
            offset: 2,
            span: span(2, 9),
            expected: CheckedType::new("Int"),
            actual: CheckedType::new("Bool"),
        },
        TypeError::VariableDefinedInBothContexts(3, span(3, 4), String::from("u")),
        TypeError::MissingVariants(
            4,
            span(4, 30),
            vec![
                (String::from("Some"), CheckedType::new("Int")),
                (String::from("None"), CheckedType::new("Unit")),
            ],
        ),
        TypeError::UndefinedVariable(5, span(5, 8), String::from("foo")),
        TypeError::UnknownField(6, span(6, 9), String::from("x"), CheckedType::new("{y: Int}")),
        TypeError::UnknownIndex {
            offset: 7,
            span: span(7, 10),
            index: 3,
            tuple_type: CheckedType::new("(Int, Bool)"),
        },
        TypeError::ExpectedModal(8, span(8, 11), CheckedType::new("Int")),
        TypeError::UnknownType(9, span(9, 12), String::from("Foo")),
    ]
}

#[test]
fn offset_is_where_the_span_starts() {
    for err in one_of_each() {
        assert!(err.is_well_formed());
        assert_eq!(err.offset(), err.span().start);
    }
}

#[test]
fn offset_and_span_are_the_fields() {
    let err = TypeError::UnknownType(17, SourceSpan { source_id: 2, start: 17, end: 20 }, String::from("T"));
    assert_eq!(err.offset(), 17);
    assert_eq!(*err.span(), SourceSpan { source_id: 2, start: 17, end: 20 });
    let err = TypeError::Mismatch {
        offset: 40,
        span: SourceSpan { source_id: 1, start: 40, end: 44 },
        expected: CheckedType::new("A"),
        actual: CheckedType::new("B"),
    };
    assert_eq!(err.offset(), 40);
    assert_eq!(err.span().end, 44);
    assert_eq!(err.span().source_id, 1);
}

#[test]
fn ill_formed_errors_are_told() {
    let backwards = SourceSpan { source_id: 0, start: 9, end: 3 };
    assert!(!TypeError::UndefinedVariable(9, backwards, String::from("a")).is_well_formed());
    assert!(!TypeError::UndefinedVariable(7, span(3, 5), String::from("a")).is_well_formed());
    assert!(!TypeError::MissingVariants(3, span(3, 5), vec![]).is_well_formed());
    assert!(TypeError::UndefinedVariable(3, span(3, 3), String::from("a")).is_well_formed());
}

#[test]
fn build_report_is_repeatable() {
    for err in one_of_each() {
        let again = err.clone();
        assert_eq!(err.build_report(), err.build_report());
        assert_eq!(err.build_report(), again.build_report());
    }
}

#[test]
fn every_report_is_an_error_at_the_offset() {
    for err in one_of_each() {
        let report = err.build_report();
        assert_eq!(report.severity, Severity::Error);
        assert_eq!(report.offset, err.offset());
        assert_eq!(report.source_id, err.span().source_id);
        for label in report.labels.iter() {
            assert_eq!(label.span, *err.span());
            assert_eq!(label.emphasis, Emphasis::Failure);
        }
    }
}

#[test]
fn boxed_expr_report() {
    let err = TypeError::BoxedExprHasLocalDeps(1, span(1, 4), String::from("x + 1"));
    let report = err.build_report();
    assert_eq!(report.message, "Boxed expr depends on local values");
    assert_eq!(report.labels.len(), 1);
    assert_eq!(report.labels[0].message, format!("Expr {} has local deps", red("x + 1")));
    assert_eq!(report.note, None);
}

#[test]
fn mismatch_shows_expected_and_actual() {
    let err = TypeError::Mismatch {
        offset: 2,
        span: span(2, 9),
        expected: CheckedType::new("Int"),
        actual: CheckedType::new("Bool"),
    };
    let report = err.build_report();
    assert_eq!(report.message, "mismatched types");
    assert_eq!(report.labels.len(), 1);
    let text = &report.labels[0].message;
    assert!(text.contains("Int"));
    assert!(text.contains("Bool"));
    assert_eq!(*text, format!("expected `{}`, found `{}`", green("Int"), red("Bool")));
    assert_ne!(green("Int"), red("Int"));
    assert_eq!(report.note, None);
}

#[test]
fn painting_changes_the_text() {
    let err = TypeError::BoxedExprHasLocalDeps(0, span(0, 1), String::from("e"));
    let report = err.build_report();
    assert_ne!(report.labels[0].message, "Expr e has local deps");
    assert_eq!(report.labels[0].message, "Expr \u{1b}[31me\u{1b}[0m has local deps");
}

#[test]
fn both_contexts_report() {
    let err = TypeError::VariableDefinedInBothContexts(3, span(3, 4), String::from("u"));
    let report = err.build_report();
    assert_eq!(report.message, "Variable `u` defined in both contexts!");
    assert_eq!(report.labels.len(), 1);
    assert_eq!(report.labels[0].message, "defined in both contexts");
    assert_eq!(report.note, None);
}

#[test]
fn missing_variants_have_a_label_each() {
    let err = TypeError::MissingVariants(
        4,
        span(4, 30),
        vec![
            (String::from("Some"), CheckedType::new("IntType")),
            (String::from("None"), CheckedType::new("UnitType")),
        ],
    );
    let report = err.build_report();
    assert_eq!(report.message, "missing variants");
    assert_eq!(report.labels.len(), 2);
    assert!(report.labels[0].message.contains("Some"));
    assert!(report.labels[1].message.contains("None"));
    assert_eq!(
        report.labels[0].message,
        format!("missing {}{} {}", red("Some"), red("{}"), red("IntType"))
    );
    assert_eq!(
        report.labels[1].message,
        format!("missing {}{} {}", red("None"), red("{}"), red("UnitType"))
    );
    assert_eq!(report.labels[0].span, span(4, 30));
    assert_eq!(report.labels[1].span, span(4, 30));
    let note = report.note.unwrap();
    assert!(!note.is_empty());
    assert_eq!(note, "Ensure all variants are exhausted by match arms.");
}

#[test]
fn missing_variants_without_variants_have_no_label() {
    let err = TypeError::MissingVariants(4, span(4, 30), vec![]);
    let report = err.build_report();
    assert_eq!(report.message, "missing variants");
    assert!(report.labels.is_empty());
    assert!(report.note.is_some());
}

#[test]
fn undefined_variable_report() {
    let err = TypeError::UndefinedVariable(5, span(5, 8), String::from("foo"));
    let report = err.build_report();
    assert_eq!(report.message, "cannot find variable `foo` in this scope");
    assert_eq!(report.labels.len(), 1);
    assert_eq!(report.labels[0].message, "not found in this scope");
    assert_eq!(report.note, None);
}

#[test]
fn unknown_field_names_field_and_record() {
    let err =
        TypeError::UnknownField(6, span(6, 9), String::from("x"), CheckedType::new("RecordType"));
    let report = err.build_report();
    assert!(report.message.contains("x"));
    assert!(report.message.contains("RecordType"));
    assert_eq!(report.message, "no field `x` on record `RecordType`");
    assert_eq!(report.labels.len(), 1);
    assert_eq!(report.labels[0].message, "unknown field");
}

#[test]
fn unknown_index_report() {
    let err = TypeError::UnknownIndex {
        offset: 7,
        span: span(7, 10),
        index: 13,
        tuple_type: CheckedType::new("(Int, Bool)"),
    };
    let report = err.build_report();
    assert_eq!(report.message, "no index `13` in tuple `(Int, Bool)`");
    assert_eq!(report.labels.len(), 1);
    assert_eq!(report.labels[0].message, "unknown index");
}

#[test]
fn expected_modal_has_no_label() {
    let err = TypeError::ExpectedModal(8, span(8, 11), CheckedType::new("Int"));
    let report = err.build_report();
    assert_eq!(report.message, "Expected type `Int` to be modal");
    assert!(report.labels.is_empty());
    assert_eq!(report.note, None);
}

#[test]
fn unknown_type_report() {
    let err = TypeError::UnknownType(9, span(9, 12), String::from("Foo"));
    let report = err.build_report();
    assert_eq!(report.message, "cannot find type `Foo` in this scope");
    assert_eq!(report.labels.len(), 1);
    assert_eq!(report.labels[0].message, "not found in this scope");
}

#[test]
fn variable_and_type_are_not_conflated() {
    let variable = TypeError::UndefinedVariable(0, span(0, 3), String::from("foo")).build_report();
    let ty = TypeError::UnknownType(0, span(0, 3), String::from("Foo")).build_report();
    assert_eq!(variable.message, "cannot find variable `foo` in this scope");
    assert_eq!(ty.message, "cannot find type `Foo` in this scope");
    assert_ne!(variable.message, ty.message);
    let same_name = TypeError::UnknownType(0, span(0, 3), String::from("foo")).build_report();
    assert_ne!(variable.message, same_name.message);
}

#[test]
fn constructors_anchor_at_the_start_of_the_span() {
    let at = SourceSpan::new(4, 11, 19).unwrap();
    let int = CheckedType::new("Int");
    let boolean = CheckedType::new("Bool");
    assert_eq!(
        TypeError::boxed_expr_has_local_deps(at, String::from("e")),
        TypeError::BoxedExprHasLocalDeps(11, at, String::from("e"))
    );
    assert_eq!(
        TypeError::mismatch(at, int.clone(), boolean.clone()),
        TypeError::Mismatch { offset: 11, span: at, expected: int.clone(), actual: boolean.clone() }
    );
    assert_eq!(
        TypeError::variable_defined_in_both_contexts(at, String::from("u")),
        TypeError::VariableDefinedInBothContexts(11, at, String::from("u"))
    );
    assert_eq!(
        TypeError::missing_variants(at, vec![(String::from("A"), int.clone())]),
        TypeError::MissingVariants(11, at, vec![(String::from("A"), int.clone())])
    );
    assert_eq!(
        TypeError::undefined_variable(at, String::from("v")),
        TypeError::UndefinedVariable(11, at, String::from("v"))
    );
    assert_eq!(
        TypeError::unknown_field(at, String::from("f"), int.clone()),
        TypeError::UnknownField(11, at, String::from("f"), int.clone())
    );
    assert_eq!(
        TypeError::unknown_index(at, 2, int.clone()),
        TypeError::UnknownIndex { offset: 11, span: at, index: 2, tuple_type: int.clone() }
    );
    assert_eq!(TypeError::expected_modal(at, int.clone()), TypeError::ExpectedModal(11, at, int));
    assert_eq!(
        TypeError::unknown_type(at, String::from("T")),
        TypeError::UnknownType(11, at, String::from("T"))
    );
    assert!(TypeError::unknown_type(at, String::from("T")).is_well_formed());
    assert!(!TypeError::missing_variants(at, vec![]).is_well_formed());
    let backwards = SourceSpan { source_id: 0, start: 9, end: 3 };
    assert!(!TypeError::unknown_type(backwards, String::from("T")).is_well_formed());
}

use typecheck_report::checked_type::CheckedType;
use typecheck_report::decimal::{digit_str, render_decimal};
use typecheck_report::error_list::{Error, Errors};
use typecheck_report::report::failure_label;
use typecheck_report::diagnostic::Emphasis;
use typecheck_report::span::SourceSpan;
use typecheck_report::taxonomy::TypeError;
use typecheck_report::text::{
    both_contexts_text, boxed_label_text, enclose, enclose_two, expected_modal_text,
    mismatch_label_text, missing_variant_label_text, undefined_variable_text,
    unknown_field_text, unknown_index_text, unknown_type_text,
};

fn undefined_at(offset: usize) -> TypeError {
    let span = SourceSpan::new(0, offset, offset + 3).unwrap();
    TypeError::UndefinedVariable(offset, span, format!("v{}", offset))
}

#[test]
fn span_new_refuses_backwards_ranges() {
    assert_eq!(SourceSpan::new(1, 2, 5), Some(SourceSpan { source_id: 1, start: 2, end: 5 }));
    assert_eq!(SourceSpan::new(1, 5, 5), Some(SourceSpan { source_id: 1, start: 5, end: 5 }));
    assert_eq!(SourceSpan::new(1, 6, 5), None);
    assert!(SourceSpan::new(1, 0, usize::MAX).is_some());
}

#[test]
fn checked_type_keeps_its_rendering() {
    let ty = CheckedType::new("[]Int");
    assert_eq!(ty.as_str(), "[]Int");
    assert_eq!(ty, CheckedType { rendered: String::from("[]Int") });
}

#[test]
fn decimal_numerals() {
    assert_eq!(render_decimal(0), "0");
    assert_eq!(render_decimal(7), "7");
    assert_eq!(render_decimal(10), "10");
    assert_eq!(render_decimal(909), "909");
    assert_eq!(render_decimal(12345), "12345");
    assert_eq!(render_decimal(usize::MAX), usize::MAX.to_string());
    assert_eq!(digit_str(0), "0");
    assert_eq!(digit_str(9), "9");
}

#[test]
fn texts_are_put_together_in_order() {
    assert_eq!(enclose("a", "b", "c"), "abc");
    assert_eq!(enclose("", "", ""), "");
    assert_eq!(enclose_two("a", "b", "c", "d", "e"), "abcde");
    assert_eq!(both_contexts_text("n"), "Variable `n` defined in both contexts!");
    assert_eq!(undefined_variable_text("n"), "cannot find variable `n` in this scope");
    assert_eq!(unknown_type_text("N"), "cannot find type `N` in this scope");
    assert_eq!(unknown_field_text("f", "R"), "no field `f` on record `R`");
    assert_eq!(unknown_index_text(0, "()"), "no index `0` in tuple `()`");
    assert_eq!(expected_modal_text("T"), "Expected type `T` to be modal");
    assert_eq!(boxed_label_text("e"), "Expr e has local deps");
    assert_eq!(mismatch_label_text("A", "B"), "expected `A`, found `B`");
    assert_eq!(missing_variant_label_text("Some", "{}", "Int"), "missing Some{} Int");
}

#[test]
fn failure_label_marks_a_failure() {
    let span = SourceSpan::new(3, 1, 2).unwrap();
    let label = failure_label(span, String::from("why"));
    assert_eq!(label.span, span);
    assert_eq!(label.message, "why");
    assert_eq!(label.emphasis, Emphasis::Failure);
}

#[test]
fn lifting_gives_a_list_of_one() {
    let err = undefined_at(12);
    let expected = err.build_report();
    let list: Errors = err.clone().into();
    assert_eq!(list.len(), 1);
    assert_eq!(list.get(0).unwrap().build_report(), expected);
    assert_eq!(*list.get(0).unwrap().inner, err);
    assert!(list.get(1).is_none());
}

#[test]
fn lifting_gives_a_boxed_error() {
    let err = undefined_at(5);
    let boxed: Error = err.clone().into();
    assert_eq!(*boxed.inner, err);
    assert_eq!(boxed.offset(), 5);
    assert_eq!(*boxed.span(), *err.span());
    assert_eq!(boxed.build_report(), err.build_report());
}

#[test]
fn lifting_gives_a_failed_result() {
    let err = undefined_at(8);
    let failed: Result<u32, Errors> = err.clone().into();
    let list = failed.unwrap_err();
    assert_eq!(list.len(), 1);
    assert_eq!(*list.get(0).unwrap().inner, err);
}

#[test]
fn lists_keep_the_order_of_discovery() {
    let mut list = Errors::new();
    assert_eq!(list.len(), 0);
    assert!(list.get(0).is_none());
    list.push(Error::from(undefined_at(40)));
    list.push(Error::from(undefined_at(10)));
    list.push(Error::from(undefined_at(10)));
    let mut more = Errors::new();
    more.push(Error::from(undefined_at(25)));
    more.push(Error::from(undefined_at(1)));
    list.append(more);
    let offsets: Vec<usize> = list.items.iter().map(|e| e.offset()).collect();
    assert_eq!(offsets, vec![40, 10, 10, 25, 1]);
    assert_eq!(list.len(), 5);
}

#[test]
fn sorting_by_offset_orders_a_list() {
    let mut list = Errors::new();
    list.push(Error::from(undefined_at(40)));
    list.push(Error::from(undefined_at(10)));
    list.push(Error::from(undefined_at(25)));
    let appended: Vec<usize> = list.items.iter().map(|e| e.offset()).collect();
    assert_eq!(appended, vec![40, 10, 25]);
    list.sort_by_offset();
    let sorted: Vec<usize> = list.items.iter().map(|e| e.offset()).collect();
    assert_eq!(sorted, vec![10, 25, 40]);
    assert_eq!(list.get(0).unwrap().build_report().message, "cannot find variable `v10` in this scope");
}

#[test]
fn sorting_keeps_errors_at_one_offset_in_their_order() {
    let span = SourceSpan::new(0, 10, 12).unwrap();
    let mut list = Errors::new();
    list.push(Error::from(undefined_at(40)));
    list.push(Error::from(TypeError::UndefinedVariable(10, span, String::from("first"))));
    list.push(Error::from(undefined_at(3)));
    list.push(Error::from(TypeError::UnknownType(10, span, String::from("second"))));
    list.push(Error::from(TypeError::UndefinedVariable(10, span, String::from("third"))));
    list.sort_by_offset();
    assert_eq!(list.len(), 5);
    let offsets: Vec<usize> = list.items.iter().map(|e| e.offset()).collect();
    assert_eq!(offsets, vec![3, 10, 10, 10, 40]);
    assert_eq!(*list.get(1).unwrap().inner, TypeError::UndefinedVariable(10, span, String::from("first")));
    assert_eq!(*list.get(2).unwrap().inner, TypeError::UnknownType(10, span, String::from("second")));
    assert_eq!(*list.get(3).unwrap().inner, TypeError::UndefinedVariable(10, span, String::from("third")));
}

#[test]
fn sorting_an_empty_or_ordered_list_changes_nothing() {
    let mut list = Errors::new();
    list.sort_by_offset();
    assert_eq!(list.len(), 0);
    list.push(Error::from(undefined_at(1)));
    list.push(Error::from(undefined_at(2)));
    list.push(Error::from(undefined_at(3)));
    let before = list.clone();
    list.sort_by_offset();
    assert_eq!(list, before);
}

use vstd::prelude::*;
use vstd::string::*;
use crate::decimal::{decimal, render_decimal};

verus! {

/// Message for an expression under a box that uses local bindings.
pub open spec fn boxed_message() -> Seq<char> {
    "Boxed expr depends on local values"@
}

/// Message for a type that differs from the one its context demands.
pub open spec fn mismatch_message() -> Seq<char> {
    "mismatched types"@
}

/// Message for an inexhaustive match.
pub open spec fn missing_variants_message() -> Seq<char> {
    "missing variants"@
}

/// Note that follows the labels of an inexhaustive match.
pub open spec fn missing_variants_note() -> Seq<char> {
    "Ensure all variants are exhausted by match arms."@
}

/// Message for a binder whose name both contexts already hold.
pub open spec fn both_contexts_message(name: Seq<char>) -> Seq<char> {
    "Variable `"@ + name + "` defined in both contexts!"@
}

/// Message for a variable that no context binds.
pub open spec fn undefined_variable_message(name: Seq<char>) -> Seq<char> {
    "cannot find variable `"@ + name + "` in this scope"@
}

/// Message for a type name that nothing declares.
pub open spec fn unknown_type_message(name: Seq<char>) -> Seq<char> {
    "cannot find type `"@ + name + "` in this scope"@
}

/// Message for a projection of a field that the record type lacks.
pub open spec fn unknown_field_message(label: Seq<char>, record: Seq<char>) -> Seq<char> {
    "no field `"@ + label + "` on record `"@ + record + "`"@
}

/// Message for a projection of a position that the tuple type lacks.
pub open spec fn unknown_index_message(index: nat, tuple: Seq<char>) -> Seq<char> {
    "no index `"@ + decimal(index) + "` in tuple `"@ + tuple + "`"@
}

/// Message for a type that should have been modal.
pub open spec fn expected_modal_message(ty: Seq<char>) -> Seq<char> {
    "Expected type `"@ + ty + "` to be modal"@
}

/// Label text of a boxed expression, around the painted expression.
pub open spec fn boxed_label(painted_expr: Seq<char>) -> Seq<char> {
    "Expr "@ + painted_expr + " has local deps"@
}

/// Label text of a mismatch, around the two painted types.
pub open spec fn mismatch_label(painted_expected: Seq<char>, painted_actual: Seq<char>) -> Seq<
    char,
> {
    "expected `"@ + painted_expected + "`, found `"@ + painted_actual + "`"@
}

/// Label text of one missing variant: the painted constructor, the painted
/// pair of braces and the painted field type.
pub open spec fn missing_variant_label(
    painted_label: Seq<char>,
    painted_braces: Seq<char>,
    painted_type: Seq<char>,
) -> Seq<char> {
    "missing "@ + painted_label + painted_braces + " "@ + painted_type
}

/// `head`, `inner` and `tail` in one string.
pub fn enclose(head: &str, inner: &str, tail: &str) -> (s: String)
    ensures
        s@ == head@ + inner@ + tail@,
{
    let mut s = String::from_str(head);
    s.append(inner);
    s.append(tail);
    s
}

/// Five pieces in one string, in their order.
pub fn enclose_two(head: &str, first: &str, between: &str, second: &str, tail: &str) -> (s:
    String)
    ensures
        s@ == head@ + first@ + between@ + second@ + tail@,
{
    let mut s = enclose(head, first, between);
    s.append(second);
    s.append(tail);
    s
}

/// The message for the binder `name` that both contexts hold.
pub fn both_contexts_text(name: &str) -> (s: String)
    ensures
        s@ == both_contexts_message(name@),
{
    enclose("Variable `", name, "` defined in both contexts!")
}

/// The message for the variable `name` that nothing binds.
pub fn undefined_variable_text(name: &str) -> (s: String)
    ensures
        s@ == undefined_variable_message(name@),
{
    enclose("cannot find variable `", name, "` in this scope")
}

/// The message for the type name `name` that nothing declares.
pub fn unknown_type_text(name: &str) -> (s: String)
    ensures
        s@ == unknown_type_message(name@),
{
    enclose("cannot find type `", name, "` in this scope")
}

/// The message for the field `label` that the type `record` lacks.
pub fn unknown_field_text(label: &str, record: &str) -> (s: String)
    ensures
        s@ == unknown_field_message(label@, record@),
{
    enclose_two("no field `", label, "` on record `", record, "`")
}

/// The message for the position `index`, as a decimal numeral, that the
/// type `tuple` lacks.
pub fn unknown_index_text(index: usize, tuple: &str) -> (s: String)
    ensures
        s@ == unknown_index_message(index as nat, tuple@),
{
    let numeral = render_decimal(index);
    enclose_two("no index `", numeral.as_str(), "` in tuple `", tuple, "`")
}

/// The message for the type `ty` that should have been modal.
pub fn expected_modal_text(ty: &str) -> (s: String)
    ensures
        s@ == expected_modal_message(ty@),
{
    enclose("Expected type `", ty, "` to be modal")
}

/// The label text of a boxed expression, around the expression as it was
/// painted.
pub fn boxed_label_text(painted_expr: &str) -> (s: String)
    ensures
        s@ == boxed_label(painted_expr@),
{
    enclose("Expr ", painted_expr, " has local deps")
}

/// The label text of a mismatch, around the two types as they were painted.
pub fn mismatch_label_text(painted_expected: &str, painted_actual: &str) -> (s: String)
    ensures
        s@ == mismatch_label(painted_expected@, painted_actual@),
{
    enclose_two("expected `", painted_expected, "`, found `", painted_actual, "`")
}

/// The label text of one missing variant, from its three pieces as they
/// were painted.
pub fn missing_variant_label_text(
    painted_label: &str,
    painted_braces: &str,
    painted_type: &str,
) -> (s: String)
    ensures
        s@ == missing_variant_label(painted_label@, painted_braces@, painted_type@),
{
    enclose_two("missing ", painted_label, painted_braces, " ", painted_type)
}

} // verus!

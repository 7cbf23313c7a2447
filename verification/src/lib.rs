//! Structured type errors and their source-anchored diagnostics.
//!
//! Every way in which a program can be ill-typed is a value of `TypeError`; its
//! `build_report` turns such a value into a `Diagnostic`, a neutral
//! description of what a renderer shows.

pub mod span;
pub mod checked_type;
pub mod diagnostic;
pub mod paint;
pub mod decimal;
pub mod text;
pub mod taxonomy;
pub mod report;
pub mod error_list;
pub mod order;
pub mod laws;

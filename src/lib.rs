//! Evaluation core of a small interpreted language: a runtime value model,
//! a single environment of bindings, compound assignment and function calls.

pub mod error;
pub mod value;
pub mod expr;
pub mod vm;
pub mod eval;
pub mod laws;

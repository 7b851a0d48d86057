use vstd::prelude::*;

use crate::value::Type;

verus! {

/// A write was attempted against an immutable binding.
#[derive(Clone, Debug)]
pub struct ItsAConstantError {
    pub var_name: String,
}

/// An identifier has no binding.
#[derive(Clone, Debug)]
pub struct VarNotFoundError {
    pub var_name: String,
}

/// A value of one type was found where another was expected.
#[derive(Clone, Debug)]
pub struct TypeMismatchError {
    pub expected: Type,
    pub found: Type,
}

/// The result of an arithmetic update does not fit the numeric type,
/// or is a division by zero.
#[derive(Clone, Debug)]
pub struct ArithmeticError {
    pub var_name: String,
}

/// Errors raised while evaluating.
#[derive(Clone, Debug)]
pub enum Error {
    VarNotFound(VarNotFoundError),
    ItsAConstant(ItsAConstantError),
    TypeMismatch(TypeMismatchError),
    Arithmetic(ArithmeticError),
}

} // verus!

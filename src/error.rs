use vstd::prelude::*;

use crate::object::Object;
use crate::primitive::Primitive;

verus! {

/// Why an evaluation failed.
#[derive(Debug, Clone, PartialEq)]
pub enum Error<F> {
    /// An operator met primitive operands it is not defined on (or whose
    /// result does not fit); carries copies of the operands.
    InvalidOperation(OperatorError, Primitive<F>, Option<Primitive<F>>),
    /// An operator met a value that is not a primitive; carries copies of
    /// the operands.
    InvalidType(OperatorError, Object<F>, Option<Object<F>>),
    /// Anything else: a construct without an evaluation rule, a condition
    /// that is not a boolean.
    OtherError(String),
}

#[derive(Debug, PartialEq)]
pub enum InterpreterError {
    Message(String),
}

/// The operator that failed.
#[derive(Debug, Clone, Copy, PartialEq, Eq)]
pub enum OperatorError {
    Add,
    Sub,
    Mul,
    IntDiv,
    RealDiv,
    Module,
    UnarySub,
    UnaryPlus,
    Negate,
    And,
    Or,
    LessThan,
    GreaterThan,
    LessThanEqual,
    GreaterThanEqual,
    Equal,
    NotEqual,
    Is,
    NotIs,
}

} // verus!

use vstd::prelude::*;

use crate::ast::{BooleanOperation, Comparison, Operator, UnaryOperation};
use crate::error::{Error, OperatorError};
use crate::primitive::{
    arith_result, bool_result, compare_result, int_div_result, unary_result, FloatUnit,
    Primitive,
};

verus! {

/// A runtime value.
#[derive(Debug, Clone, PartialEq)]
pub enum Object<F> {
    Primitive(Primitive<F>),
    /// A capability that the caller supplies (text output, line input).
    Builtin(Builtin),
    /// The no-value marker.
    Unit,
}

/// The built-in capabilities a value can refer to.
#[derive(Debug, Clone, Copy, PartialEq, Eq)]
pub enum Builtin {
    Print,
    Input,
}

impl<F> From<i64> for Object<F> {
    fn from(n: i64) -> Self {
        Object::Primitive(Primitive::Integer(n))
    }
}

impl<F> vstd::std_specs::convert::FromSpecImpl<i64> for Object<F> {
    open spec fn obeys_from_spec() -> bool {
        true
    }

    open spec fn from_spec(n: i64) -> Self {
        Object::Primitive(Primitive::Integer(n))
    }
}

impl<F> From<String> for Object<F> {
    fn from(n: String) -> Self {
        Object::Primitive(Primitive::Str(n))
    }
}

impl<F> vstd::std_specs::convert::FromSpecImpl<String> for Object<F> {
    open spec fn obeys_from_spec() -> bool {
        true
    }

    open spec fn from_spec(n: String) -> Self {
        Object::Primitive(Primitive::Str(n))
    }
}

impl<F> From<bool> for Object<F> {
    fn from(n: bool) -> Self {
        Object::Primitive(Primitive::Boolean(n))
    }
}

impl<F> vstd::std_specs::convert::FromSpecImpl<bool> for Object<F> {
    open spec fn obeys_from_spec() -> bool {
        true
    }

    open spec fn from_spec(n: bool) -> Self {
        Object::Primitive(Primitive::Boolean(n))
    }
}

impl<F> From<Primitive<F>> for Object<F> {
    fn from(n: Primitive<F>) -> Self {
        Object::Primitive(n)
    }
}

impl<F> vstd::std_specs::convert::FromSpecImpl<Primitive<F>> for Object<F> {
    open spec fn obeys_from_spec() -> bool {
        true
    }

    open spec fn from_spec(n: Primitive<F>) -> Self {
        Object::Primitive(n)
    }
}

/// Lifts a primitive outcome to an object outcome.
pub open spec fn lifted<F>(r: Result<Primitive<F>, Error<F>>) -> Result<Object<F>, Error<F>> {
    match r {
        Ok(p) => Ok(Object::Primitive(p)),
        Err(e) => Err(e),
    }
}

pub open spec fn lifted_opt<F>(r: Option<Result<Primitive<F>, Error<F>>>) -> Option<
    Result<Object<F>, Error<F>>,
> {
    match r {
        Some(v) => Some(lifted(v)),
        None => None,
    }
}

/// What a binary operator gives on two objects: the primitive operator's
/// outcome where both are primitives, else a type error carrying both.
pub open spec fn binary_object<F>(
    a: Object<F>,
    b: Object<F>,
    op: OperatorError,
    prim: spec_fn(Primitive<F>, Primitive<F>) -> Option<Result<Primitive<F>, Error<F>>>,
) -> Option<Result<Object<F>, Error<F>>> {
    match (a, b) {
        (Object::Primitive(x), Object::Primitive(y)) => lifted_opt(prim(x, y)),
        _ => Some(Err(Error::InvalidType(op, a, Some(b)))),
    }
}

pub open spec fn arith_object<F>(op: Operator, a: Object<F>, b: Object<F>) -> Option<
    Result<Object<F>, Error<F>>,
> {
    binary_object(a, b, crate::primitive::arith_error(op), |x, y| arith_result(op, x, y))
}

pub open spec fn compare_object<F>(op: Comparison, a: Object<F>, b: Object<F>) -> Option<
    Result<Object<F>, Error<F>>,
> {
    binary_object(a, b, crate::primitive::compare_error(op), |x, y| compare_result(op, x, y))
}

pub open spec fn bool_error(op: BooleanOperation) -> OperatorError {
    if op == BooleanOperation::And {
        OperatorError::And
    } else {
        OperatorError::Or
    }
}

pub open spec fn bool_object<F>(op: BooleanOperation, a: Object<F>, b: Object<F>) -> Option<
    Result<Object<F>, Error<F>>,
> {
    binary_object(a, b, bool_error(op), |x, y| Some(bool_result(op, x, y)))
}

pub open spec fn unary_object<F>(op: UnaryOperation, a: Object<F>) -> Option<
    Result<Object<F>, Error<F>>,
> {
    match a {
        Object::Primitive(x) => lifted_opt(unary_result(op, x)),
        _ => Some(Err(Error::InvalidType(crate::primitive::unary_error(op), a, None))),
    }
}

/// `r` is what `expected` says, or, where it leaves the result to the float
/// unit, a real (`real`) or a boolean (`!real`).
pub open spec fn settles_object<F>(
    expected: Option<Result<Object<F>, Error<F>>>,
    r: Result<Object<F>, Error<F>>,
    is_real: bool,
) -> bool {
    match expected {
        Some(v) => r == v,
        None => if is_real {
            r matches Ok(Object::Primitive(Primitive::Float(_)))
        } else {
            r matches Ok(Object::Primitive(Primitive::Boolean(_)))
        },
    }
}

impl<F: Copy> Object<F> {
    /// A copy of the value.
    pub fn copy(&self) -> (r: Self)
        ensures
            r == *self,
    {
        match self {
            Object::Primitive(p) => Object::Primitive(p.copy()),
            Object::Builtin(b) => Object::Builtin(*b),
            Object::Unit => Object::Unit,
        }
    }

    fn error(&self, right: Option<&Self>, op: OperatorError) -> (r: Result<Self, Error<F>>)
        ensures
            r == Err::<Self, Error<F>>(Error::InvalidType(op, *self, match right {
                Some(b) => Some(*b),
                None => None,
            })),
    {
        let b = match right {
            Some(b) => Some(b.copy()),
            None => None,
        };
        Err(Error::InvalidType(op, self.copy(), b))
    }

    fn lift(r: Result<Primitive<F>, Error<F>>) -> (o: Result<Self, Error<F>>)
        ensures
            o == lifted(r),
    {
        match r {
            Ok(p) => Ok(Object::Primitive(p)),
            Err(e) => Err(e),
        }
    }

    /// Boolean negation.
    pub fn negate(&self) -> (r: Result<Self, Error<F>>)
        ensures
            r == unary_object(UnaryOperation::Not, *self)->0,
    {
        match self {
            Object::Primitive(p) => Self::lift(p.negate()),
            _ => self.error(None, OperatorError::Negate),
        }
    }

    /// Unary plus, which multiplies a number by minus one.
    pub fn unary_plus<U: FloatUnit<F>>(&self, unit: &U) -> (r: Result<Self, Error<F>>)
        ensures
            settles_object(unary_object(UnaryOperation::Plus, *self), r, true),
    {
        match self {
            Object::Primitive(p) => Self::lift(p.plus(unit)),
            _ => self.error(None, OperatorError::UnaryPlus),
        }
    }

    /// Unary minus.
    pub fn unary_minus<U: FloatUnit<F>>(&self, unit: &U) -> (r: Result<Self, Error<F>>)
        ensures
            settles_object(unary_object(UnaryOperation::Minus, *self), r, true),
    {
        match self {
            Object::Primitive(p) => Self::lift(p.minus(unit)),
            _ => self.error(None, OperatorError::UnarySub),
        }
    }
    /// `self + other`.
    pub fn add<U: FloatUnit<F>>(&self, other: &Self, unit: &U) -> (r: Result<Self, Error<F>>)
        ensures
            settles_object(arith_object(Operator::Add, *self, *other), r, true),
    {
        match (self, other) {
            (Object::Primitive(l), Object::Primitive(b)) => Self::lift(l.add(b, unit)),
            _ => self.error(Some(other), OperatorError::Add),
        }
    }

    /// `self - other`.
    pub fn subtract<U: FloatUnit<F>>(&self, other: &Self, unit: &U) -> (r: Result<Self, Error<F>>)
        ensures
            settles_object(arith_object(Operator::Sub, *self, *other), r, true),
    {
        match (self, other) {
            (Object::Primitive(l), Object::Primitive(b)) => Self::lift(l.sub(b, unit)),
            _ => self.error(Some(other), OperatorError::Sub),
        }
    }

    /// `self * other`.
    pub fn multiply<U: FloatUnit<F>>(&self, other: &Self, unit: &U) -> (r: Result<Self, Error<F>>)
        ensures
            settles_object(arith_object(Operator::Mul, *self, *other), r, true),
    {
        match (self, other) {
            (Object::Primitive(l), Object::Primitive(b)) => Self::lift(l.mul(b, unit)),
            _ => self.error(Some(other), OperatorError::Mul),
        }
    }

    /// Real division: a real for any two numbers.
    pub fn real_divide<U: FloatUnit<F>>(&self, other: &Self, unit: &U) -> (r: Result<Self, Error<F>>)
        ensures
            settles_object(arith_object(Operator::Div, *self, *other), r, true),
    {
        match (self, other) {
            (Object::Primitive(l), Object::Primitive(b)) => Self::lift(l.real_div(b, unit)),
            _ => self.error(Some(other), OperatorError::RealDiv),
        }
    }

    /// Remainder.
    pub fn module<U: FloatUnit<F>>(&self, other: &Self, unit: &U) -> (r: Result<Self, Error<F>>)
        ensures
            settles_object(arith_object(Operator::Mod, *self, *other), r, true),
    {
        match (self, other) {
            (Object::Primitive(l), Object::Primitive(b)) => Self::lift(l.module(b, unit)),
            _ => self.error(Some(other), OperatorError::Module),
        }
    }

    /// `self < other`.
    pub fn less_than<U: FloatUnit<F>>(&self, other: &Self, unit: &U) -> (r: Result<Self, Error<F>>)
        ensures
            settles_object(compare_object(Comparison::Less, *self, *other), r, false),
    {
        match (self, other) {
            (Object::Primitive(l), Object::Primitive(b)) => Self::lift(l.less_than(b, unit)),
            _ => self.error(Some(other), OperatorError::LessThan),
        }
    }

    /// `self > other`.
    pub fn greater_than<U: FloatUnit<F>>(&self, other: &Self, unit: &U) -> (r: Result<Self, Error<F>>)
        ensures
            settles_object(compare_object(Comparison::Greater, *self, *other), r, false),
    {
        match (self, other) {
            (Object::Primitive(l), Object::Primitive(b)) => Self::lift(l.greater_than(b, unit)),
            _ => self.error(Some(other), OperatorError::GreaterThan),
        }
    }

    /// `self <= other`.
    pub fn less_than_equal<U: FloatUnit<F>>(&self, other: &Self, unit: &U) -> (r: Result<Self, Error<F>>)
        ensures
            settles_object(compare_object(Comparison::LessThan, *self, *other), r, false),
    {
        match (self, other) {
            (Object::Primitive(l), Object::Primitive(b)) => Self::lift(l.less_than_equal(b, unit)),
            _ => self.error(Some(other), OperatorError::LessThanEqual),
        }
    }

    /// `self >= other`.
    pub fn greater_than_equal<U: FloatUnit<F>>(&self, other: &Self, unit: &U) -> (r: Result<Self, Error<F>>)
        ensures
            settles_object(compare_object(Comparison::GreaterThan, *self, *other), r, false),
    {
        match (self, other) {
            (Object::Primitive(l), Object::Primitive(b)) => Self::lift(l.greater_than_equal(b, unit)),
            _ => self.error(Some(other), OperatorError::GreaterThanEqual),
        }
    }

    /// Value equality.
    pub fn equal<U: FloatUnit<F>>(&self, other: &Self, unit: &U) -> (r: Result<Self, Error<F>>)
        ensures
            settles_object(compare_object(Comparison::Equal, *self, *other), r, false),
    {
        match (self, other) {
            (Object::Primitive(l), Object::Primitive(b)) => Self::lift(l.eq(b, unit)),
            _ => self.error(Some(other), OperatorError::Equal),
        }
    }

    /// Value inequality.
    pub fn not_equal<U: FloatUnit<F>>(&self, other: &Self, unit: &U) -> (r: Result<Self, Error<F>>)
        ensures
            settles_object(compare_object(Comparison::NotEqual, *self, *other), r, false),
    {
        match (self, other) {
            (Object::Primitive(l), Object::Primitive(b)) => Self::lift(l.not_eq(b, unit)),
            _ => self.error(Some(other), OperatorError::NotEqual),
        }
    }

    /// Integer division, truncating; defined on two integers only.
    pub fn int_divide(&self, other: &Self) -> (r: Result<Self, Error<F>>)
        ensures
            r == binary_object(*self, *other, OperatorError::IntDiv, |x, y| Some(int_div_result(x, y)))->0,
    {
        match (self, other) {
            (Object::Primitive(l), Object::Primitive(b)) => Self::lift(l.int_div(b)),
            _ => self.error(Some(other), OperatorError::IntDiv),
        }
    }

    /// Boolean conjunction.
    pub fn and(&self, other: &Self) -> (r: Result<Self, Error<F>>)
        ensures
            r == bool_object(BooleanOperation::And, *self, *other)->0,
    {
        match (self, other) {
            (Object::Primitive(l), Object::Primitive(b)) => Self::lift(l.and(b)),
            _ => self.error(Some(other), OperatorError::And),
        }
    }

    /// Boolean disjunction.
    pub fn or(&self, other: &Self) -> (r: Result<Self, Error<F>>)
        ensures
            r == bool_object(BooleanOperation::Or, *self, *other)->0,
    {
        match (self, other) {
            (Object::Primitive(l), Object::Primitive(b)) => Self::lift(l.or(b)),
            _ => self.error(Some(other), OperatorError::Or),
        }
    }

    /// Identity test: whether both are primitives of the same case.
    pub fn is(&self, other: &Self) -> (r: Result<Self, Error<F>>)
        ensures
            r == compare_object(Comparison::Is, *self, *other)->0,
    {
        match (self, other) {
            (Object::Primitive(l), Object::Primitive(b)) => Self::lift(l.is(b)),
            _ => self.error(Some(other), OperatorError::Is),
        }
    }
}

} // verus!

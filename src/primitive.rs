use vstd::prelude::*;

use crate::ast::{BooleanOperation, Comparison, Operator, UnaryOperation};
use crate::error::{Error, OperatorError};

verus! {

/// A primitive runtime value. `F` is the type of real numbers; the library
/// never computes with it itself but hands that work to a [`FloatUnit`].
#[derive(Debug, Clone, PartialEq)]
pub enum Primitive<F> {
    Integer(i64),
    Float(F),
    Str(String),
    Boolean(bool),
}

impl<F> From<i64> for Primitive<F> {
    fn from(n: i64) -> Self {
        Primitive::Integer(n)
    }
}

impl<F> vstd::std_specs::convert::FromSpecImpl<i64> for Primitive<F> {
    open spec fn obeys_from_spec() -> bool {
        true
    }

    open spec fn from_spec(n: i64) -> Self {
        Primitive::Integer(n)
    }
}

impl<F> From<String> for Primitive<F> {
    fn from(n: String) -> Self {
        Primitive::Str(n)
    }
}

impl<F> vstd::std_specs::convert::FromSpecImpl<String> for Primitive<F> {
    open spec fn obeys_from_spec() -> bool {
        true
    }

    open spec fn from_spec(n: String) -> Self {
        Primitive::Str(n)
    }
}

impl<F> From<bool> for Primitive<F> {
    fn from(n: bool) -> Self {
        Primitive::Boolean(n)
    }
}

impl<F> vstd::std_specs::convert::FromSpecImpl<bool> for Primitive<F> {
    open spec fn obeys_from_spec() -> bool {
        true
    }

    open spec fn from_spec(n: bool) -> Self {
        Primitive::Boolean(n)
    }
}

/// Arithmetic on real numbers, supplied by the caller. The library decides
/// which operation to ask for and on which operands; the unit computes it.
pub trait FloatUnit<F> {
    /// The value of a real literal: `text` is digits, a dot and digits.
    fn literal(&self, text: &str) -> F;

    /// The integer as a real.
    fn widen(&self, v: i64) -> F;

    /// `a op b`; `Div` is real division and `Mod` the remainder.
    fn arith(&self, op: Operator, a: F, b: F) -> F;

    /// `a op b` for `Equal`, `NotEqual`, `Greater`, `GreaterThan` (`>=`),
    /// `Less` and `LessThan` (`<=`).
    fn compare(&self, op: Comparison, a: F, b: F) -> bool;

    /// `-a`.
    fn negative(&self, a: F) -> F;
}

/// A real operand after coercion: a real value, or an integer to be widened.
#[derive(Debug, Clone, Copy, PartialEq)]
pub enum Real<F> {
    Widened(i64),
    Value(F),
}

/// Two numeric operands after the coercion rule: both stay integers, or
/// both are taken as reals.
#[derive(Debug, Clone, Copy, PartialEq)]
pub enum Numbers<F> {
    Integers(i64, i64),
    Reals(Real<F>, Real<F>),
}

pub open spec fn fits_i64(v: int) -> bool {
    i64::MIN <= v <= i64::MAX
}

/// The coercion rule shared by every binary numeric operator: two integers
/// stay integers; any other pair of numbers is a pair of reals, with an
/// integer operand widened; a pair with a non-number has no numeric reading.
pub open spec fn numbers_of<F>(a: Primitive<F>, b: Primitive<F>) -> Option<Numbers<F>> {
    match (a, b) {
        (Primitive::Integer(x), Primitive::Integer(y)) => Some(Numbers::Integers(x, y)),
        (Primitive::Integer(x), Primitive::Float(y)) => Some(
            Numbers::Reals(Real::Widened(x), Real::Value(y)),
        ),
        (Primitive::Float(x), Primitive::Integer(y)) => Some(
            Numbers::Reals(Real::Value(x), Real::Widened(y)),
        ),
        (Primitive::Float(x), Primitive::Float(y)) => Some(
            Numbers::Reals(Real::Value(x), Real::Value(y)),
        ),
        _ => None,
    }
}

/// Quotient of integer division, truncated toward zero.
pub open spec fn trunc_div(x: int, y: int) -> int
    recommends
        y != 0,
{
    let q: int = (vstd::math::abs(x) / vstd::math::abs(y)) as int;
    if (x < 0) != (y < 0) {
        -q
    } else {
        q
    }
}

/// Remainder of integer division; it has the sign of `x`.
pub open spec fn trunc_rem(x: int, y: int) -> int
    recommends
        y != 0,
{
    x - y * trunc_div(x, y)
}

/// The operator tag of a failing arithmetic operator.
pub open spec fn arith_error(op: Operator) -> OperatorError {
    match op {
        Operator::Add => OperatorError::Add,
        Operator::Sub => OperatorError::Sub,
        Operator::Mul => OperatorError::Mul,
        Operator::Div => OperatorError::RealDiv,
        Operator::Mod => OperatorError::Module,
    }
}

/// The operator tag of a failing comparison.
pub open spec fn compare_error(op: Comparison) -> OperatorError {
    match op {
        Comparison::Equal => OperatorError::Equal,
        Comparison::NotEqual => OperatorError::NotEqual,
        Comparison::Greater => OperatorError::GreaterThan,
        Comparison::GreaterThan => OperatorError::GreaterThanEqual,
        Comparison::Less => OperatorError::LessThan,
        Comparison::LessThan => OperatorError::LessThanEqual,
        Comparison::Is => OperatorError::Is,
        _ => OperatorError::NotIs,
    }
}

pub open spec fn fails<F>(op: OperatorError, a: Primitive<F>, b: Option<Primitive<F>>) -> Result<
    Primitive<F>,
    Error<F>,
> {
    Err(Error::InvalidOperation(op, a, b))
}

/// The exact integer result of `x op y`, where it has one.
pub open spec fn int_arith(op: Operator, x: int, y: int) -> Option<int> {
    match op {
        Operator::Add => Some(x + y),
        Operator::Sub => Some(x - y),
        Operator::Mul => Some(x * y),
        Operator::Mod => if y == 0 {
            None
        } else {
            Some(trunc_rem(x, y))
        },
        Operator::Div => None,
    }
}

/// What `a op b` evaluates to. `None`: the result is the real that the
/// float unit computes, which the library does not model.
pub open spec fn arith_result<F>(op: Operator, a: Primitive<F>, b: Primitive<F>) -> Option<
    Result<Primitive<F>, Error<F>>,
> {
    match numbers_of(a, b) {
        Some(Numbers::Integers(x, y)) => if op == Operator::Div {
            None
        } else {
            match int_arith(op, x as int, y as int) {
                Some(v) => if fits_i64(v) {
                    Some(Ok(Primitive::Integer(v as i64)))
                } else {
                    Some(fails(arith_error(op), a, Some(b)))
                },
                None => Some(fails(arith_error(op), a, Some(b))),
            }
        },
        Some(Numbers::Reals(_, _)) => None,
        None => Some(fails(arith_error(op), a, Some(b))),
    }
}

/// What integer division of `a` by `b` evaluates to: defined on two
/// integers only, truncating.
pub open spec fn int_div_result<F>(a: Primitive<F>, b: Primitive<F>) -> Result<
    Primitive<F>,
    Error<F>,
> {
    match (a, b) {
        (Primitive::Integer(x), Primitive::Integer(y)) => if y != 0 && fits_i64(
            trunc_div(x as int, y as int),
        ) {
            Ok(Primitive::Integer(trunc_div(x as int, y as int) as i64))
        } else {
            fails(OperatorError::IntDiv, a, Some(b))
        },
        _ => fails(OperatorError::IntDiv, a, Some(b)),
    }
}

pub open spec fn int_compare(op: Comparison, x: int, y: int) -> bool {
    match op {
        Comparison::Equal => x == y,
        Comparison::NotEqual => x != y,
        Comparison::Greater => x > y,
        Comparison::GreaterThan => x >= y,
        Comparison::Less => x < y,
        _ => x <= y,
    }
}

/// Whether two values are of the same primitive case.
pub open spec fn same_case<F>(a: Primitive<F>, b: Primitive<F>) -> bool {
    ||| a is Integer && b is Integer
    ||| a is Float && b is Float
    ||| a is Str && b is Str
    ||| a is Boolean && b is Boolean
}

/// The ordering comparisons and the two (in)equalities.
pub open spec fn is_relational(op: Comparison) -> bool {
    op == Comparison::Equal || op == Comparison::NotEqual || op == Comparison::Greater || op
        == Comparison::GreaterThan || op == Comparison::Less || op == Comparison::LessThan
}

/// What `a op b` evaluates to for a relational `op` or `Is`. `None`: the
/// boolean that the float unit computes.
pub open spec fn compare_result<F>(op: Comparison, a: Primitive<F>, b: Primitive<F>) -> Option<
    Result<Primitive<F>, Error<F>>,
> {
    if op == Comparison::Is {
        Some(Ok(Primitive::Boolean(same_case(a, b))))
    } else {
        let equality = op == Comparison::Equal || op == Comparison::NotEqual;
        match numbers_of(a, b) {
            Some(Numbers::Integers(x, y)) => Some(
                Ok(Primitive::Boolean(int_compare(op, x as int, y as int))),
            ),
            Some(Numbers::Reals(_, _)) => None,
            None => match (a, b) {
                (Primitive::Boolean(x), Primitive::Boolean(y)) if equality => Some(
                    Ok(Primitive::Boolean((x == y) == (op == Comparison::Equal))),
                ),
                (Primitive::Str(x), Primitive::Str(y)) if equality => Some(
                    Ok(Primitive::Boolean((x@ == y@) == (op == Comparison::Equal))),
                ),
                _ => Some(fails(compare_error(op), a, Some(b))),
            },
        }
    }
}

/// What `a op b` evaluates to: defined on two booleans only.
pub open spec fn bool_result<F>(op: BooleanOperation, a: Primitive<F>, b: Primitive<F>) -> Result<
    Primitive<F>,
    Error<F>,
> {
    match (a, b) {
        (Primitive::Boolean(x), Primitive::Boolean(y)) => Ok(
            Primitive::Boolean(
                if op == BooleanOperation::And {
                    x && y
                } else {
                    x || y
                },
            ),
        ),
        _ => fails(
            if op == BooleanOperation::And {
                OperatorError::And
            } else {
                OperatorError::Or
            },
            a,
            Some(b),
        ),
    }
}

pub open spec fn unary_error(op: UnaryOperation) -> OperatorError {
    match op {
        UnaryOperation::Plus => OperatorError::UnaryPlus,
        UnaryOperation::Minus => OperatorError::UnarySub,
        UnaryOperation::Not => OperatorError::Negate,
    }
}

/// What `op a` evaluates to. `Not` is defined on booleans; `Minus` and
/// `Plus` both multiply a number by minus one. `None`: the real that the
/// float unit computes.
pub open spec fn unary_result<F>(op: UnaryOperation, a: Primitive<F>) -> Option<
    Result<Primitive<F>, Error<F>>,
> {
    match a {
        Primitive::Boolean(x) if op == UnaryOperation::Not => Some(Ok(Primitive::Boolean(!x))),
        Primitive::Integer(x) if op != UnaryOperation::Not => if x != i64::MIN {
            Some(Ok(Primitive::Integer((-x) as i64)))
        } else {
            Some(fails(unary_error(op), a, None))
        },
        Primitive::Float(_) if op != UnaryOperation::Not => None,
        _ => Some(fails(unary_error(op), a, None)),
    }
}

/// `r` is what `expected` says, or, where it leaves the result to the float
/// unit, a real (`real`) or a boolean (`!real`).
pub open spec fn settles<F>(
    expected: Option<Result<Primitive<F>, Error<F>>>,
    r: Result<Primitive<F>, Error<F>>,
    is_real: bool,
) -> bool {
    match expected {
        Some(v) => r == v,
        None => if is_real {
            r matches Ok(Primitive::Float(_))
        } else {
            r matches Ok(Primitive::Boolean(_))
        },
    }
}

/// Coercion does not depend on the side the integer stands on: an integer
/// `i` met with a real `f`, in either order, is read as two reals with `i`
/// widened, and every arithmetic operator and every relational comparison
/// then leaves the result to the float unit (a real for arithmetic, a
/// boolean for a comparison).
pub proof fn lemma_mixed_operands_widen<F>(i: i64, f: F)
    ensures
        numbers_of(Primitive::Integer(i), Primitive::Float(f)) == Some(
            Numbers::Reals(Real::Widened(i), Real::Value(f)),
        ),
        numbers_of(Primitive::Float(f), Primitive::Integer(i)) == Some(
            Numbers::Reals(Real::Value(f), Real::Widened(i)),
        ),
        forall|op: Operator|
            #![auto]
            arith_result(op, Primitive::Integer(i), Primitive::Float(f)) is None && arith_result(
                op,
                Primitive::Float(f),
                Primitive::Integer(i),
            ) is None,
        forall|op: Comparison|
            #![auto]
            is_relational(op) ==> compare_result(op, Primitive::Integer(i), Primitive::Float(f)) is None
                && compare_result(op, Primitive::Float(f), Primitive::Integer(i)) is None,
{
}

/// Real division of two integers is never integer arithmetic: both are
/// widened and the float unit's real is the result.
pub proof fn lemma_real_division_of_integers<F>(x: i64, y: i64)
    ensures
        numbers_of(Primitive::<F>::Integer(x), Primitive::Integer(y)) == Some(
            Numbers::<F>::Integers(x, y),
        ),
        arith_result(Operator::Div, Primitive::<F>::Integer(x), Primitive::Integer(y)) is None,
{
}

/// The identity test compares the primitive cases of its operands and never
/// their values: two integers are identical whatever their values, and an
/// integer is never identical to a real, even of the same value.
pub proof fn lemma_identity_is_case_equality<F>(a: Primitive<F>, b: Primitive<F>, x: i64, y: i64, f: F)
    ensures
        compare_result(Comparison::Is, a, b) == Some(
            Ok::<Primitive<F>, Error<F>>(Primitive::Boolean(same_case(a, b))),
        ),
        compare_result(Comparison::Is, Primitive::<F>::Integer(x), Primitive::Integer(y)) == Some(
            Ok::<Primitive<F>, Error<F>>(Primitive::Boolean(true)),
        ),
        compare_result(Comparison::Is, Primitive::Integer(x), Primitive::Float(f)) == Some(
            Ok::<Primitive<F>, Error<F>>(Primitive::Boolean(false)),
        ),
{
}

/// A computation on reals that the float unit is asked to do.
#[derive(Debug, Clone, Copy, PartialEq)]
pub enum FloatRequest<F> {
    /// `a op b`.
    Arith(Operator, Real<F>, Real<F>),
    /// `a op b` for a relational `op`.
    Compare(Comparison, Real<F>, Real<F>),
    /// `-a`.
    Negative(Real<F>),
}

/// What `a op b` asks of the float unit: the coerced operands, in their
/// order, under the same operator; two integers only for real division.
pub open spec fn arith_request<F>(op: Operator, a: Primitive<F>, b: Primitive<F>) -> Option<
    FloatRequest<F>,
> {
    match numbers_of(a, b) {
        Some(Numbers::Reals(x, y)) => Some(FloatRequest::Arith(op, x, y)),
        Some(Numbers::Integers(x, y)) => if op == Operator::Div {
            Some(FloatRequest::Arith(op, Real::Widened(x), Real::Widened(y)))
        } else {
            None
        },
        None => None,
    }
}

/// What the relational comparison `a op b` asks of the float unit.
pub open spec fn compare_request<F>(op: Comparison, a: Primitive<F>, b: Primitive<F>) -> Option<
    FloatRequest<F>,
> {
    match numbers_of(a, b) {
        Some(Numbers::Reals(x, y)) => if is_relational(op) {
            Some(FloatRequest::Compare(op, x, y))
        } else {
            None
        },
        _ => None,
    }
}

/// What `op a` asks of the float unit: minus negates a real, plus
/// multiplies minus one by it.
pub open spec fn unary_request<F>(op: UnaryOperation, a: Primitive<F>) -> Option<FloatRequest<F>> {
    match a {
        Primitive::Float(v) => if op == UnaryOperation::Minus {
            Some(FloatRequest::Negative(Real::Value(v)))
        } else if op == UnaryOperation::Plus {
            Some(FloatRequest::Arith(Operator::Mul, Real::Widened(-1i64), Real::Value(v)))
        } else {
            None
        },
        _ => None,
    }
}

/// The float unit is asked exactly where the library's own result leaves
/// off.
pub proof fn lemma_requests_cover<F>(
    a: Primitive<F>,
    b: Primitive<F>,
    op: Operator,
    cmp: Comparison,
    un: UnaryOperation,
)
    ensures
        arith_result(op, a, b) is None <==> arith_request(op, a, b) is Some,
        is_relational(cmp) ==> (compare_result(cmp, a, b) is None <==> compare_request(cmp, a, b) is Some),
        unary_result(un, a) is None <==> unary_request(un, a) is Some,
{
}

fn real_value<F: Copy, U: FloatUnit<F>>(r: Real<F>, unit: &U) -> F {
    match r {
        Real::Widened(v) => unit.widen(v),
        Real::Value(v) => v,
    }
}

/// Hands `req` to the float unit: a comparison gives a boolean, anything
/// else a real.
pub fn perform<F: Copy, U: FloatUnit<F>>(req: FloatRequest<F>, unit: &U) -> (r: Primitive<F>)
    ensures
        req is Compare ==> r is Boolean,
        !(req is Compare) ==> r is Float,
{
    match req {
        FloatRequest::Arith(op, a, b) => {
            let a = real_value(a, unit);
            let b = real_value(b, unit);
            Primitive::Float(unit.arith(op, a, b))
        },
        FloatRequest::Compare(op, a, b) => {
            let a = real_value(a, unit);
            let b = real_value(b, unit);
            Primitive::Boolean(unit.compare(op, a, b))
        },
        FloatRequest::Negative(a) => Primitive::Float(unit.negative(real_value(a, unit))),
    }
}

fn trunc_div_rem(x: i64, y: i64) -> (r: (i128, i128))
    requires
        y != 0,
    ensures
        r.0 == trunc_div(x as int, y as int),
        r.1 == trunc_rem(x as int, y as int),
{
    let ax: i128 = if x < 0 {
        -(x as i128)
    } else {
        x as i128
    };
    let ay: i128 = if y < 0 {
        -(y as i128)
    } else {
        y as i128
    };
    let q: i128 = ax / ay;
    assert(0 <= q <= ax) by (nonlinear_arith)
        requires
            ax >= 0,
            ay >= 1,
            q == ax / ay,
    ;
    let sq: i128 = if (x < 0) != (y < 0) {
        -q
    } else {
        q
    };
    assert(-0x4000_0000_0000_0000_0000_0000_0000_0000 <= y * sq <= 0x4000_0000_0000_0000_0000_0000_0000_0000) by (nonlinear_arith)
        requires
            -0x8000_0000_0000_0000 <= y <= 0x8000_0000_0000_0000,
            -0x8000_0000_0000_0000 <= sq <= 0x8000_0000_0000_0000,
    ;
    (sq, x as i128 - (y as i128) * sq)
}

impl<F: Copy> Primitive<F> {
    /// A copy of the value.
    pub fn copy(&self) -> (r: Self)
        ensures
            r == *self,
    {
        match self {
            Primitive::Integer(v) => Primitive::Integer(*v),
            Primitive::Float(v) => Primitive::Float(*v),
            Primitive::Str(s) => Primitive::Str(s.clone()),
            Primitive::Boolean(b) => Primitive::Boolean(*b),
        }
    }

    fn error(&self, right: Option<&Self>, op: OperatorError) -> (r: Result<Self, Error<F>>)
        ensures
            r == fails(op, *self, match right {
                Some(b) => Some(*b),
                None => None,
            }),
    {
        let b = match right {
            Some(b) => Some(b.copy()),
            None => None,
        };
        Err(Error::InvalidOperation(op, self.copy(), b))
    }

    /// The coercion rule of the binary numeric operators, as a value.
    pub fn numbers(&self, other: &Self) -> (r: Option<Numbers<F>>)
        ensures
            r == numbers_of(*self, *other),
    {
        match (self, other) {
            (Primitive::Integer(x), Primitive::Integer(y)) => Some(Numbers::Integers(*x, *y)),
            (Primitive::Integer(x), Primitive::Float(y)) => Some(
                Numbers::Reals(Real::Widened(*x), Real::Value(*y)),
            ),
            (Primitive::Float(x), Primitive::Integer(y)) => Some(
                Numbers::Reals(Real::Value(*x), Real::Widened(*y)),
            ),
            (Primitive::Float(x), Primitive::Float(y)) => Some(
                Numbers::Reals(Real::Value(*x), Real::Value(*y)),
            ),
            _ => None,
        }
    }

    /// What `self op other` asks of the float unit, if anything.
    pub fn arith_request(&self, other: &Self, op: Operator) -> (r: Option<FloatRequest<F>>)
        ensures
            r == arith_request(op, *self, *other),
    {
        match self.numbers(other) {
            Some(Numbers::Reals(x, y)) => Some(FloatRequest::Arith(op, x, y)),
            Some(Numbers::Integers(x, y)) => match op {
                Operator::Div => Some(FloatRequest::Arith(op, Real::Widened(x), Real::Widened(y))),
                _ => None,
            },
            None => None,
        }
    }

    /// What the relational comparison `self op other` asks of the float
    /// unit, if anything.
    pub fn compare_request(&self, other: &Self, op: Comparison) -> (r: Option<FloatRequest<F>>)
        ensures
            r == compare_request(op, *self, *other),
    {
        let relational = match op {
            Comparison::Equal | Comparison::NotEqual | Comparison::Greater | Comparison::GreaterThan
            | Comparison::Less | Comparison::LessThan => true,
            _ => false,
        };
        match self.numbers(other) {
            Some(Numbers::Reals(x, y)) => if relational {
                Some(FloatRequest::Compare(op, x, y))
            } else {
                None
            },
            _ => None,
        }
    }

    /// What `op self` asks of the float unit, if anything.
    pub fn unary_request(&self, op: UnaryOperation) -> (r: Option<FloatRequest<F>>)
        ensures
            r == unary_request(op, *self),
    {
        match self {
            Primitive::Float(v) => match op {
                UnaryOperation::Minus => Some(FloatRequest::Negative(Real::Value(*v))),
                UnaryOperation::Plus => Some(
                    FloatRequest::Arith(Operator::Mul, Real::Widened(-1), Real::Value(*v)),
                ),
                UnaryOperation::Not => None,
            },
            _ => None,
        }
    }

    fn arithmetic<U: FloatUnit<F>>(&self, other: &Self, op: Operator, unit: &U) -> (r: Result<
        Self,
        Error<F>,
    >)
        ensures
            settles(arith_result(op, *self, *other), r, true),
    {
        let err = match op {
            Operator::Add => OperatorError::Add,
            Operator::Sub => OperatorError::Sub,
            Operator::Mul => OperatorError::Mul,
            Operator::Div => OperatorError::RealDiv,
            Operator::Mod => OperatorError::Module,
        };
        if let Some(req) = self.arith_request(other, op) {
            return Ok(perform(req, unit));
        }
        match self.numbers(other) {
            Some(Numbers::Integers(x, y)) => {
                let v: i128 = match op {
                    Operator::Add => x as i128 + y as i128,
                    Operator::Sub => x as i128 - y as i128,
                    Operator::Mul => {
                        assert(-0x4000_0000_0000_0000_0000_0000_0000_0000 <= x * y
                            <= 0x4000_0000_0000_0000_0000_0000_0000_0000) by (nonlinear_arith)
                            requires
                                -0x8000_0000_0000_0000 <= x < 0x8000_0000_0000_0000,
                                -0x8000_0000_0000_0000 <= y < 0x8000_0000_0000_0000,
                        ;
                        x as i128 * y as i128
                    },
                    Operator::Mod => {
                        if y == 0 {
                            return self.error(Some(other), err);
                        }
                        trunc_div_rem(x, y).1
                    },
                    Operator::Div => {
                        return self.error(Some(other), err);
                    },
                };
                if i64::MIN as i128 <= v && v <= i64::MAX as i128 {
                    Ok(Primitive::Integer(v as i64))
                } else {
                    self.error(Some(other), err)
                }
            },
            _ => self.error(Some(other), err),
        }
    }

    /// `self + other`.
    pub fn add<U: FloatUnit<F>>(&self, other: &Self, unit: &U) -> (r: Result<Self, Error<F>>)
        ensures
            settles(arith_result(Operator::Add, *self, *other), r, true),
    {
        self.arithmetic(other, Operator::Add, unit)
    }

    /// `self - other`.
    pub fn sub<U: FloatUnit<F>>(&self, other: &Self, unit: &U) -> (r: Result<Self, Error<F>>)
        ensures
            settles(arith_result(Operator::Sub, *self, *other), r, true),
    {
        self.arithmetic(other, Operator::Sub, unit)
    }

    /// `self * other`.
    pub fn mul<U: FloatUnit<F>>(&self, other: &Self, unit: &U) -> (r: Result<Self, Error<F>>)
        ensures
            settles(arith_result(Operator::Mul, *self, *other), r, true),
    {
        self.arithmetic(other, Operator::Mul, unit)
    }

    /// Real division: a real for any two numbers, integers included.
    pub fn real_div<U: FloatUnit<F>>(&self, other: &Self, unit: &U) -> (r: Result<Self, Error<F>>)
        ensures
            settles(arith_result(Operator::Div, *self, *other), r, true),
    {
        self.arithmetic(other, Operator::Div, unit)
    }

    /// Remainder: an integer for two integers, a real otherwise.
    pub fn module<U: FloatUnit<F>>(&self, other: &Self, unit: &U) -> (r: Result<Self, Error<F>>)
        ensures
            settles(arith_result(Operator::Mod, *self, *other), r, true),
    {
        self.arithmetic(other, Operator::Mod, unit)
    }

    /// Integer division, truncating; defined on two integers only.
    pub fn int_div(&self, other: &Self) -> (r: Result<Self, Error<F>>)
        ensures
            r == int_div_result(*self, *other),
    {
        match (self, other) {
            (Primitive::Integer(x), Primitive::Integer(y)) => {
                if *y == 0 {
                    return self.error(Some(other), OperatorError::IntDiv);
                }
                let q = trunc_div_rem(*x, *y).0;
                if i64::MIN as i128 <= q && q <= i64::MAX as i128 {
                    Ok(Primitive::Integer(q as i64))
                } else {
                    self.error(Some(other), OperatorError::IntDiv)
                }
            },
            _ => self.error(Some(other), OperatorError::IntDiv),
        }
    }
    fn comparison<U: FloatUnit<F>>(&self, other: &Self, op: Comparison, unit: &U) -> (r: Result<
        Self,
        Error<F>,
    >)
        requires
            is_relational(op),
        ensures
            settles(compare_result(op, *self, *other), r, false),
    {
        let err = match op {
            Comparison::Equal => OperatorError::Equal,
            Comparison::NotEqual => OperatorError::NotEqual,
            Comparison::Greater => OperatorError::GreaterThan,
            Comparison::GreaterThan => OperatorError::GreaterThanEqual,
            Comparison::Less => OperatorError::LessThan,
            _ => OperatorError::LessThanEqual,
        };
        let equality = match op {
            Comparison::Equal | Comparison::NotEqual => true,
            _ => false,
        };
        let wanted = match op {
            Comparison::Equal => true,
            _ => false,
        };
        if let Some(req) = self.compare_request(other, op) {
            return Ok(perform(req, unit));
        }
        match self.numbers(other) {
            Some(Numbers::Integers(x, y)) => {
                let b = match op {
                    Comparison::Equal => x == y,
                    Comparison::NotEqual => x != y,
                    Comparison::Greater => x > y,
                    Comparison::GreaterThan => x >= y,
                    Comparison::Less => x < y,
                    _ => x <= y,
                };
                Ok(Primitive::Boolean(b))
            },
            _ => match (self, other) {
                (Primitive::Boolean(x), Primitive::Boolean(y)) if equality => Ok(
                    Primitive::Boolean((*x == *y) == wanted),
                ),
                (Primitive::Str(x), Primitive::Str(y)) if equality => {
                    let same = x.eq(y);
                    Ok(Primitive::Boolean(same == wanted))
                },
                _ => self.error(Some(other), err),
            },
        }
    }

    /// Value equality, with an integer widened when met with a real.
    pub fn eq<U: FloatUnit<F>>(&self, other: &Self, unit: &U) -> (r: Result<Self, Error<F>>)
        ensures
            settles(compare_result(Comparison::Equal, *self, *other), r, false),
    {
        self.comparison(other, Comparison::Equal, unit)
    }

    /// Value inequality, with an integer widened when met with a real.
    pub fn not_eq<U: FloatUnit<F>>(&self, other: &Self, unit: &U) -> (r: Result<Self, Error<F>>)
        ensures
            settles(compare_result(Comparison::NotEqual, *self, *other), r, false),
    {
        self.comparison(other, Comparison::NotEqual, unit)
    }

    /// `self < other` on numbers.
    pub fn less_than<U: FloatUnit<F>>(&self, other: &Self, unit: &U) -> (r: Result<Self, Error<F>>)
        ensures
            settles(compare_result(Comparison::Less, *self, *other), r, false),
    {
        self.comparison(other, Comparison::Less, unit)
    }

    /// `self <= other` on numbers.
    pub fn less_than_equal<U: FloatUnit<F>>(&self, other: &Self, unit: &U) -> (r: Result<
        Self,
        Error<F>,
    >)
        ensures
            settles(compare_result(Comparison::LessThan, *self, *other), r, false),
    {
        self.comparison(other, Comparison::LessThan, unit)
    }

    /// `self > other` on numbers.
    pub fn greater_than<U: FloatUnit<F>>(&self, other: &Self, unit: &U) -> (r: Result<
        Self,
        Error<F>,
    >)
        ensures
            settles(compare_result(Comparison::Greater, *self, *other), r, false),
    {
        self.comparison(other, Comparison::Greater, unit)
    }

    /// `self >= other` on numbers.
    pub fn greater_than_equal<U: FloatUnit<F>>(&self, other: &Self, unit: &U) -> (r: Result<
        Self,
        Error<F>,
    >)
        ensures
            settles(compare_result(Comparison::GreaterThan, *self, *other), r, false),
    {
        self.comparison(other, Comparison::GreaterThan, unit)
    }

    /// Identity test: whether both values are of the same primitive case,
    /// whatever their values.
    pub fn is(&self, other: &Self) -> (r: Result<Self, Error<F>>)
        ensures
            r == compare_result(Comparison::Is, *self, *other)->0,
            r == Ok::<Self, Error<F>>(Primitive::Boolean(same_case(*self, *other))),
    {
        let same = match (self, other) {
            (Primitive::Integer(_), Primitive::Integer(_)) => true,
            (Primitive::Float(_), Primitive::Float(_)) => true,
            (Primitive::Str(_), Primitive::Str(_)) => true,
            (Primitive::Boolean(_), Primitive::Boolean(_)) => true,
            _ => false,
        };
        Ok(Primitive::Boolean(same))
    }

    /// Boolean conjunction; both operands must be booleans.
    pub fn and(&self, other: &Self) -> (r: Result<Self, Error<F>>)
        ensures
            r == bool_result(BooleanOperation::And, *self, *other),
    {
        match (self, other) {
            (Primitive::Boolean(x), Primitive::Boolean(y)) => Ok(Primitive::Boolean(*x && *y)),
            _ => self.error(Some(other), OperatorError::And),
        }
    }

    /// Boolean disjunction; both operands must be booleans.
    pub fn or(&self, other: &Self) -> (r: Result<Self, Error<F>>)
        ensures
            r == bool_result(BooleanOperation::Or, *self, *other),
    {
        match (self, other) {
            (Primitive::Boolean(x), Primitive::Boolean(y)) => Ok(Primitive::Boolean(*x || *y)),
            _ => self.error(Some(other), OperatorError::Or),
        }
    }

    /// Boolean negation.
    pub fn negate(&self) -> (r: Result<Self, Error<F>>)
        ensures
            unary_result(UnaryOperation::Not, *self) == Some(r),
    {
        match self {
            Primitive::Boolean(b) => Ok(Primitive::Boolean(!*b)),
            _ => self.error(None, OperatorError::Negate),
        }
    }

    fn sign_flip<U: FloatUnit<F>>(&self, op: UnaryOperation, unit: &U) -> (r: Result<Self, Error<F>>)
        requires
            op != UnaryOperation::Not,
        ensures
            settles(unary_result(op, *self), r, true),
    {
        let err = match op {
            UnaryOperation::Plus => OperatorError::UnaryPlus,
            _ => OperatorError::UnarySub,
        };
        match self {
            Primitive::Integer(v) => {
                if *v == i64::MIN {
                    self.error(None, err)
                } else {
                    Ok(Primitive::Integer(-*v))
                }
            },
            _ => match self.unary_request(op) {
                Some(req) => Ok(perform(req, unit)),
                None => self.error(None, err),
            },
        }
    }

    /// Unary minus: the number with its sign changed.
    pub fn minus<U: FloatUnit<F>>(&self, unit: &U) -> (r: Result<Self, Error<F>>)
        ensures
            settles(unary_result(UnaryOperation::Minus, *self), r, true),
    {
        self.sign_flip(UnaryOperation::Minus, unit)
    }

    /// Unary plus: the number multiplied by minus one, the same result as
    /// unary minus.
    pub fn plus<U: FloatUnit<F>>(&self, unit: &U) -> (r: Result<Self, Error<F>>)
        ensures
            settles(unary_result(UnaryOperation::Plus, *self), r, true),
    {
        self.sign_flip(UnaryOperation::Plus, unit)
    }
}

} // verus!

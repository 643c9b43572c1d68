use vstd::prelude::*;

use crate::ast::{
    BooleanOperation, Comparison, Expression, Number, Operator, Program, Statement, UnaryOperation,
};
use crate::error::{Error, OperatorError};
use crate::object::{
    arith_object, bool_object, compare_object, settles_object, unary_object, Object,
};
use crate::primitive::{is_relational, FloatUnit, Primitive};

verus! {

/// `r` is the error for a construct without an evaluation rule, with the
/// message `msg`.
pub open spec fn unsupported<F>(r: Result<Object<F>, Error<F>>, msg: Seq<char>) -> bool {
    r matches Err(Error::OtherError(m)) && m@ == msg
}

/// What is known of a value: all of it, or, where the float unit made it,
/// that it is a real or a boolean.
pub enum Known<F> {
    Exact(Object<F>),
    AnyReal,
    AnyBool,
}

/// What evaluating a piece of the tree comes to.
pub enum Outcome<F> {
    Value(Known<F>),
    /// This error.
    Fault(Error<F>),
    /// An operator error with this tag, whose operands hold a real that the
    /// float unit made.
    FaultAt(OperatorError),
    /// The error for a construct without an evaluation rule, with this
    /// message.
    Unsupported(Seq<char>),
    /// One of two outcomes: those of a conditional's two branches, where the
    /// float unit decided the condition.
    Either(Box<Outcome<F>>, Box<Outcome<F>>),
}

/// `v` is a value that `k` describes.
pub open spec fn fits<F>(k: Known<F>, v: Object<F>) -> bool {
    match k {
        Known::Exact(o) => v == o,
        Known::AnyReal => v matches Object::Primitive(Primitive::Float(_)),
        Known::AnyBool => v matches Object::Primitive(Primitive::Boolean(_)),
    }
}

/// One value that `k` describes.
pub open spec fn sample<F>(k: Known<F>) -> Object<F> {
    match k {
        Known::Exact(o) => o,
        Known::AnyReal => Object::Primitive(Primitive::Float(vstd::pervasive::arbitrary())),
        Known::AnyBool => Object::Primitive(Primitive::Boolean(vstd::pervasive::arbitrary())),
    }
}

pub open spec fn error_tag<F>(e: Error<F>) -> Option<OperatorError> {
    match e {
        Error::InvalidOperation(t, _, _) => Some(t),
        Error::InvalidType(t, _, _) => Some(t),
        Error::OtherError(_) => None,
    }
}

/// What an operator's outcome `res` on sample operands tells of the
/// outcome on the operands described: all of it where both are exact;
/// otherwise the kind of the value, or the operator of the error. `is_real`:
/// the float unit's result is a real, else a boolean; `case_only`: the
/// operator looks at the cases of its operands only.
pub open spec fn lift<F>(
    res: Option<Result<Object<F>, Error<F>>>,
    exact: bool,
    is_real: bool,
    case_only: bool,
) -> Outcome<F> {
    match res {
        None => Outcome::Value(
            if is_real {
                Known::AnyReal
            } else {
                Known::AnyBool
            },
        ),
        Some(Ok(v)) => if exact || case_only {
            Outcome::Value(Known::Exact(v))
        } else {
            match v {
                Object::Primitive(Primitive::Boolean(_)) => Outcome::Value(Known::AnyBool),
                Object::Primitive(Primitive::Float(_)) => Outcome::Value(Known::AnyReal),
                _ => Outcome::Value(Known::Exact(v)),
            }
        },
        Some(Err(e)) => if exact {
            Outcome::Fault(e)
        } else {
            match error_tag(e) {
                Some(t) => Outcome::FaultAt(t),
                None => Outcome::Fault(e),
            }
        },
    }
}

/// A binary operator of the tree.
pub enum BinKind {
    Arith(Operator),
    Compare(Comparison),
    Bool(BooleanOperation),
}

/// The outcome of the binary operator `kind` on operands described by `x`
/// and `y`.
pub open spec fn apply<F>(kind: BinKind, x: Known<F>, y: Known<F>) -> Outcome<F> {
    let exact = x is Exact && y is Exact;
    match kind {
        BinKind::Arith(op) => lift(arith_object(op, sample(x), sample(y)), exact, true, false),
        BinKind::Compare(op) => if is_relational(op) || op == Comparison::Is {
            lift(compare_object(op, sample(x), sample(y)), exact, false, op == Comparison::Is)
        } else {
            Outcome::Unsupported("comparison not implemented yet"@)
        },
        BinKind::Bool(op) => lift(bool_object(op, sample(x), sample(y)), exact, false, false),
    }
}

/// `o`, the right operand's outcome, continued with the operator `kind`
/// after a left operand described by `x`.
pub open spec fn then_right<F>(o: Outcome<F>, kind: BinKind, x: Known<F>) -> Outcome<F>
    decreases o,
{
    match o {
        Outcome::Value(y) => apply(kind, x, y),
        Outcome::Either(a, b) => Outcome::Either(
            Box::new(then_right(*a, kind, x)),
            Box::new(then_right(*b, kind, x)),
        ),
        other => other,
    }
}

/// What follows a value in evaluation.
pub enum Then<F> {
    /// A conditional's branches, after its condition.
    Branch(Box<Outcome<F>>, Box<Outcome<F>>),
    /// A prefix operator, after its operand.
    Unary(UnaryOperation),
    /// The right operand's outcome and the operator, after the left operand.
    Left(BinKind, Box<Outcome<F>>),
    /// The next statement's outcome, after a statement.
    Next(Box<Outcome<F>>),
}

/// The branch that a condition described by `k` selects: both, where the
/// float unit decided it.
pub open spec fn branch<F>(k: Known<F>, body: Outcome<F>, orelse: Outcome<F>) -> Outcome<F> {
    match k {
        Known::Exact(Object::Primitive(Primitive::Boolean(c))) => if c {
            body
        } else {
            orelse
        },
        Known::AnyBool => Outcome::Either(Box::new(body), Box::new(orelse)),
        _ => Outcome::Unsupported("should be true or false"@),
    }
}

/// What `c` makes of a value described by `k`.
pub open spec fn step<F>(c: Then<F>, k: Known<F>) -> Outcome<F> {
    match c {
        Then::Branch(body, orelse) => branch(k, *body, *orelse),
        Then::Unary(op) => lift(unary_object(op, sample(k)), k is Exact, true, false),
        Then::Left(kind, right) => then_right(*right, kind, k),
        Then::Next(next) => *next,
    }
}

/// `o` continued with `c` on each value it may come to; an error stays.
pub open spec fn then_map<F>(o: Outcome<F>, c: Then<F>) -> Outcome<F>
    decreases o,
{
    match o {
        Outcome::Value(k) => step(c, k),
        Outcome::Either(a, b) => Outcome::Either(
            Box::new(then_map(*a, c)),
            Box::new(then_map(*b, c)),
        ),
        other => other,
    }
}

/// Strict evaluation of an expression: operands before operators, left
/// before right, with no short circuit; the first error decides.
pub open spec fn eval_expr<F>(e: Expression) -> Outcome<F>
    decreases e,
{
    match e {
        Expression::IfExpression { test, body, orelse } => then_map(
            eval_expr::<F>(*test),
            Then::Branch(Box::new(eval_expr::<F>(*body)), Box::new(eval_expr::<F>(*orelse))),
        ),
        Expression::BinOp { a, op, b } => then_map(
            eval_expr::<F>(*a),
            Then::Left(BinKind::Arith(op), Box::new(eval_expr::<F>(*b))),
        ),
        Expression::Compare { a, op, b } => then_map(
            eval_expr::<F>(*a),
            Then::Left(BinKind::Compare(op), Box::new(eval_expr::<F>(*b))),
        ),
        Expression::BoolOp { a, op, b } => then_map(
            eval_expr::<F>(*a),
            Then::Left(BinKind::Bool(op), Box::new(eval_expr::<F>(*b))),
        ),
        Expression::UnOp { op, a } => then_map(eval_expr::<F>(*a), Then::Unary(op)),
        Expression::Str { value } => Outcome::Value(
            Known::Exact(Object::Primitive(Primitive::Str(value))),
        ),
        Expression::Num { value: Number::Integer { value } } => Outcome::Value(
            Known::Exact(Object::Primitive(Primitive::Integer(value))),
        ),
        Expression::Num { value: Number::Float { .. } } => Outcome::Value(Known::AnyReal),
        Expression::True => Outcome::Value(
            Known::Exact(Object::Primitive(Primitive::Boolean(true))),
        ),
        Expression::False => Outcome::Value(
            Known::Exact(Object::Primitive(Primitive::Boolean(false))),
        ),
        Expression::Nothing => Outcome::Value(Known::Exact(Object::Unit)),
        _ => Outcome::Unsupported("expression not implemented yet"@),
    }
}

/// Only an expression statement has an evaluation rule.
pub open spec fn eval_statement<F>(s: Statement) -> Outcome<F> {
    match s {
        Statement::Expr { expression } => eval_expr(expression),
        _ => Outcome::Unsupported("statement not implemented yet"@),
    }
}

/// `r` is a result that the outcome `o` describes.
pub open spec fn agrees<F>(o: Outcome<F>, r: Result<Object<F>, Error<F>>) -> bool
    decreases o,
{
    match o {
        Outcome::Value(k) => r matches Ok(v) && fits(k, v),
        Outcome::Fault(e) => r == Err::<Object<F>, Error<F>>(e),
        Outcome::FaultAt(t) => r matches Err(e) && error_tag(e) == Some(t),
        Outcome::Unsupported(m) => unsupported(r, m),
        Outcome::Either(a, b) => agrees(*a, r) || agrees(*b, r),
    }
}

/// The statements from `i` on, in order, after what came before comes to
/// `so_far`: each value is followed by the next statement, and the first
/// error decides.
pub open spec fn run_from<F>(ss: Seq<Statement>, i: int, so_far: Outcome<F>) -> Outcome<F>
    decreases ss.len() - i,
{
    if i < 0 || i >= ss.len() {
        so_far
    } else {
        run_from(ss, i + 1, then_map(so_far, Then::Next(Box::new(eval_statement::<F>(ss[i])))))
    }
}

/// A program's value: that of its last statement, the no-value marker for
/// none.
pub open spec fn eval_program<F>(ss: Seq<Statement>) -> Outcome<F> {
    run_from(ss, 0, Outcome::Value(Known::Exact(Object::Unit)))
}

/// Where `o` may come to the value `v`, and `c` on every description of
/// `v` may give `r`, `o` continued with `c` may give `r`.
proof fn lemma_then_value<F>(o: Outcome<F>, c: Then<F>, v: Object<F>, r: Result<Object<F>, Error<F>>)
    requires
        agrees(o, Ok(v)),
        forall|k: Known<F>| fits(k, v) ==> agrees(#[trigger] step(c, k), r),
    ensures
        agrees(then_map(o, c), r),
    decreases o,
{
    if let Outcome::Either(a, b) = o {
        if agrees(*a, Ok(v)) {
            lemma_then_value(*a, c, v, r);
        } else {
            lemma_then_value(*b, c, v, r);
        }
    }
}

/// An error that `o` may give stays one that `o` continued may give.
proof fn lemma_then_error<F>(o: Outcome<F>, c: Then<F>, e: Error<F>)
    requires
        agrees(o, Err(e)),
    ensures
        agrees(then_map(o, c), Err(e)),
    decreases o,
{
    if let Outcome::Either(a, b) = o {
        if agrees(*a, Err(e)) {
            lemma_then_error(*a, c, e);
        } else {
            lemma_then_error(*b, c, e);
        }
    }
}

proof fn lemma_right_value<F>(
    o: Outcome<F>,
    kind: BinKind,
    x: Known<F>,
    v: Object<F>,
    r: Result<Object<F>, Error<F>>,
)
    requires
        agrees(o, Ok(v)),
        forall|k: Known<F>| fits(k, v) ==> agrees(#[trigger] apply(kind, x, k), r),
    ensures
        agrees(then_right(o, kind, x), r),
    decreases o,
{
    if let Outcome::Either(a, b) = o {
        if agrees(*a, Ok(v)) {
            lemma_right_value(*a, kind, x, v, r);
        } else {
            lemma_right_value(*b, kind, x, v, r);
        }
    }
}

proof fn lemma_right_error<F>(o: Outcome<F>, kind: BinKind, x: Known<F>, e: Error<F>)
    requires
        agrees(o, Err(e)),
    ensures
        agrees(then_right(o, kind, x), Err(e)),
    decreases o,
{
    if let Outcome::Either(a, b) = o {
        if agrees(*a, Err(e)) {
            lemma_right_error(*a, kind, x, e);
        } else {
            lemma_right_error(*b, kind, x, e);
        }
    }
}

proof fn lemma_run_error<F>(ss: Seq<Statement>, i: int, o: Outcome<F>, e: Error<F>)
    requires
        agrees(o, Err(e)),
    ensures
        agrees(run_from(ss, i, o), Err(e)),
    decreases ss.len() - i,
{
    if 0 <= i < ss.len() {
        let c = Then::Next(Box::new(eval_statement::<F>(ss[i])));
        lemma_then_error(o, c, e);
        lemma_run_error(ss, i + 1, then_map(o, c), e);
    }
}

proof fn lemma_run_stays<F>(ss: Seq<Statement>, i: int, o: Outcome<F>)
    requires
        o is Unsupported,
    ensures
        run_from(ss, i, o) == o,
    decreases ss.len() - i,
{
    if 0 <= i < ss.len() {
        lemma_run_stays(ss, i + 1, then_map(o, Then::Next(Box::new(eval_statement::<F>(ss[i])))));
    }
}

/// A program that starts with a statement other than an expression fails
/// with the error for a statement without an evaluation rule: an assignment
/// is parsed, but evaluating it neither succeeds nor is skipped.
pub proof fn lemma_statement_without_rule<F>(ss: Seq<Statement>, r: Result<Object<F>, Error<F>>)
    requires
        ss.len() > 0,
        !(ss[0] is Expr),
        agrees(eval_program(ss), r),
    ensures
        unsupported(r, "statement not implemented yet"@),
{
    let first = then_map(
        Outcome::Value(Known::Exact(Object::Unit)),
        Then::Next(Box::new(eval_statement::<F>(ss[0]))),
    );
    lemma_run_stays(ss, 1, first);
}

fn other_error<F>(msg: &str) -> (r: Error<F>)
    ensures
        r matches Error::OtherError(m) && m@ == msg@,
{
    Error::OtherError(msg.to_owned())
}

proof fn lemma_arith_lifts<F>(
    op: Operator,
    x: Known<F>,
    y: Known<F>,
    vx: Object<F>,
    vy: Object<F>,
    r: Result<Object<F>, Error<F>>,
)
    requires
        fits(x, vx),
        fits(y, vy),
        settles_object(arith_object(op, vx, vy), r, true),
    ensures
        agrees(lift(arith_object(op, sample(x), sample(y)), x is Exact && y is Exact, true, false), r),
{
}

proof fn lemma_compare_lifts<F>(
    op: Comparison,
    x: Known<F>,
    y: Known<F>,
    vx: Object<F>,
    vy: Object<F>,
    r: Result<Object<F>, Error<F>>,
)
    requires
        is_relational(op) || op == Comparison::Is,
        fits(x, vx),
        fits(y, vy),
        settles_object(compare_object(op, vx, vy), r, false),
    ensures
        agrees(
            lift(compare_object(op, sample(x), sample(y)), x is Exact && y is Exact, false, op == Comparison::Is),
            r,
        ),
{
}

proof fn lemma_bool_lifts<F>(
    op: BooleanOperation,
    x: Known<F>,
    y: Known<F>,
    vx: Object<F>,
    vy: Object<F>,
    r: Result<Object<F>, Error<F>>,
)
    requires
        fits(x, vx),
        fits(y, vy),
        settles_object(bool_object(op, vx, vy), r, false),
    ensures
        agrees(lift(bool_object(op, sample(x), sample(y)), x is Exact && y is Exact, false, false), r),
{
}

proof fn lemma_unary_lifts<F>(op: UnaryOperation, x: Known<F>, vx: Object<F>, r: Result<Object<F>, Error<F>>)
    requires
        fits(x, vx),
        settles_object(unary_object(op, vx), r, true),
    ensures
        agrees(lift(unary_object(op, sample(x)), x is Exact, true, false), r),
{
}

/// Walks a program's tree to its value.
#[derive(Debug, PartialEq)]
pub struct Interpreter;

impl Interpreter {
    pub fn init() -> Self {
        Interpreter
    }

    /// The value of the program: that of its last statement.
    pub fn eval<F: Copy, U: FloatUnit<F>>(&self, program: Program, unit: &U) -> (r: Result<
        Object<F>,
        Error<F>,
    >)
        ensures
            agrees(eval_program(program.statements@), r),
    {
        self.visit_program(&program, unit)
    }

    fn visit_program<F: Copy, U: FloatUnit<F>>(&self, program: &Program, unit: &U) -> (r: Result<
        Object<F>,
        Error<F>,
    >)
        ensures
            agrees(eval_program(program.statements@), r),
    {
        let ghost ss = program.statements@;
        let ghost mut so_far: Outcome<F> = Outcome::Value(Known::Exact(Object::Unit));
        let mut obj: Object<F> = Object::Unit;
        let mut i: usize = 0;
        while i < program.statements.len()
            invariant
                ss == program.statements@,
                i <= ss.len(),
                agrees(so_far, Ok::<Object<F>, Error<F>>(obj)),
                eval_program::<F>(ss) == run_from(ss, i as int, so_far),
            decreases ss.len() - i,
        {
            let ghost c = Then::Next(Box::new(eval_statement::<F>(ss[i as int])));
            match self.visit_statement(&program.statements[i], unit) {
                Ok(v) => {
                    proof {
                        lemma_then_value(so_far, c, obj, Ok(v));
                        so_far = then_map(so_far, c);
                    }
                    obj = v;
                },
                Err(e) => {
                    proof {
                        lemma_then_value(so_far, c, obj, Err(e));
                        lemma_run_error(ss, i + 1, then_map(so_far, c), e);
                    }
                    return Err(e);
                },
            }
            i = i + 1;
        }
        Ok(obj)
    }

    fn visit_statement<F: Copy, U: FloatUnit<F>>(&self, statement: &Statement, unit: &U) -> (r: Result<
        Object<F>,
        Error<F>,
    >)
        ensures
            agrees(eval_statement(*statement), r),
    {
        match statement {
            Statement::Expr { expression } => self.visit_expression(expression, unit),
            _ => Err(other_error("statement not implemented yet")),
        }
    }

    fn visit_expression<F: Copy, U: FloatUnit<F>>(&self, expression: &Expression, unit: &U) -> (r: Result<
        Object<F>,
        Error<F>,
    >)
        ensures
            agrees(eval_expr(*expression), r),
        decreases *expression,
    {
        match expression {
            Expression::IfExpression { test, body, orelse } => {
                let ghost c = Then::Branch(
                    Box::new(eval_expr::<F>(**body)),
                    Box::new(eval_expr::<F>(**orelse)),
                );
                let cond = match self.visit_expression(test, unit) {
                    Ok(v) => v,
                    Err(e) => {
                        proof {
                            lemma_then_error(eval_expr::<F>(**test), c, e);
                        }
                        return Err(e);
                    },
                };
                let r = match cond {
                    Object::Primitive(Primitive::Boolean(true)) => self.visit_expression(body, unit),
                    Object::Primitive(Primitive::Boolean(false)) => self.visit_expression(orelse, unit),
                    _ => Err(other_error("should be true or false")),
                };
                proof {
                    assert forall|k: Known<F>| fits(k, cond) implies agrees(#[trigger] step(c, k), r) by {
                    }
                    lemma_then_value(eval_expr::<F>(**test), c, cond, r);
                }
                r
            },
            Expression::BinOp { a, op, b } => {
                let ghost c = Then::Left(BinKind::Arith(*op), Box::new(eval_expr::<F>(**b)));
                let a_obj = match self.visit_expression(a, unit) {
                    Ok(v) => v,
                    Err(e) => {
                        proof {
                            lemma_then_error(eval_expr::<F>(**a), c, e);
                        }
                        return Err(e);
                    },
                };
                let b_obj = match self.visit_expression(b, unit) {
                    Ok(v) => v,
                    Err(e) => {
                        proof {
                            assert forall|k: Known<F>| fits(k, a_obj) implies agrees(
                                #[trigger] step(c, k),
                                Err::<Object<F>, Error<F>>(e),
                            ) by {
                                lemma_right_error(eval_expr::<F>(**b), BinKind::Arith(*op), k, e);
                            }
                            lemma_then_value(eval_expr::<F>(**a), c, a_obj, Err(e));
                        }
                        return Err(e);
                    },
                };
                let r = match op {
                    Operator::Add => a_obj.add(&b_obj, unit),
                    Operator::Sub => a_obj.subtract(&b_obj, unit),
                    Operator::Mul => a_obj.multiply(&b_obj, unit),
                    Operator::Div => a_obj.real_divide(&b_obj, unit),
                    Operator::Mod => a_obj.module(&b_obj, unit),
                };
                proof {
                    assert forall|k: Known<F>| fits(k, a_obj) implies agrees(#[trigger] step(c, k), r) by {
                        assert forall|k2: Known<F>| fits(k2, b_obj) implies agrees(
                            #[trigger] apply(BinKind::Arith(*op), k, k2),
                            r,
                        ) by {
                            lemma_arith_lifts(*op, k, k2, a_obj, b_obj, r);
                        }
                        lemma_right_value(eval_expr::<F>(**b), BinKind::Arith(*op), k, b_obj, r);
                    }
                    lemma_then_value(eval_expr::<F>(**a), c, a_obj, r);
                }
                r
            },
            Expression::Compare { a, op, b } => {
                let ghost c = Then::Left(BinKind::Compare(*op), Box::new(eval_expr::<F>(**b)));
                let a_obj = match self.visit_expression(a, unit) {
                    Ok(v) => v,
                    Err(e) => {
                        proof {
                            lemma_then_error(eval_expr::<F>(**a), c, e);
                        }
                        return Err(e);
                    },
                };
                let b_obj = match self.visit_expression(b, unit) {
                    Ok(v) => v,
                    Err(e) => {
                        proof {
                            assert forall|k: Known<F>| fits(k, a_obj) implies agrees(
                                #[trigger] step(c, k),
                                Err::<Object<F>, Error<F>>(e),
                            ) by {
                                lemma_right_error(eval_expr::<F>(**b), BinKind::Compare(*op), k, e);
                            }
                            lemma_then_value(eval_expr::<F>(**a), c, a_obj, Err(e));
                        }
                        return Err(e);
                    },
                };
                let r = match op {
                    Comparison::Equal => a_obj.equal(&b_obj, unit),
                    Comparison::NotEqual => a_obj.not_equal(&b_obj, unit),
                    Comparison::Greater => a_obj.greater_than(&b_obj, unit),
                    Comparison::Less => a_obj.less_than(&b_obj, unit),
                    Comparison::GreaterThan => a_obj.greater_than_equal(&b_obj, unit),
                    Comparison::LessThan => a_obj.less_than_equal(&b_obj, unit),
                    Comparison::Is => a_obj.is(&b_obj),
                    _ => Err(other_error("comparison not implemented yet")),
                };
                proof {
                    assert forall|k: Known<F>| fits(k, a_obj) implies agrees(#[trigger] step(c, k), r) by {
                        assert forall|k2: Known<F>| fits(k2, b_obj) implies agrees(
                            #[trigger] apply(BinKind::Compare(*op), k, k2),
                            r,
                        ) by {
                            if is_relational(*op) || *op == Comparison::Is {
                                lemma_compare_lifts(*op, k, k2, a_obj, b_obj, r);
                            }
                        }
                        lemma_right_value(eval_expr::<F>(**b), BinKind::Compare(*op), k, b_obj, r);
                    }
                    lemma_then_value(eval_expr::<F>(**a), c, a_obj, r);
                }
                r
            },
            Expression::BoolOp { a, op, b } => {
                let ghost c = Then::Left(BinKind::Bool(*op), Box::new(eval_expr::<F>(**b)));
                let a_obj = match self.visit_expression(a, unit) {
                    Ok(v) => v,
                    Err(e) => {
                        proof {
                            lemma_then_error(eval_expr::<F>(**a), c, e);
                        }
                        return Err(e);
                    },
                };
                let b_obj = match self.visit_expression(b, unit) {
                    Ok(v) => v,
                    Err(e) => {
                        proof {
                            assert forall|k: Known<F>| fits(k, a_obj) implies agrees(
                                #[trigger] step(c, k),
                                Err::<Object<F>, Error<F>>(e),
                            ) by {
                                lemma_right_error(eval_expr::<F>(**b), BinKind::Bool(*op), k, e);
                            }
                            lemma_then_value(eval_expr::<F>(**a), c, a_obj, Err(e));
                        }
                        return Err(e);
                    },
                };
                let r = match op {
                    BooleanOperation::And => a_obj.and(&b_obj),
                    BooleanOperation::Or => a_obj.or(&b_obj),
                };
                proof {
                    assert forall|k: Known<F>| fits(k, a_obj) implies agrees(#[trigger] step(c, k), r) by {
                        assert forall|k2: Known<F>| fits(k2, b_obj) implies agrees(
                            #[trigger] apply(BinKind::Bool(*op), k, k2),
                            r,
                        ) by {
                            lemma_bool_lifts(*op, k, k2, a_obj, b_obj, r);
                        }
                        lemma_right_value(eval_expr::<F>(**b), BinKind::Bool(*op), k, b_obj, r);
                    }
                    lemma_then_value(eval_expr::<F>(**a), c, a_obj, r);
                }
                r
            },
            Expression::UnOp { op, a } => {
                let ghost c = Then::Unary(*op);
                let a_obj = match self.visit_expression(a, unit) {
                    Ok(v) => v,
                    Err(e) => {
                        proof {
                            lemma_then_error(eval_expr::<F>(**a), c, e);
                        }
                        return Err(e);
                    },
                };
                let r = match op {
                    UnaryOperation::Not => a_obj.negate(),
                    UnaryOperation::Minus => a_obj.unary_minus(unit),
                    UnaryOperation::Plus => a_obj.unary_plus(unit),
                };
                proof {
                    assert forall|k: Known<F>| fits(k, a_obj) implies agrees(#[trigger] step(c, k), r) by {
                        lemma_unary_lifts(*op, k, a_obj, r);
                    }
                    lemma_then_value(eval_expr::<F>(**a), c, a_obj, r);
                }
                r
            },
            Expression::Str { value } => Ok(Object::Primitive(Primitive::Str(value.clone()))),
            Expression::Num { value: Number::Integer { value } } => Ok(
                Object::Primitive(Primitive::Integer(*value)),
            ),
            Expression::Num { value: Number::Float { value } } => Ok(
                Object::Primitive(Primitive::Float(unit.literal(value.as_str()))),
            ),
            Expression::True => Ok(Object::Primitive(Primitive::Boolean(true))),
            Expression::False => Ok(Object::Primitive(Primitive::Boolean(false))),
            Expression::Nothing => Ok(Object::Unit),
            _ => Err(other_error("expression not implemented yet")),
        }
    }
}

} // verus!

use vstd::prelude::*;

use crate::ast::{
    boolean_of, comparison_of, operator_of, BooleanOperation, Comparison, Expression, Number,
    Operator, Program, Statement, UnaryOperation,
};
use crate::token::Token;
use crate::tokenizer::{scan, scan_error, scans};
use crate::tokens::{token_at, Tokens};

verus! {

#[derive(Debug)]
pub enum ParseError {
    Message(String),
}

/// Whether `t` joins two expressions into one.
pub open spec fn is_binary(t: Token) -> bool {
    comparison_of(t) is Some || operator_of(t) is Some || boolean_of(t) is Some
}

/// The node that the binary token `t` makes of `a` and `b`.
pub open spec fn combine(t: Token, a: Expression, b: Expression) -> Expression {
    match comparison_of(t) {
        Some(op) => Expression::Compare { a: Box::new(a), op, b: Box::new(b) },
        None => match operator_of(t) {
            Some(op) => Expression::BinOp { a: Box::new(a), op, b: Box::new(b) },
            None => Expression::BoolOp { a: Box::new(a), op: boolean_of(t)->0, b: Box::new(b) },
        },
    }
}

/// Parsing a literal or a conditional at `i`. `None`: a parse error;
/// `Some((e, j))`: the expression found (`None` when no literal starts at
/// `i`) and the position after it.
pub open spec fn factor_spec(ts: Seq<Token>, i: int) -> Option<(Option<Expression>, int)>
    decreases ts.len() - i, 1int,
{
    if i < 0 || i >= ts.len() {
        Some((None, i))
    } else {
        match ts[i] {
            Token::Inteiro(v) => Some(
                (Some(Expression::Num { value: Number::Integer { value: v } }), i + 1),
            ),
            Token::Real(t) => Some((Some(Expression::Num { value: Number::Float { value: t } }), i + 1)),
            Token::Texto(t) => Some((Some(Expression::Str { value: t }), i + 1)),
            Token::Logico(b) => Some(
                (
                    Some(
                        if b {
                            Expression::True
                        } else {
                            Expression::False
                        },
                    ),
                    i + 1,
                ),
            ),
            Token::Vazio => Some((Some(Expression::Nothing), i + 1)),
            Token::Se => match expression_spec(ts, i + 1) {
                Some((Some(test), j)) => if j < i + 1 || token_at(ts, j) != Some(Token::Colon) {
                    None
                } else {
                    match expression_spec(ts, j + 1) {
                        Some((Some(body), k)) => if k < j + 1 {
                            None
                        } else if token_at(ts, k) == Some(Token::SeNao) {
                            if token_at(ts, k + 1) != Some(Token::Colon) {
                                None
                            } else {
                                match expression_spec(ts, k + 2) {
                                    Some((Some(orelse), m)) => Some(
                                        (
                                            Some(
                                                Expression::IfExpression {
                                                    test: Box::new(test),
                                                    body: Box::new(body),
                                                    orelse: Box::new(orelse),
                                                },
                                            ),
                                            m,
                                        ),
                                    ),
                                    _ => None,
                                }
                            }
                        } else {
                            Some(
                                (
                                    Some(
                                        Expression::IfExpression {
                                            test: Box::new(test),
                                            body: Box::new(body),
                                            orelse: Box::new(Expression::Nothing),
                                        },
                                    ),
                                    k,
                                ),
                            )
                        },
                        _ => None,
                    }
                },
                _ => None,
            },
            _ => Some((None, i)),
        }
    }
}

/// Parsing an expression at `i`: a literal, then operators folded in from
/// the left, all on one level of precedence.
pub open spec fn expression_spec(ts: Seq<Token>, i: int) -> Option<(Option<Expression>, int)>
    decreases ts.len() - i, 2int,
{
    match factor_spec(ts, i) {
        Some((a, j)) => if j < i || j > ts.len() {
            None
        } else {
            fold_spec(ts, a, j)
        },
        None => None,
    }
}

/// Folding the operators at `i` and after into the expression `a` built so
/// far. A binary operator needs a left operand, except `-`, which then
/// negates; `nao` negates the literal after it and stands only where no
/// expression has been built yet.
pub open spec fn fold_spec(ts: Seq<Token>, a: Option<Expression>, i: int) -> Option<
    (Option<Expression>, int),
>
    decreases ts.len() - i, 0int,
{
    match token_at(ts, i) {
        Some(t) => if is_binary(t) || t == Token::Nao {
            match factor_spec(ts, i + 1) {
                Some((Some(b), j)) => if j < i + 1 || j > ts.len() {
                    None
                } else if t == Token::Nao {
                    if a is Some {
                        None
                    } else {
                        fold_spec(
                            ts,
                            Some(Expression::UnOp { op: UnaryOperation::Not, a: Box::new(b) }),
                            j,
                        )
                    }
                } else {
                    match a {
                        Some(a) => fold_spec(ts, Some(combine(t, a, b)), j),
                        None => if t == Token::Minus {
                            fold_spec(
                                ts,
                                Some(Expression::UnOp { op: UnaryOperation::Minus, a: Box::new(b) }),
                                j,
                            )
                        } else {
                            None
                        },
                    }
                },
                _ => None,
            }
        } else {
            Some((a, i))
        },
        None => Some((a, i)),
    }
}

/// How parsing a statement at `i` ends. `None`: a parse error;
/// `Some(None)`: no statement starts at `i`; `Some(Some(j))`: a statement
/// that ends before `j`.
pub open spec fn statement_end(ts: Seq<Token>, i: int) -> Option<Option<int>> {
    match token_at(ts, i) {
        Some(Token::Interrompa) | Some(Token::Passe) => Some(Some(i + 1)),
        Some(Token::Retorne) => match expression_spec(ts, i + 1) {
            Some((_, j)) => Some(Some(j)),
            None => None,
        },
        Some(Token::Verifique) => match expression_spec(ts, i + 1) {
            Some((Some(_), j)) => Some(Some(j)),
            _ => None,
        },
        Some(Token::Identifier(_)) if token_at(ts, i + 1) == Some(Token::Equal) => match expression_spec(
            ts,
            i + 2,
        ) {
            Some((Some(_), j)) => Some(Some(j)),
            _ => None,
        },
        Some(Token::Imprima) => if token_at(ts, i + 1) == Some(Token::ParentOpen) {
            match expression_spec(ts, i + 2) {
                Some((Some(_), j)) => if token_at(ts, j) == Some(Token::ParentClose) {
                    Some(Some(j + 1))
                } else {
                    None
                },
                _ => None,
            }
        } else {
            None
        },
        _ => match expression_spec(ts, i) {
            Some((Some(_), j)) => Some(Some(j)),
            Some((None, _)) => Some(None),
            None => None,
        },
    }
}

/// `s` is the statement that starts at `i`.
pub open spec fn statement_is(ts: Seq<Token>, i: int, s: Statement) -> bool {
    match token_at(ts, i) {
        Some(Token::Interrompa) => s == Statement::Break,
        Some(Token::Passe) => s == Statement::Pass,
        Some(Token::Retorne) => match expression_spec(ts, i + 1) {
            Some((Some(e), _)) => s matches Statement::Return { value: Some(v) } && v@ == seq![e],
            Some((None, _)) => s matches Statement::Return { value: Some(v) } && v@.len() == 0,
            None => false,
        },
        Some(Token::Verifique) => match expression_spec(ts, i + 1) {
            Some((Some(e), _)) => s == Statement::Assert { test: e, msg: None },
            _ => false,
        },
        Some(Token::Identifier(name)) if token_at(ts, i + 1) == Some(Token::Equal) => match expression_spec(
            ts,
            i + 2,
        ) {
            Some((Some(e), _)) => s matches Statement::Assign { targets, value } && value == e
                && targets@ == seq![Expression::Identifier { name }],
            _ => false,
        },
        Some(Token::Imprima) => match expression_spec(ts, i + 2) {
            Some((Some(e), _)) => s matches Statement::Expr {
                expression: Expression::Call { function, args, keywords },
            } && *function matches Expression::Identifier { name } && name@ == "imprima"@ && args@
                == seq![e] && keywords@.len() == 0,
            _ => false,
        },
        _ => match expression_spec(ts, i) {
            Some((Some(e), _)) => s == Statement::Expr { expression: e },
            _ => false,
        },
    }
}

/// Whether the statements from `i` on take up every token up to the end.
pub open spec fn accepts(ts: Seq<Token>, i: int) -> bool
    decreases ts.len() - i,
{
    match statement_end(ts, i) {
        Some(None) => i == ts.len(),
        Some(Some(j)) => i < j <= ts.len() && accepts(ts, j),
        None => false,
    }
}

/// `ss` are the statements that the tokens from `i` on make, where they
/// take up every token.
pub open spec fn parses_program(ts: Seq<Token>, i: int, ss: Seq<Statement>) -> bool
    decreases ts.len() - i,
{
    match statement_end(ts, i) {
        Some(None) => i == ts.len() && ss.len() == 0,
        Some(Some(j)) => i < j <= ts.len() && ss.len() > 0 && statement_is(ts, i, ss[0])
            && parses_program(ts, j, ss.drop_first()),
        None => false,
    }
}

/// `p` is the program that the text `s` makes.
pub open spec fn parses_source(s: Seq<char>, p: Program) -> bool {
    exists|ts: Seq<Token>| scans(s, ts) && parses_program(ts, 0, p.statements@)
}

/// Whether the text `s` makes a program: it scans, and its statements take
/// up every token.
pub open spec fn source_accepted(s: Seq<char>) -> bool {
    scan_error(s) is None && exists|ts: Seq<Token>| scans(s, ts) && accepts(ts, 0)
}

fn one(e: Expression) -> (r: Vec<Expression>)
    ensures
        r@ == seq![e],
{
    let mut v = Vec::new();
    v.push(e);
    v
}

fn failure(msg: &str) -> (r: ParseError) {
    ParseError::Message(msg.to_owned())
}

/// The node that the binary token `t` makes of `a` and `b`; `None` where
/// `t` is no binary operator.
fn join(t: &Token, a: Expression, b: Expression) -> (r: Option<Expression>)
    ensures
        is_binary(*t) ==> r == Some(combine(*t, a, b)),
        !is_binary(*t) ==> r is None,
{
    if let Some(op) = Comparison::from_token(t) {
        return Some(Expression::Compare { a: Box::new(a), op, b: Box::new(b) });
    }
    if let Some(op) = Operator::from_token(t) {
        return Some(Expression::BinOp { a: Box::new(a), op, b: Box::new(b) });
    }
    match BooleanOperation::from_token(t) {
        Some(op) => Some(Expression::BoolOp { a: Box::new(a), op, b: Box::new(b) }),
        None => None,
    }
}

/// Builds a syntax tree from a token sequence by recursive descent.
pub struct Parser {
    tokens: Tokens,
}

impl Parser {
    /// The tokens being parsed.
    pub closed spec fn toks(&self) -> Seq<Token> {
        self.tokens.items()
    }

    /// The read position.
    pub closed spec fn at(&self) -> int {
        self.tokens.at()
    }

    /// The read position stands within the tokens or at their end.
    pub closed spec fn wf(&self) -> bool {
        0 <= self.tokens.at() <= self.tokens.items().len() <= usize::MAX
    }

    pub fn init(tokens: Vec<Token>) -> (r: Self)
        ensures
            r.wf(),
            r.toks() == tokens@,
            r.at() == 0,
    {
        let tokens = Tokens::init(tokens);
        let _ = tokens.len();
        Parser { tokens }
    }

    fn current(&self) -> (r: Option<Token>)
        ensures
            r == token_at(self.toks(), self.at()),
    {
        self.tokens.current()
    }

    fn peek(&self) -> (r: Option<Token>)
        ensures
            r == token_at(self.toks(), self.at() + 1),
    {
        self.tokens.peek()
    }

    fn advance(&mut self)
        requires
            old(self).wf(),
            old(self).at() < old(self).toks().len(),
        ensures
            final(self).wf(),
            final(self).toks() == old(self).toks(),
            final(self).at() == old(self).at() + 1,
    {
        self.tokens.advance();
    }

    /// Takes the next token if it is the punctuation `tok`.
    fn consume(&mut self, tok: &Token) -> (r: bool)
        requires
            old(self).wf(),
            *tok == Token::Colon || *tok == Token::Equal || *tok == Token::ParentOpen || *tok
                == Token::ParentClose,
        ensures
            final(self).wf(),
            final(self).toks() == old(self).toks(),
            r == (token_at(old(self).toks(), old(self).at()) == Some(*tok)),
            r ==> final(self).at() == old(self).at() + 1,
            !r ==> final(self).at() == old(self).at(),
    {
        let found = match (self.current(), tok) {
            (Some(Token::Colon), Token::Colon) => true,
            (Some(Token::Equal), Token::Equal) => true,
            (Some(Token::ParentOpen), Token::ParentOpen) => true,
            (Some(Token::ParentClose), Token::ParentClose) => true,
            _ => false,
        };
        if found {
            self.advance();
        }
        found
    }

    fn factor(&mut self) -> (r: Result<Option<Expression>, ParseError>)
        requires
            old(self).wf(),
        ensures
            final(self).wf(),
            final(self).toks() == old(self).toks(),
            old(self).at() <= final(self).at(),
            factor_spec(old(self).toks(), old(self).at()) matches Some((e, j)) ==> (r matches Ok(
                x,
            ) && x == e && final(self).at() == j),
            factor_spec(old(self).toks(), old(self).at()) is None ==> r is Err,
            r matches Ok(None) ==> final(self).at() == old(self).at(),
            r matches Ok(Some(_)) ==> final(self).at() > old(self).at(),
        decreases old(self).toks().len() - old(self).at(), 1int,
    {
        match self.current() {
            Some(Token::Inteiro(value)) => {
                self.advance();
                Ok(Some(Expression::Num { value: Number::Integer { value } }))
            },
            Some(Token::Real(value)) => {
                self.advance();
                Ok(Some(Expression::Num { value: Number::Float { value } }))
            },
            Some(Token::Texto(value)) => {
                self.advance();
                Ok(Some(Expression::Str { value }))
            },
            Some(Token::Logico(value)) => {
                self.advance();
                Ok(
                    Some(
                        if value {
                            Expression::True
                        } else {
                            Expression::False
                        },
                    ),
                )
            },
            Some(Token::Vazio) => {
                self.advance();
                Ok(Some(Expression::Nothing))
            },
            Some(Token::Se) => {
                self.advance();
                let test = match self.expression() {
                    Ok(Some(e)) => e,
                    Ok(None) => return Err(failure("expected a condition after 'se'")),
                    Err(e) => return Err(e),
                };
                if !self.consume(&Token::Colon) {
                    return Err(failure("expected ':' after the condition"));
                }
                let body = match self.expression() {
                    Ok(Some(e)) => e,
                    Ok(None) => return Err(failure("expected an expression after ':'")),
                    Err(e) => return Err(e),
                };
                let has_else = match self.current() {
                    Some(Token::SeNao) => true,
                    _ => false,
                };
                let orelse = if has_else {
                    self.advance();
                    if !self.consume(&Token::Colon) {
                        return Err(failure("expected ':' after 'senao'"));
                    }
                    match self.expression() {
                        Ok(Some(e)) => e,
                        Ok(None) => return Err(failure("expected an expression after ':'")),
                        Err(e) => return Err(e),
                    }
                } else {
                    Expression::Nothing
                };
                Ok(
                    Some(
                        Expression::IfExpression {
                            test: Box::new(test),
                            body: Box::new(body),
                            orelse: Box::new(orelse),
                        },
                    ),
                )
            },
            _ => Ok(None),
        }
    }

    fn expression(&mut self) -> (r: Result<Option<Expression>, ParseError>)
        requires
            old(self).wf(),
        ensures
            final(self).wf(),
            final(self).toks() == old(self).toks(),
            old(self).at() <= final(self).at(),
            expression_spec(old(self).toks(), old(self).at()) matches Some((e, j)) ==> (r matches Ok(
                x,
            ) && x == e && final(self).at() == j),
            expression_spec(old(self).toks(), old(self).at()) is None ==> r is Err,
            r matches Ok(None) ==> final(self).at() == old(self).at(),
            r matches Ok(Some(_)) ==> final(self).at() > old(self).at(),
        decreases old(self).toks().len() - old(self).at(), 2int,
    {
        let a = match self.factor() {
            Ok(a) => a,
            Err(e) => return Err(e),
        };
        self.fold_operators(a)
    }

    fn fold_operators(&mut self, a: Option<Expression>) -> (r: Result<Option<Expression>, ParseError>)
        requires
            old(self).wf(),
        ensures
            final(self).wf(),
            final(self).toks() == old(self).toks(),
            old(self).at() <= final(self).at(),
            fold_spec(old(self).toks(), a, old(self).at()) matches Some((e, j)) ==> (r matches Ok(
                x,
            ) && x == e && final(self).at() == j),
            fold_spec(old(self).toks(), a, old(self).at()) is None ==> r is Err,
            r matches Ok(None) ==> a is None && final(self).at() == old(self).at(),
            r matches Ok(Some(_)) && a is None ==> final(self).at() > old(self).at(),
        decreases old(self).toks().len() - old(self).at(), 0int,
    {
        let t = match self.current() {
            Some(t) => t,
            None => return Ok(a),
        };
        let negation = match t {
            Token::Nao => true,
            _ => false,
        };
        let binary = Comparison::from_token(&t).is_some() || Operator::from_token(&t).is_some()
            || BooleanOperation::from_token(&t).is_some();
        if !binary && !negation {
            return Ok(a);
        }
        self.advance();
        let b = match self.factor() {
            Ok(Some(b)) => b,
            Ok(None) => return Err(failure("expected an operand")),
            Err(e) => return Err(e),
        };
        let node = if negation {
            if a.is_some() {
                return Err(failure("'nao' cannot follow an expression"));
            }
            Expression::UnOp { op: UnaryOperation::Not, a: Box::new(b) }
        } else {
            match a {
                Some(a) => match join(&t, a, b) {
                    Some(node) => node,
                    None => return Err(failure("expected an operator")),
                },
                None => match UnaryOperation::from_token(&t) {
                    Some(op) => Expression::UnOp { op, a: Box::new(b) },
                    None => return Err(failure("expected an operand before the operator")),
                },
            }
        };
        self.fold_operators(Some(node))
    }
    fn identifier(&mut self) -> (r: Result<Expression, ParseError>)
        requires
            old(self).wf(),
        ensures
            final(self).wf(),
            final(self).toks() == old(self).toks(),
            token_at(old(self).toks(), old(self).at()) matches Some(Token::Identifier(n)) ==> (r
                matches Ok(Expression::Identifier { name }) && name == n && final(self).at()
                == old(self).at() + 1),
            token_at(old(self).toks(), old(self).at()) == Some(Token::Imprima) ==> (r matches Ok(
                Expression::Identifier { name },
            ) && name@ == "imprima"@ && final(self).at() == old(self).at() + 1),
            !(token_at(old(self).toks(), old(self).at()) matches Some(Token::Identifier(_)))
                && token_at(old(self).toks(), old(self).at()) != Some(Token::Imprima) ==> r is Err
                && final(self).at() == old(self).at(),
    {
        match self.current() {
            Some(Token::Imprima) => {
                self.advance();
                Ok(Expression::Identifier { name: "imprima".to_owned() })
            },
            Some(Token::Identifier(name)) => {
                self.advance();
                Ok(Expression::Identifier { name })
            },
            _ => Err(failure("identifier not found")),
        }
    }

    fn parse_assignment(&mut self) -> (r: Result<Statement, ParseError>)
        requires
            old(self).wf(),
            token_at(old(self).toks(), old(self).at()) matches Some(Token::Identifier(_)),
            token_at(old(self).toks(), old(self).at() + 1) == Some(Token::Equal),
        ensures
            final(self).wf(),
            final(self).toks() == old(self).toks(),
            statement_end(old(self).toks(), old(self).at()) matches Some(Some(j)) ==> (r matches Ok(
                s,
            ) && statement_is(old(self).toks(), old(self).at(), s) && final(self).at() == j),
            statement_end(old(self).toks(), old(self).at()) is None ==> r is Err,
            r is Ok ==> final(self).at() > old(self).at(),
    {
        let identifier = match self.identifier() {
            Ok(identifier) => identifier,
            Err(e) => return Err(e),
        };
        if !self.consume(&Token::Equal) {
            return Err(failure("expected '='"));
        }
        match self.expression() {
            Ok(Some(value)) => Ok(Statement::Assign { targets: one(identifier), value }),
            Ok(None) => Err(failure("could not get assignment")),
            Err(e) => Err(e),
        }
    }

    fn parse_print(&mut self) -> (r: Result<Expression, ParseError>)
        requires
            old(self).wf(),
            token_at(old(self).toks(), old(self).at()) == Some(Token::Imprima),
        ensures
            final(self).wf(),
            final(self).toks() == old(self).toks(),
            statement_end(old(self).toks(), old(self).at()) matches Some(Some(j)) ==> (r matches Ok(
                e,
            ) && statement_is(old(self).toks(), old(self).at(), Statement::Expr { expression: e })
                && final(self).at() == j),
            statement_end(old(self).toks(), old(self).at()) is None ==> r is Err,
            r is Ok ==> final(self).at() > old(self).at(),
    {
        let print_identifier = match self.identifier() {
            Ok(print_identifier) => print_identifier,
            Err(e) => return Err(e),
        };
        if !self.consume(&Token::ParentOpen) {
            return Err(failure("expected '('"));
        }
        let arg = match self.expression() {
            Ok(Some(arg)) => arg,
            Ok(None) => return Err(failure("expected an argument")),
            Err(e) => return Err(e),
        };
        if !self.consume(&Token::ParentClose) {
            return Err(failure("expected ')'"));
        }
        Ok(Expression::Call { function: Box::new(print_identifier), args: one(arg), keywords: Vec::new() })
    }

    /// Parses the statement at the read position. `None` when no statement
    /// starts there.
    pub fn statements(&mut self) -> (r: Option<Result<Statement, ParseError>>)
        requires
            old(self).wf(),
        ensures
            final(self).wf(),
            final(self).toks() == old(self).toks(),
            statement_end(old(self).toks(), old(self).at()) is None ==> r matches Some(Err(_)),
            statement_end(old(self).toks(), old(self).at()) == Some(None::<int>) ==> r is None
                && final(self).at() == old(self).at(),
            statement_end(old(self).toks(), old(self).at()) matches Some(Some(j)) ==> (r matches Some(
                Ok(s),
            ) && statement_is(old(self).toks(), old(self).at(), s) && final(self).at() == j),
            r matches Some(Ok(_)) ==> final(self).at() > old(self).at(),
    {
        let next_is_equal = match self.peek() {
            Some(Token::Equal) => true,
            _ => false,
        };
        match self.current() {
            Some(Token::Interrompa) => {
                self.advance();
                Some(Ok(Statement::Break))
            },
            Some(Token::Passe) => {
                self.advance();
                Some(Ok(Statement::Pass))
            },
            Some(Token::Retorne) => {
                self.advance();
                match self.expression() {
                    Ok(Some(e)) => Some(Ok(Statement::Return { value: Some(one(e)) })),
                    Ok(None) => Some(Ok(Statement::Return { value: Some(Vec::new()) })),
                    Err(e) => Some(Err(e)),
                }
            },
            Some(Token::Verifique) => {
                self.advance();
                match self.expression() {
                    Ok(Some(e)) => Some(Ok(Statement::Assert { test: e, msg: None })),
                    Ok(None) => Some(Err(failure("expected an expression after 'verifique'"))),
                    Err(e) => Some(Err(e)),
                }
            },
            Some(Token::Identifier(_)) if next_is_equal => match self.parse_assignment() {
                Ok(s) => Some(Ok(s)),
                Err(e) => Some(Err(e)),
            },
            Some(Token::Imprima) => match self.parse_print() {
                Ok(expression) => Some(Ok(Statement::Expr { expression })),
                Err(e) => Some(Err(e)),
            },
            _ => match self.expression() {
                Ok(Some(expression)) => Some(Ok(Statement::Expr { expression })),
                Ok(None) => None,
                Err(e) => Some(Err(e)),
            },
        }
    }

    /// Parses statements up to the end of the tokens. Fails on the first
    /// statement that does not parse, and where a token starts no statement.
    pub fn parser(&mut self) -> (r: Result<Program, ParseError>)
        requires
            old(self).wf(),
        ensures
            accepts(old(self).toks(), old(self).at()) ==> (r matches Ok(p) && parses_program(
                old(self).toks(),
                old(self).at(),
                p.statements@,
            )),
            !accepts(old(self).toks(), old(self).at()) ==> r is Err,
    {
        let mut statements: Vec<Statement> = Vec::new();
        let ghost ts = self.toks();
        let ghost i0 = self.at();
        loop
            invariant
                ts == old(self).toks(),
                i0 == old(self).at(),
                self.wf(),
                self.toks() == ts,
                i0 <= self.at(),
                accepts(ts, i0) == accepts(ts, self.at()),
                forall|ss: Seq<Statement>| #[trigger]
                    parses_program(ts, self.at(), ss) ==> parses_program(
                        ts,
                        i0,
                        statements@ + ss,
                    ),
            decreases ts.len() - self.at(),
        {
            let ghost i = self.at();
            match self.statements() {
                None => {
                    if self.tokens.pos() == self.tokens.len() {
                        proof {
                            assert(parses_program(ts, i, Seq::<Statement>::empty()));
                            assert(statements@ + Seq::<Statement>::empty() =~= statements@);
                        }
                        return Ok(Program { statements });
                    }
                    return Err(failure("unexpected token"));
                },
                Some(Ok(s)) => {
                    let ghost before = statements@;
                    statements.push(s);
                    proof {
                        assert forall|ss: Seq<Statement>| #[trigger]
                            parses_program(ts, self.at(), ss) implies parses_program(
                            ts,
                            i0,
                            statements@ + ss,
                        ) by {
                            let whole = seq![s] + ss;
                            assert(whole.drop_first() =~= ss);
                            assert(parses_program(ts, i, whole));
                            assert(before + whole =~= statements@ + ss);
                        }
                    }
                },
                Some(Err(e)) => {
                    return Err(e);
                },
            }
        }
    }
}

/// Scans and parses `source`. `None` where the text does not scan, where a
/// statement does not parse, and where tokens are left that start no
/// statement.
pub fn parse_program(source: &str) -> (r: Option<Program>)
    ensures
        scan_error(source@) is Some ==> r is None,
        scan_error(source@) is None ==> exists|ts: Seq<Token>|
            scans(source@, ts) && (accepts(ts, 0) <==> r is Some) && (r matches Some(p)
                ==> parses_program(ts, 0, p.statements@)),
{
    let tokens = match scan(source) {
        Ok(tokens) => tokens,
        Err(_) => return None,
    };
    let ghost ts = tokens@;
    let mut parser = Parser::init(tokens);
    let r = match parser.parser() {
        Ok(p) => Some(p),
        Err(_) => None,
    };
    assert(scans(source@, ts) && (accepts(ts, 0) <==> r is Some) && (r matches Some(p)
        ==> parses_program(ts, 0, p.statements@)));
    r
}

} // verus!

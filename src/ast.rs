use vstd::prelude::*;

use crate::token::Token;

verus! {

/// Prefix operators.
#[derive(Debug, Clone, Copy, PartialEq, Eq)]
pub enum UnaryOperation {
    Plus,
    Minus,
    Not,
}

/// Boolean connectives.
#[derive(Debug, Clone, Copy, PartialEq, Eq)]
pub enum BooleanOperation {
    And,
    Or,
}

/// Arithmetic operators. `Div` is real division.
#[derive(Debug, Clone, Copy, PartialEq, Eq)]
pub enum Operator {
    Add,
    Sub,
    Mul,
    Div,
    Mod,
}

/// Comparison operators. `GreaterThan` is `>=` and `LessThan` is `<=`.
#[derive(Debug, Clone, Copy, PartialEq, Eq)]
pub enum Comparison {
    Equal,
    NotEqual,
    Greater,
    GreaterThan,
    Less,
    LessThan,
    In,
    NotIn,
    Is,
    NotIs,
}

/// The prefix operator that a token stands for.
pub open spec fn unary_of(t: Token) -> Option<UnaryOperation> {
    match t {
        Token::Nao => Some(UnaryOperation::Not),
        Token::Minus => Some(UnaryOperation::Minus),
        _ => None,
    }
}

/// The boolean connective that a token stands for.
pub open spec fn boolean_of(t: Token) -> Option<BooleanOperation> {
    match t {
        Token::E => Some(BooleanOperation::And),
        Token::Ou => Some(BooleanOperation::Or),
        _ => None,
    }
}

/// The arithmetic operator that a token stands for.
pub open spec fn operator_of(t: Token) -> Option<Operator> {
    match t {
        Token::Plus => Some(Operator::Add),
        Token::Minus => Some(Operator::Sub),
        Token::Slash => Some(Operator::Div),
        Token::Star => Some(Operator::Mul),
        Token::Percent => Some(Operator::Mod),
        _ => None,
    }
}

/// The comparison that a token stands for.
pub open spec fn comparison_of(t: Token) -> Option<Comparison> {
    match t {
        Token::Less => Some(Comparison::Less),
        Token::LessThan => Some(Comparison::LessThan),
        Token::Greater => Some(Comparison::Greater),
        Token::GreaterThan => Some(Comparison::GreaterThan),
        Token::EqualEqual => Some(Comparison::Equal),
        Token::BangEqual => Some(Comparison::NotEqual),
        Token::Is => Some(Comparison::Is),
        _ => None,
    }
}

impl UnaryOperation {
    pub fn from_token(tk: &Token) -> (r: Option<Self>)
        ensures
            r == unary_of(*tk),
    {
        match tk {
            Token::Nao => Some(UnaryOperation::Not),
            Token::Minus => Some(UnaryOperation::Minus),
            _ => None,
        }
    }
}

impl BooleanOperation {
    pub fn from_token(tk: &Token) -> (r: Option<Self>)
        ensures
            r == boolean_of(*tk),
    {
        match tk {
            Token::E => Some(BooleanOperation::And),
            Token::Ou => Some(BooleanOperation::Or),
            _ => None,
        }
    }
}

impl Operator {
    pub fn from_token(tk: &Token) -> (r: Option<Self>)
        ensures
            r == operator_of(*tk),
    {
        match tk {
            Token::Plus => Some(Operator::Add),
            Token::Minus => Some(Operator::Sub),
            Token::Slash => Some(Operator::Div),
            Token::Star => Some(Operator::Mul),
            Token::Percent => Some(Operator::Mod),
            _ => None,
        }
    }
}

impl Comparison {
    pub fn from_token(tk: &Token) -> (r: Option<Self>)
        ensures
            r == comparison_of(*tk),
    {
        match tk {
            Token::Less => Some(Comparison::Less),
            Token::LessThan => Some(Comparison::LessThan),
            Token::Greater => Some(Comparison::Greater),
            Token::GreaterThan => Some(Comparison::GreaterThan),
            Token::EqualEqual => Some(Comparison::Equal),
            Token::BangEqual => Some(Comparison::NotEqual),
            Token::Is => Some(Comparison::Is),
            _ => None,
        }
    }
}

/// A numeric literal. A real literal is kept as the text it was written
/// with (digits, a dot, digits); it becomes a value only when evaluated.
#[derive(Debug, Clone, PartialEq)]
pub enum Number {
    Integer { value: i64 },
    Float { value: String },
}

/// A named argument of a call.
#[derive(Debug, PartialEq)]
pub struct Keyword {
    pub name: String,
    pub value: Expression,
}

#[derive(Debug, PartialEq)]
pub enum Expression {
    Compare { a: Box<Expression>, op: Comparison, b: Box<Expression> },
    BoolOp { a: Box<Expression>, op: BooleanOperation, b: Box<Expression> },
    BinOp { a: Box<Expression>, op: Operator, b: Box<Expression> },
    UnOp { op: UnaryOperation, a: Box<Expression> },
    Str { value: String },
    Num { value: Number },
    IfExpression { test: Box<Expression>, body: Box<Expression>, orelse: Box<Expression> },
    Call { function: Box<Expression>, args: Vec<Expression>, keywords: Vec<Keyword> },
    Identifier { name: String },
    True,
    False,
    Nothing,
}

#[derive(Debug, PartialEq)]
pub enum Statement {
    Break,
    Continue,
    Pass,
    Return { value: Option<Vec<Expression>> },
    Assert { test: Expression, msg: Option<Expression> },
    Assign { targets: Vec<Expression>, value: Expression },
    Expr { expression: Expression },
}

#[derive(Debug, PartialEq)]
pub enum Top {
    Program(Program),
    Statement(Statement),
    Expression(Expression),
}

#[derive(Debug, PartialEq)]
pub struct Program {
    pub statements: Vec<Statement>,
}

} // verus!

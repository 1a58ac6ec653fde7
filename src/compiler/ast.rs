use vstd::prelude::*;

verus! {

pub type ExpressionBox = Box<Expression>;

/// An expression of the source language.
pub enum Expression {
    Addition(ExpressionBox, ExpressionBox),
    Subtraction(ExpressionBox, ExpressionBox),
    Multiplication(ExpressionBox, ExpressionBox),
    Division(ExpressionBox, ExpressionBox),
    BinaryNot(ExpressionBox),
    Equals(ExpressionBox, ExpressionBox),
    NotEquals(ExpressionBox, ExpressionBox),
    LessThan(ExpressionBox, ExpressionBox),
    GreaterThan(ExpressionBox, ExpressionBox),
    LessThanOrEquals(ExpressionBox, ExpressionBox),
    GreaterThanOrEquals(ExpressionBox, ExpressionBox),
    Variable(String),
    Constant(isize),
}

/// How an argument is passed.
pub enum Argument {
    ByValue(Expression),
    ByReference(String),
}

/// A statement of a function body.
pub enum Statement {
    Variable(String),
    Assign(String, Expression),
    While(Expression, Vec<Statement>),
    If(Expression, Vec<Statement>),
    ElseIf(Expression, Vec<Statement>, Vec<Statement>),
    Call(String, Vec<Argument>),
}

/// A top-level declaration: a function's name, argument names and body.
pub enum Declaration {
    Function(String, Vec<String>, Vec<Statement>),
}

/// A parsed program: its declarations in source order.
pub struct Program {
    pub decl: Vec<Declaration>,
}

} // verus!

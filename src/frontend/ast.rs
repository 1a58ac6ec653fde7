use vstd::prelude::*;

verus! {

/// An expression.
pub enum Expr {
    StaticInt(i64),
    StaticFloat(i64),
    StaticBool(bool),
    StaticString(String),
    Variable(String),
    Expr(Box<Expr>),
    BinaryOp(Box<Expr>, BinOp, Box<Expr>),
    UnaryOp(UnOp, Box<Expr>),
}

/// A binary operator.
#[derive(Clone, Copy, Debug, PartialEq, Eq, Structural)]
pub enum BinOp {
    Plus,
    Minus,
    Multiply,
    Divide,
    MemberAccess,
}

/// A unary operator.
#[derive(Clone, Copy, Debug, PartialEq, Eq, Structural)]
pub enum UnOp {
    Reference,
    Negate,
    Minus,
}

/// A statement.
pub enum Statement {
    Call,
    Assignment,
    Loop(Vec<Statement>),
    While(Box<Expr>, Vec<Statement>),
}

/// A top-level declaration; the flag marks it public.
pub enum Declaration {
    Function(bool, String),
    Module(bool, String),
    Struct(bool, String, Vec<StructDeclaration>),
}

/// A declaration that only a struct body holds; the flag marks it public.
pub enum StructDeclaration {
    MemberVariable(bool, String, String),
    MemberFunction(bool, String),
}

} // verus!

//! The syntax tree of the Nessie language: a tree-like structure that
//! represents the source code and, once resolved, the type of each expression.

use vstd::prelude::*;

verus! {

/// A range of source bytes together with the line it starts on.
#[derive(Debug, Clone, Copy, PartialEq, Eq, Structural)]
pub struct Span {
    pub start: usize,
    pub end: usize,
    pub line: u32,
}

/// A resolved type, attached to an expression once its type is known.
#[derive(Debug, Clone, Copy, PartialEq, Eq, Structural)]
pub enum Type {
    Int,
    Bool,
}

#[derive(Debug)]
pub struct Program {
    pub body: Expr,
}

#[derive(Debug, PartialEq)]
pub struct Expr {
    pub kind: ExprKind,
    pub span: Span,
    pub ty: Option<Type>,
}

#[derive(Debug, PartialEq)]
pub enum ExprKind {
    /// An integer literal.
    Int(i32),
    /// A boolean true literal.
    True,
    /// A boolean false literal.
    False,
    /// A binary operator expression.
    BinaryOp(BinaryOp, Box<Expr>, Box<Expr>),
    /// A unary operator expression.
    Unary(UnaryOp, Box<Expr>),
    /// An expression wrapped in parentheses.
    Paren(Box<Expr>),
}

#[derive(Debug, Clone, Copy, PartialEq, Eq, Structural, Hash)]
pub enum BinaryOp {
    Add,
    Sub,
    Mul,
    Div,
    Mod,
    And,
    Or,
    Xor,
}

#[derive(Debug, Clone, Copy, PartialEq, Eq, Structural, Hash)]
pub enum UnaryOp {
    Neg,
    Not,
}

#[derive(Debug, Clone, PartialEq)]
pub struct TypeExpr {
    pub ty: TypeExprKind,
    pub span: Span,
}

#[derive(Debug, Clone, Copy, PartialEq, Eq, Structural)]
pub enum TypeExprKind {
    Int,
    Bool,
}

} // verus!

//! The tree that the rewriter walks: statements over expressions and names.
use vstd::prelude::*;

verus! {

/// A statement: an expression on its own, or a binding of a name to a value.
#[derive(Debug)]
pub enum Stmt {
    Expr(Box<Expr>),
    Let(Box<Name>, Box<Expr>),
}

/// A name, the one leaf that carries text.
#[derive(Debug)]
pub struct Name {
    pub value: String,
}

/// An integer expression.
#[derive(Debug)]
pub enum Expr {
    IntLit(i64),
    Add(Box<Expr>, Box<Expr>),
    Sub(Box<Expr>, Box<Expr>),
}

} // verus!

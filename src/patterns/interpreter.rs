//! Arithmetic expressions that evaluate themselves.
use vstd::prelude::*;

verus! {

pub trait Expression {
    /// The value of the expression, over unbounded integers.
    spec fn meaning(&self) -> int;

    /// Whether the expression and each of its parts have a value that fits
    /// in an `i32`.
    spec fn fits(&self) -> bool;

    fn interpret(&self) -> (r: i32)
        requires
            self.fits(),
        ensures
            r == self.meaning(),
    ;
}

pub struct Number(i32);

impl Number {
    /// The number that this literal holds.
    pub closed spec fn number(&self) -> i32 {
        self.0
    }

    pub fn new(value: i32) -> (r: Self)
        ensures
            r.number() == value,
    {
        Number(value)
    }
}

impl Expression for Number {
    open spec fn meaning(&self) -> int {
        self.number() as int
    }

    open spec fn fits(&self) -> bool {
        true
    }

    fn interpret(&self) -> (r: i32) {
        self.0
    }
}

/// The sum of two expressions.
pub struct Plus<L: Expression, R: Expression> {
    left: Box<L>,
    right: Box<R>,
}

impl<L: Expression, R: Expression> Plus<L, R> {
    /// The left operand.
    pub closed spec fn left(&self) -> L {
        *self.left
    }

    /// The right operand.
    pub closed spec fn right(&self) -> R {
        *self.right
    }

    pub fn new(left: Box<L>, right: Box<R>) -> (r: Self)
        ensures
            r.left() == *left,
            r.right() == *right,
    {
        Plus { left, right }
    }
}

impl<L: Expression, R: Expression> Expression for Plus<L, R> {
    open spec fn meaning(&self) -> int {
        self.left().meaning() + self.right().meaning()
    }

    open spec fn fits(&self) -> bool {
        &&& self.left().fits()
        &&& self.right().fits()
        &&& i32::MIN <= self.meaning() <= i32::MAX
    }

    fn interpret(&self) -> (r: i32) {
        self.left.interpret() + self.right.interpret()
    }
}

/// The difference of two expressions.
pub struct Minus<L: Expression, R: Expression> {
    left: Box<L>,
    right: Box<R>,
}

impl<L: Expression, R: Expression> Minus<L, R> {
    /// The left operand.
    pub closed spec fn left(&self) -> L {
        *self.left
    }

    /// The right operand.
    pub closed spec fn right(&self) -> R {
        *self.right
    }

    pub fn new(left: Box<L>, right: Box<R>) -> (r: Self)
        ensures
            r.left() == *left,
            r.right() == *right,
    {
        Minus { left, right }
    }
}

impl<L: Expression, R: Expression> Expression for Minus<L, R> {
    open spec fn meaning(&self) -> int {
        self.left().meaning() - self.right().meaning()
    }

    open spec fn fits(&self) -> bool {
        &&& self.left().fits()
        &&& self.right().fits()
        &&& i32::MIN <= self.meaning() <= i32::MAX
    }

    fn interpret(&self) -> (r: i32) {
        self.left.interpret() - self.right.interpret()
    }
}

} // verus!

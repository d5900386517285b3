//! An operation on integers chosen by the caller, held either as a type
//! parameter or as a trait object that can be swapped.
use vstd::prelude::*;

verus! {

pub trait Strategy {
    /// Whether `execute` may be called on `value`.
    spec fn admits(&self, value: i32) -> bool;

    /// Whether `r` is a result that `execute` may give for `value`.
    spec fn gives(&self, value: i32, r: i32) -> bool;

    fn execute(&self, value: i32) -> (r: i32)
        requires
            self.admits(value),
        ensures
            self.gives(value, r),
    ;
}

impl<F: Fn(i32) -> i32> Strategy for F {
    open spec fn admits(&self, value: i32) -> bool {
        call_requires(*self, (value,))
    }

    open spec fn gives(&self, value: i32, r: i32) -> bool {
        call_ensures(*self, (value,), r)
    }

    fn execute(&self, value: i32) -> (r: i32) {
        (self)(value)
    }
}

/// Holds its strategy as a type parameter.
pub struct ContextGeneric<S: Strategy> {
    strategy: S,
}

impl<S: Strategy> ContextGeneric<S> {
    /// The strategy that this context runs.
    pub closed spec fn strategy(&self) -> S {
        self.strategy
    }

    pub fn new(strategy: S) -> (r: Self)
        ensures
            r.strategy() == strategy,
    {
        ContextGeneric { strategy }
    }

    pub fn execute(&self, value: i32) -> (r: i32)
        requires
            self.strategy().admits(value),
        ensures
            self.strategy().gives(value, r),
    {
        self.strategy.execute(value)
    }
}

/// Holds its strategy as a trait object, which can be replaced.
pub struct ContextDyn {
    strategy: Box<dyn Strategy>,
}

impl ContextDyn {
    /// Whether the current strategy may be run on `value`.
    pub closed spec fn admits(&self, value: i32) -> bool {
        self.strategy.admits(value)
    }

    /// Whether `r` is a result that the current strategy may give for `value`.
    pub closed spec fn gives(&self, value: i32, r: i32) -> bool {
        self.strategy.gives(value, r)
    }

    pub fn new(strategy: Box<dyn Strategy>) -> (r: Self)
        ensures
            forall|v: i32| r.admits(v) == strategy.admits(v),
            forall|v: i32, x: i32| r.gives(v, x) == strategy.gives(v, x),
    {
        ContextDyn { strategy }
    }

    pub fn set_strategy(&mut self, strategy: Box<dyn Strategy>)
        ensures
            forall|v: i32| final(self).admits(v) == strategy.admits(v),
            forall|v: i32, x: i32| final(self).gives(v, x) == strategy.gives(v, x),
    {
        self.strategy = strategy;
    }

    pub fn execute(&self, value: i32) -> (r: i32)
        requires
            self.admits(value),
        ensures
            self.gives(value, r),
    {
        self.strategy.execute(value)
    }
}

/// Adds a fixed amount.
pub struct AddStrategy {
    pub amount: i32,
}

impl Strategy for AddStrategy {
    open spec fn admits(&self, value: i32) -> bool {
        i32::MIN <= value + self.amount <= i32::MAX
    }

    open spec fn gives(&self, value: i32, r: i32) -> bool {
        r == value + self.amount
    }

    fn execute(&self, value: i32) -> (r: i32) {
        value + self.amount
    }
}

/// Multiplies by a fixed factor.
pub struct MultiplyStrategy {
    pub factor: i32,
}

impl Strategy for MultiplyStrategy {
    open spec fn admits(&self, value: i32) -> bool {
        i32::MIN <= value * self.factor <= i32::MAX
    }

    open spec fn gives(&self, value: i32, r: i32) -> bool {
        r == value * self.factor
    }

    fn execute(&self, value: i32) -> (r: i32) {
        value * self.factor
    }
}

} // verus!

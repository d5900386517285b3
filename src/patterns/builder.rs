//! A builder whose type records which fields have been given, so that
//! `build` exists only once both are set.
use vstd::prelude::*;

use core::marker::PhantomData;

verus! {

pub struct Product {
    pub name: String,
    pub quantity: u32,
}

/// Marks a field that has not been given yet.
pub struct Missing;

/// Marks a field that has been given.
pub struct Present;

/// Whether a marker stands for a field that has been given.
pub trait FieldState {
    spec fn is_set() -> bool;
}

impl FieldState for Missing {
    open spec fn is_set() -> bool {
        false
    }
}

impl FieldState for Present {
    open spec fn is_set() -> bool {
        true
    }
}

pub struct Builder<NameState: FieldState, QuantityState: FieldState> {
    name: Option<String>,
    quantity: Option<u32>,
    _marker: PhantomData<(NameState, QuantityState)>,
}

impl<N: FieldState, Q: FieldState> Builder<N, Q> {
    /// A field holds a value exactly when its marker says it has been given.
    #[verifier::type_invariant]
    closed spec fn markers_agree(self) -> bool {
        &&& self.name.is_some() == N::is_set()
        &&& self.quantity.is_some() == Q::is_set()
    }

    /// The name given so far, if any.
    pub closed spec fn name_given(self) -> Option<Seq<char>> {
        match self.name {
            Some(n) => Some(n@),
            None => None,
        }
    }

    /// The quantity given so far, if any.
    pub closed spec fn quantity_given(self) -> Option<u32> {
        self.quantity
    }
}

impl Builder<Missing, Missing> {
    pub fn new() -> (r: Self)
        ensures
            r.name_given() is None,
            r.quantity_given() is None,
    {
        Builder { name: None, quantity: None, _marker: PhantomData }
    }
}

impl<Q: FieldState> Builder<Missing, Q> {
    pub fn name(self, name: &str) -> (r: Builder<Present, Q>)
        ensures
            r.name_given() == Some(name@),
            r.quantity_given() == self.quantity_given(),
    {
        proof {
            use_type_invariant(&self);
        }
        Builder { name: Some(String::from_str(name)), quantity: self.quantity, _marker: PhantomData }
    }
}

impl<N: FieldState> Builder<N, Missing> {
    pub fn quantity(self, qty: u32) -> (r: Builder<N, Present>)
        ensures
            r.name_given() == self.name_given(),
            r.quantity_given() == Some(qty),
    {
        proof {
            use_type_invariant(&self);
        }
        Builder { name: self.name, quantity: Some(qty), _marker: PhantomData }
    }
}

impl Builder<Present, Present> {
    pub fn build(self) -> (r: Product)
        ensures
            self.name_given() == Some(r.name@),
            self.quantity_given() == Some(r.quantity),
    {
        proof {
            use_type_invariant(&self);
        }
        Product { name: self.name.unwrap(), quantity: self.quantity.unwrap() }
    }
}

} // verus!

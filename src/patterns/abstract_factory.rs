//! Families of furniture made by one factory per style, chosen statically
//! through associated types or at run time through trait objects.
use vstd::prelude::*;

verus! {

pub trait Chair {
    /// The text that `assemble` returns.
    spec fn assembly(&self) -> Seq<char>;

    fn assemble(&self) -> (r: String)
        ensures
            r@ == self.assembly(),
    ;
}

pub trait Sofa {
    /// The text that `assemble` returns.
    spec fn assembly(&self) -> Seq<char>;

    fn assemble(&self) -> (r: String)
        ensures
            r@ == self.assembly(),
    ;
}

/// A factory whose products have types known at compile time.
pub trait FurnitureFactory {
    type C: Chair;

    type S: Sofa;

    /// How the chairs of this factory assemble.
    spec fn chair_assembly(&self) -> Seq<char>;

    /// How the sofas of this factory assemble.
    spec fn sofa_assembly(&self) -> Seq<char>;

    fn create_chair(&self) -> (r: Self::C)
        ensures
            r.assembly() == self.chair_assembly(),
    ;

    fn create_sofa(&self) -> (r: Self::S)
        ensures
            r.assembly() == self.sofa_assembly(),
    ;
}

pub struct ModernChair;

impl Chair for ModernChair {
    open spec fn assembly(&self) -> Seq<char> {
        "Assembling modern chair"@
    }

    fn assemble(&self) -> (r: String) {
        String::from_str("Assembling modern chair")
    }
}

pub struct ModernSofa;

impl Sofa for ModernSofa {
    open spec fn assembly(&self) -> Seq<char> {
        "Assembling modern sofa"@
    }

    fn assemble(&self) -> (r: String) {
        String::from_str("Assembling modern sofa")
    }
}

pub struct VictorianChair;

impl Chair for VictorianChair {
    open spec fn assembly(&self) -> Seq<char> {
        "Assembling Victorian chair"@
    }

    fn assemble(&self) -> (r: String) {
        String::from_str("Assembling Victorian chair")
    }
}

pub struct VictorianSofa;

impl Sofa for VictorianSofa {
    open spec fn assembly(&self) -> Seq<char> {
        "Assembling Victorian sofa"@
    }

    fn assemble(&self) -> (r: String) {
        String::from_str("Assembling Victorian sofa")
    }
}

pub struct ModernFactory;

impl FurnitureFactory for ModernFactory {
    type C = ModernChair;

    type S = ModernSofa;

    open spec fn chair_assembly(&self) -> Seq<char> {
        "Assembling modern chair"@
    }

    open spec fn sofa_assembly(&self) -> Seq<char> {
        "Assembling modern sofa"@
    }

    fn create_chair(&self) -> (r: Self::C) {
        ModernChair
    }

    fn create_sofa(&self) -> (r: Self::S) {
        ModernSofa
    }
}

pub struct VictorianFactory;

impl FurnitureFactory for VictorianFactory {
    type C = VictorianChair;

    type S = VictorianSofa;

    open spec fn chair_assembly(&self) -> Seq<char> {
        "Assembling Victorian chair"@
    }

    open spec fn sofa_assembly(&self) -> Seq<char> {
        "Assembling Victorian sofa"@
    }

    fn create_chair(&self) -> (r: Self::C) {
        VictorianChair
    }

    fn create_sofa(&self) -> (r: Self::S) {
        VictorianSofa
    }
}

} // verus!

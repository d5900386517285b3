//! Elements that hand themselves to a visitor, which does the work.
use vstd::prelude::*;

verus! {

pub trait Visitor {
    /// Whether `visit_element_a` may be called on an element holding `value`.
    spec fn admits_a(&self, value: i32) -> bool;

    /// The sum of the values that the visitor has taken in.
    spec fn total(&self) -> int;

    /// The texts that the visitor has taken in, oldest first.
    spec fn texts_seen(&self) -> Seq<Seq<char>>;

    fn visit_element_a(&mut self, element: &ElementA)
        requires
            old(self).admits_a(element.value),
        ensures
            final(self).total() == old(self).total() + element.value,
            final(self).texts_seen() == old(self).texts_seen(),
    ;

    fn visit_element_b(&mut self, element: &ElementB)
        ensures
            final(self).total() == old(self).total(),
            final(self).texts_seen() == old(self).texts_seen().push(element.text@),
    ;
}

pub trait Element {
    /// The value that this element adds to a visitor's total, if it is an
    /// element that carries one.
    spec fn added_value(&self) -> Option<i32>;

    /// The text that this element adds to a visitor's texts, if it is an
    /// element that carries one.
    spec fn added_text(&self) -> Option<Seq<char>>;

    fn accept(&self, visitor: &mut dyn Visitor)
        requires
            self.added_value() is Some ==> old(visitor).admits_a(self.added_value()->0),
        ensures
            final(visitor).total() == old(visitor).total() + match self.added_value() {
                Some(v) => v as int,
                None => 0,
            },
            final(visitor).texts_seen() == match self.added_text() {
                Some(t) => old(visitor).texts_seen().push(t),
                None => old(visitor).texts_seen(),
            },
    ;
}

pub struct ElementA {
    pub value: i32,
}

impl Element for ElementA {
    open spec fn added_value(&self) -> Option<i32> {
        Some(self.value)
    }

    open spec fn added_text(&self) -> Option<Seq<char>> {
        None
    }

    fn accept(&self, visitor: &mut dyn Visitor) {
        visitor.visit_element_a(self);
    }
}

pub struct ElementB {
    pub text: String,
}

impl Element for ElementB {
    open spec fn added_value(&self) -> Option<i32> {
        None
    }

    open spec fn added_text(&self) -> Option<Seq<char>> {
        Some(self.text@)
    }

    fn accept(&self, visitor: &mut dyn Visitor) {
        visitor.visit_element_b(self);
    }
}

/// Adds up the values of the `ElementA`s and collects the texts of the
/// `ElementB`s that it visits.
pub struct ConcreteVisitor {
    pub sum: i32,
    pub texts: Vec<String>,
}

impl ConcreteVisitor {
    pub fn new() -> (r: Self)
        ensures
            r.total() == 0,
            r.texts_seen() == Seq::<Seq<char>>::empty(),
    {
        ConcreteVisitor { sum: 0, texts: Vec::new() }
    }
}

impl Visitor for ConcreteVisitor {
    open spec fn admits_a(&self, value: i32) -> bool {
        i32::MIN <= self.sum + value <= i32::MAX
    }

    open spec fn total(&self) -> int {
        self.sum as int
    }

    open spec fn texts_seen(&self) -> Seq<Seq<char>> {
        self.texts@.map_values(|t: String| t@)
    }

    fn visit_element_a(&mut self, element: &ElementA) {
        self.sum += element.value;
    }

    fn visit_element_b(&mut self, element: &ElementB) {
        self.texts.push(element.text.clone());
        assert(self.texts@.map_values(|t: String| t@) =~= old(self).texts@.map_values(
            |t: String| t@,
        ).push(element.text@));
    }
}

} // verus!

//! An adapter that gives an old interface the shape of a new one.
use vstd::prelude::*;

verus! {

/// The interface that callers expect.
pub trait Target {
    /// The text that `request` returns.
    spec fn answer(&self) -> Seq<char>;

    fn request(&self) -> (r: String)
        ensures
            r@ == self.answer(),
    ;
}

/// An existing type with an interface of its own.
pub struct Adaptee {
    pub data: String,
}

impl Adaptee {
    pub fn new(data: &str) -> (r: Self)
        ensures
            r.data@ == data@,
    {
        Adaptee { data: String::from_str(data) }
    }

    pub fn specific_request(&self) -> (r: &str)
        ensures
            r@ == self.data@,
    {
        self.data.as_str()
    }
}

/// Serves `Target` by asking the adaptee and framing its answer.
pub struct Adapter {
    adaptee: Adaptee,
}

impl Adapter {
    /// The data of the wrapped adaptee.
    pub closed spec fn data(&self) -> Seq<char> {
        self.adaptee.data@
    }

    pub fn new(adaptee: Adaptee) -> (r: Self)
        ensures
            r.data() == adaptee.data@,
    {
        Adapter { adaptee }
    }
}

impl Target for Adapter {
    open spec fn answer(&self) -> Seq<char> {
        "Adapter: ["@ + self.data() + "]"@
    }

    fn request(&self) -> (r: String) {
        let mut r = String::from_str("Adapter: [");
        r.append(self.adaptee.specific_request());
        r.append("]");
        r
    }
}

} // verus!

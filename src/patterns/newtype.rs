//! A user id that is a `u64` underneath but a type of its own.
use vstd::prelude::*;

verus! {

pub struct UserId(u64);

impl UserId {
    /// The number that this id wraps.
    pub closed spec fn id(&self) -> u64 {
        self.0
    }

    pub fn new(id: u64) -> (r: Self)
        ensures
            r.id() == id,
    {
        UserId(id)
    }

    pub fn value(&self) -> (r: u64)
        ensures
            r == self.id(),
    {
        self.0
    }
}

impl From<u64> for UserId {
    fn from(id: u64) -> (r: Self) {
        UserId(id)
    }
}

impl vstd::std_specs::convert::FromSpecImpl<u64> for UserId {
    open spec fn obeys_from_spec() -> bool {
        true
    }

    closed spec fn from_spec(id: u64) -> UserId {
        UserId(id)
    }
}

impl From<UserId> for u64 {
    fn from(id: UserId) -> (r: u64) {
        id.0
    }
}

impl vstd::std_specs::convert::FromSpecImpl<UserId> for u64 {
    open spec fn obeys_from_spec() -> bool {
        true
    }

    open spec fn from_spec(id: UserId) -> u64 {
        id.id()
    }
}

/// Converting a number into a `UserId` wraps that number.
pub proof fn lemma_from_wraps(id: u64)
    ensures
        <UserId as vstd::std_specs::convert::FromSpec<u64>>::from_spec(id).id() == id,
{
}

} // verus!

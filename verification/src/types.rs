//! Addresses in guest memory.

use vstd::prelude::*;

verus! {

/// A physical or virtual address of the guest. The value zero is the NULL sentinel.
#[derive(Clone, Copy, Debug, PartialEq, Eq, Structural)]
pub struct Address(pub u64);

impl View for Address {
    type V = int;

    open spec fn view(&self) -> int {
        self.0 as int
    }
}

impl Address {
    /// The NULL address.
    pub fn null() -> (a: Address)
        ensures
            a.0 == 0,
    {
        Address(0)
    }

    pub fn new(value: u64) -> (a: Address)
        ensures
            a.0 == value,
    {
        Address(value)
    }

    pub open spec fn spec_is_null(&self) -> bool {
        self.0 == 0
    }

    #[verifier::when_used_as_spec(spec_is_null)]
    pub fn is_null(&self) -> (r: bool)
        ensures
            r == (self.0 == 0),
    {
        self.0 == 0
    }

    pub fn to_umem(&self) -> (v: u64)
        ensures
            v == self.0,
    {
        self.0
    }

    /// The address `offset` bytes further, or `None` where that leaves the 64-bit range.
    pub fn checked_add(&self, offset: u64) -> (r: Option<Address>)
        ensures
            r == if self.0 + offset <= u64::MAX {
                Some(Address((self.0 + offset) as u64))
            } else {
                None::<Address>
            },
    {
        match self.0.checked_add(offset) {
            Some(v) => Some(Address(v)),
            None => None,
        }
    }
}

} // verus!

//! Turning an exclusive borrow into a shared one.
use vstd::prelude::*;

verus! {

/// A value with nothing in it.
#[derive(Debug)]
pub struct Foo;

impl Foo {
    /// Takes the value exclusively and hands it back as a shared reference,
    /// which keeps the exclusive borrow alive for as long as it is used.
    pub fn mutate_and_share(&mut self) -> (r: &Foo)
        ensures
            *r == *old(self),
    {
        &*self
    }

    /// Uses the value through a shared reference.
    pub fn share(&self) {
    }
}

} // verus!

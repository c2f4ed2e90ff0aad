//! Plain references and a one-field box that dereferences to its contents.
use std::ops::Deref;
use vstd::prelude::*;

verus! {

/// Dereferencing a shared reference reads the value it points to.
pub fn test_deref_01() {
    let x: i32 = 5;
    let y = &x;
    assert(5 == x);
    assert(5 == *y);
}

/// A box that holds its value in place.
pub struct MyBox<T>(pub T);

impl<T> MyBox<T> {
    /// A box holding `t`.
    pub fn new(t: T) -> (r: MyBox<T>)
        ensures
            r.0 == t,
    {
        MyBox(t)
    }
}

impl<T> Deref for MyBox<T> {
    type Target = T;

    fn deref(&self) -> (r: &T)
        ensures
            *r == self.0,
    {
        &self.0
    }
}

/// Dereferencing a `MyBox` reads the value it holds.
pub fn test_deref_02() {
    let y = MyBox::new(5i32);
    let v: i32 = *y;
    assert(5 == v);
}

} // verus!

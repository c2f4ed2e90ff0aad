//! Closures that move what they capture, called through `Fn` and `FnMut`.
use vstd::prelude::*;

verus! {

/// Calls a closure that only reads what it captured.
pub fn exec1<F: Fn()>(f: F)
    requires
        f.requires(()),
    ensures
        f.ensures((), ()),
{
    f()
}

/// Calls a closure that may change what it captured.
pub fn exec2<F: FnMut()>(mut f: F)
    requires
        f.requires(()),
    ensures
        f.ensures((), ()),
{
    f()
}

} // verus!

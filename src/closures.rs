//! Closures that capture their environment, and the three kinds of callable.
use vstd::prelude::*;

pub mod fnmove;

verus! {

/// A closure that captures nothing compares its argument with four.
pub fn example_02() {
    let x: i32 = 4;
    let equal_to_x = |z: i32| -> (r: bool)
        ensures
            r == (z == 4),
    {
        z == 4
    };
    let y: i32 = 4;
    let r = equal_to_x(y);
    assert(r);
}

/// Calls `func` once, on three, and hands back what it said.
pub fn fn_once<F>(func: F) -> (r: bool)
    where
        F: FnOnce(usize) -> bool,
    requires
        func.requires((3usize,)),
    ensures
        func.ensures((3usize,), r),
{
    func(3)
}

/// A closure that takes ownership of a vector of three and compares its
/// argument with the vector's length: it holds of three.
pub fn example_03() -> (r: bool)
    ensures
        r,
{
    let x: Vec<i32> = vec![1, 2, 3];
    let has_len_of_x = move |z: usize| -> (r: bool)
        ensures
            r == (z == 3),
    {
        z == x.len()
    };
    fn_once(has_len_of_x)
}

/// Calls `f` once, on `"hello"`.
pub fn exec<'a, F: FnMut(&'a str)>(mut f: F)
    requires
        f.requires(("hello",)),
    ensures
        f.ensures(("hello",), ()),
{
    f("hello")
}

/// Calls `f` once, on `"hello"`.
pub fn exec1<'a, F: FnMut(&'a str)>(mut f: F)
    requires
        f.requires(("hello",)),
    ensures
        f.ensures(("hello",), ()),
{
    f("hello")
}

/// Calls a closure that may be called once.
pub fn diff_exec<F: FnOnce()>(f: F)
    requires
        f.requires(()),
    ensures
        f.ensures((), ()),
{
    f()
}

/// Calls a closure that may change what it captured.
pub fn diff_exec1<F: FnMut()>(mut f: F)
    requires
        f.requires(()),
    ensures
        f.ensures((), ()),
{
    f()
}

/// Calls a closure that only reads what it captured.
pub fn diff_exec2<F: Fn()>(f: F)
    requires
        f.requires(()),
    ensures
        f.ensures((), ()),
{
    f()
}

} // verus!

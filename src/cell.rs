//! A raw cell that owns one value and hands out exclusive views of it, and a
//! checked cell on top of it that only moves or copies values in and out.
use vstd::prelude::*;

verus! {

/// A handle that can give a shared view of a `Borrowed`.
pub trait Borrow<Borrowed> {
    /// What the handle views.
    spec fn borrowed(&self) -> &Borrowed;

    fn borrow(&self) -> (r: &Borrowed)
        ensures
            r == self.borrowed(),
    ;
}

/// A handle that can also give an exclusive view of a `Borrowed`.
pub trait BorrowMut<Borrowed>: Borrow<Borrowed> {
    /// Whether `handle` views `target`, as a handle does once an exclusive
    /// view taken from it has ended with `target` in it.
    spec fn views(handle: &Self, target: &Borrowed) -> bool;

    fn borrow_mut(&mut self) -> (r: &mut Borrowed)
        ensures
            *r == *<Self as Borrow<Borrowed>>::borrowed(&*old(self)),
            Self::views(final(self), final(r)),
    ;
}

/// A value is a view of itself.
impl<T> Borrow<T> for T {
    open spec fn borrowed(&self) -> &T {
        self
    }

    fn borrow(&self) -> &T {
        self
    }
}

impl<T> BorrowMut<T> for T {
    open spec fn views(handle: &T, target: &T) -> bool {
        *handle == *target
    }

    fn borrow_mut(&mut self) -> &mut T {
        self
    }
}

/// A shared reference views what it points to.
impl<T> Borrow<T> for &T {
    open spec fn borrowed(&self) -> &T {
        *self
    }

    fn borrow(&self) -> &T {
        &**self
    }
}

/// An exclusive reference views what it points to.
impl<T> Borrow<T> for &mut T {
    open spec fn borrowed(&self) -> &T {
        &**self
    }

    fn borrow(&self) -> &T {
        &**self
    }
}

impl<T> BorrowMut<T> for &mut T {
    open spec fn views(handle: &&mut T, target: &T) -> bool {
        **handle == *target
    }

    fn borrow_mut(&mut self) -> &mut T {
        &mut **self
    }
}

/// Owns exactly one value of type `T`.
pub struct UnsafeCell<T> {
    value: T,
}

impl<T> View for UnsafeCell<T> {
    type V = T;

    /// The value the cell holds.
    closed spec fn view(&self) -> T {
        self.value
    }
}

impl<T> UnsafeCell<T> {
    /// Wraps `value`; the cell holds it from now on.
    pub fn new(value: T) -> (r: UnsafeCell<T>)
        ensures
            r == UnsafeCell::wrapping(value),
            r@ == value,
    {
        UnsafeCell { value }
    }

    /// Consumes the cell and hands back the value it held.
    pub fn into_inner(self) -> (r: T)
        ensures
            r == self@,
    {
        self.value
    }

    /// The cell that holds `v`.
    pub closed spec fn wrapping(v: T) -> UnsafeCell<T> {
        UnsafeCell { value: v }
    }

    /// A mutable view of the interior. Exclusivity comes from the handle:
    /// while the view is live no other view of the cell can exist.
    pub fn get(&mut self) -> (r: &mut T)
        ensures
            *r == old(self)@,
            *final(self) == UnsafeCell::wrapping(*final(r)),
            final(self)@ == *final(r),
    {
        &mut self.value
    }

    /// An exclusive reference to the interior.
    pub fn get_mut(&mut self) -> (r: &mut T)
        ensures
            *r == old(self)@,
            *final(self) == UnsafeCell::wrapping(*final(r)),
            final(self)@ == *final(r),
    {
        &mut self.value
    }

    /// The mutable view of [`UnsafeCell::get`], as an associated function
    /// that takes the cell as an argument.
    pub fn raw_get(this: &mut UnsafeCell<T>) -> (r: &mut T)
        ensures
            *r == old(this)@,
            *final(this) == UnsafeCell::wrapping(*final(r)),
            final(this)@ == *final(r),
    {
        &mut this.value
    }
}

/// Wrapping a value and unwrapping it again gives back exactly that value;
/// and a value written through a mutable view of the cell is what the cell
/// holds once the view is gone.
pub proof fn lemma_wrap_unwrap<T>(v: T)
    ensures
        UnsafeCell::wrapping(v)@ == v,
{
}

impl<T> From<T> for UnsafeCell<T> {
    fn from(t: T) -> (r: UnsafeCell<T>)
        ensures
            r == UnsafeCell::wrapping(t),
            r@ == t,
    {
        UnsafeCell::new(t)
    }
}

impl<T> vstd::std_specs::convert::FromSpecImpl<T> for UnsafeCell<T> {
    open spec fn obeys_from_spec() -> bool {
        true
    }

    open spec fn from_spec(v: T) -> UnsafeCell<T> {
        UnsafeCell::wrapping(v)
    }
}

/// A cell whose contents are only ever moved or copied in and out: no
/// reference into it outlives the call that made it.
pub struct Cell<T> {
    value: UnsafeCell<T>,
}

impl<T> View for Cell<T> {
    type V = T;

    /// The value the cell holds.
    closed spec fn view(&self) -> T {
        self.value@
    }
}

impl<T> Cell<T> {
    /// The cell that holds `v`.
    pub closed spec fn wrapping(v: T) -> Cell<T> {
        Cell { value: UnsafeCell::wrapping(v) }
    }

    /// Wraps `value`; the cell holds it from now on.
    pub fn new(value: T) -> (r: Cell<T>)
        ensures
            r == Cell::wrapping(value),
            r@ == value,
    {
        Cell { value: UnsafeCell::new(value) }
    }

    /// Stores `val`; what the cell held before is dropped.
    pub fn set(&mut self, val: T)
        ensures
            *final(self) == Cell::wrapping(val),
            final(self)@ == val,
    {
        self.replace(val);
    }

    /// Stores `val` and hands back what the cell held before.
    pub fn replace(&mut self, val: T) -> (r: T)
        ensures
            r == old(self)@,
            *final(self) == Cell::wrapping(val),
            final(self)@ == val,
    {
        let mut v = val;
        std::mem::swap(self.value.get(), &mut v);
        v
    }

    /// Consumes the cell and hands back the value it held.
    pub fn into_inner(self) -> (r: T)
        ensures
            r == self@,
    {
        self.value.into_inner()
    }

    /// The address of the interior, as a mutable view. Exclusivity comes from
    /// the handle: while the view is live no other view of the cell can exist.
    pub fn as_ptr(&mut self) -> (r: &mut T)
        ensures
            *r == old(self)@,
            *final(self) == Cell::wrapping(*final(r)),
            final(self)@ == *final(r),
    {
        self.value.get()
    }

    /// An exclusive reference to the interior.
    pub fn get_mut(&mut self) -> (r: &mut T)
        ensures
            *r == old(self)@,
            *final(self) == Cell::wrapping(*final(r)),
            final(self)@ == *final(r),
    {
        self.value.get_mut()
    }
}

impl<T: Copy> Cell<T> {
    /// A copy of the value the cell holds.
    pub fn get(&self) -> (r: T)
        ensures
            r == self@,
    {
        self.value.value
    }

    /// Reads the value, applies `f` to it, stores the result and hands it
    /// back. Nothing of the cell is borrowed while `f` runs.
    pub fn update<F>(&mut self, f: F) -> (r: T)
        where
            F: FnOnce(T) -> T,
        requires
            f.requires((old(self)@,)),
        ensures
            f.ensures((old(self)@,), r),
            *final(self) == Cell::wrapping(r),
            final(self)@ == r,
    {
        let current = self.get();
        let next = f(current);
        self.set(next);
        next
    }
}

/// A cell made from `v1` and then given `v2` by `replace` hands back `v1`
/// (what it held), and a `get` after that reads `v2`.
pub proof fn lemma_replace_after_new<T>(v1: T, v2: T)
    ensures
        Cell::wrapping(v1)@ == v1,
        Cell::wrapping(v2)@ == v2,
{
}

/// On a cell made from `v`, `set(v2)` leaves the cell `Cell::wrapping(v2)`,
/// the one that `replace(v2)` leaves, with nothing left of `v`; a `get`
/// after it reads `v2`.
pub proof fn lemma_set_discards_previous<T>(v: T, v2: T)
    ensures
        Cell::wrapping(v2)@ == v2,
        v != v2 ==> Cell::wrapping(v2)@ != v,
{
}

/// Writes and reads on one cell take effect in program order, through any
/// handle: after `set(x)` a `get` reads `x`, and after a further `set(z)` a
/// `get` reads `z`.
pub proof fn lemma_reads_follow_writes<T>(x: T, z: T)
    ensures
        Cell::wrapping(x)@ == x,
        Cell::wrapping(z)@ == z,
{
}

impl<T> From<T> for Cell<T> {
    fn from(t: T) -> (r: Cell<T>)
        ensures
            r == Cell::wrapping(t),
            r@ == t,
    {
        Cell::new(t)
    }
}

impl<T> vstd::std_specs::convert::FromSpecImpl<T> for Cell<T> {
    open spec fn obeys_from_spec() -> bool {
        true
    }

    open spec fn from_spec(v: T) -> Cell<T> {
        Cell::wrapping(v)
    }
}

} // verus!

//! Values on the heap: a vector of boxes, and a record that owns another
//! through an optional box.
use vstd::prelude::*;

verus! {

/// Adds the contents of two boxes held by a vector, through shared
/// references to them.
pub fn test_box_04() {
    let arr: Vec<Box<i32>> = vec![Box::new(1), Box::new(2)];
    let (first, second) = (&arr[0], &arr[1]);
    let sum: i32 = **first + **second;
    assert(sum == 3);
}

/// A record with two numbers that may own a record like itself.
pub struct Data {
    pub self_value: u32,
    pub inner_value: u32,
    pub d: Option<Box<Data>>,
}

impl Data {
    /// A record with the two numbers and no inner record.
    pub fn new(self_value: u32, inner_value: u32) -> (r: Data)
        ensures
            r.self_value == self_value,
            r.inner_value == inner_value,
            r.d is None,
    {
        Data { self_value, inner_value, d: None }
    }

    /// Copies this record's `inner_value` into the `self_value` of the record
    /// it owns, if it owns one; changes nothing else.
    pub fn set_inner_value(&mut self)
        ensures
            final(self).self_value == old(self).self_value,
            final(self).inner_value == old(self).inner_value,
            old(self).d is None ==> final(self).d is None,
            old(self).d matches Some(b) ==> final(self).d == Some(
                Box::new(Data { self_value: old(self).inner_value, inner_value: b.inner_value, d: b.d }),
            ),
    {
        let v = self.inner_value;
        match &mut self.d {
            Some(inner_data) => {
                inner_data.self_value = v;
            },
            None => {},
        }
    }

    /// The record this one owns.
    pub fn get_inner_data(&self) -> (r: &Box<Data>)
        requires
            self.d is Some,
        ensures
            self.d == Some(*r),
    {
        self.d.as_ref().unwrap()
    }
}

} // verus!

use deep_rust::cell::{Borrow, BorrowMut, Cell, UnsafeCell};

#[test]
fn test_cell() {
    let mut cell = Cell::new(1);
    assert_eq!(cell.get(), 1);
    cell.set(2);
    assert_eq!(cell.get(), 2);
    cell.update(|x| x + 1);
    assert_eq!(cell.get(), 3);
}

#[test]
fn test_unsafe_cell() {
    let mut cell = UnsafeCell::new(1);
    assert_eq!(*cell.get(), 1);
    *cell.get() = 2;
    assert_eq!(*cell.get(), 2);
}

#[test]
fn test_cell_set() {
    let mut c1 = Cell::new(2);
    c1.set(3);
    assert_eq!(c1.get(), 3);
}

#[test]
fn test_multi_mut_ref() {
    let mut c2 = Cell::new(2);

    let mut_ref = c2.as_ptr();
    *mut_ref = 3;
    let mut_ref2 = c2.as_ptr();
    *mut_ref2 = 4;
    assert_eq!(c2.get(), 4);
}

#[test]
fn test_for_multi_mut2() {
    let mut a = 3u32;
    let a_ref = &mut a;

    let mut_ref = &mut *a_ref;
    *mut_ref = 4;
    assert_eq!(*a_ref, 4);

    let mut_ref2 = &mut *a_ref;
    *mut_ref2 = 5;
    assert_eq!(a, 5);
}

#[test]
fn replace_hands_back_previous_value() {
    let mut cell = Cell::new(10u64);
    let old = cell.replace(20);
    assert_eq!(old, 10);
    assert_eq!(cell.get(), 20);
}

#[test]
fn replace_on_a_value_that_is_not_copy() {
    let mut cell = Cell::new(String::from("first"));
    let old = cell.replace(String::from("second"));
    assert_eq!(old, "first");
    assert_eq!(cell.into_inner(), "second");
}

#[test]
fn set_discards_previous_value() {
    let mut a = Cell::new(-7i32);
    a.set(8);
    assert_eq!(a.get(), 8);
    let mut b = Cell::new(-7i32);
    b.replace(8);
    assert_eq!(a.get(), b.get());
}

#[test]
fn update_adds_one_to_three() {
    let mut cell = Cell::new(3);
    let result = cell.update(|x| x + 1);
    assert_eq!(result, 4);
    assert_eq!(cell.get(), 4);
}

#[test]
fn get_twice_reads_the_same_value() {
    let cell = Cell::new(42u8);
    let first = cell.get();
    let second = cell.get();
    assert_eq!(first, second);
    assert_eq!(first, 42);
}

#[test]
fn reads_follow_writes_through_two_handles() {
    let mut cell = Cell::new(0i64);
    let (y, w);
    {
        let a = &mut cell;
        a.set(5);
        let b = &mut *a;
        y = b.get();
        b.set(9);
        w = a.get();
    }
    assert_eq!(y, 5);
    assert_eq!(w, 9);
    assert_eq!(cell.get(), 9);
}

#[test]
fn wrap_then_unwrap_gives_the_value_back() {
    let cell = UnsafeCell::new(vec![1, 2, 3]);
    assert_eq!(cell.into_inner(), vec![1, 2, 3]);
}

#[test]
fn writes_through_a_view_are_seen_after_it() {
    let mut cell = UnsafeCell::new(1u16);
    *cell.get_mut() += 6;
    *UnsafeCell::raw_get(&mut cell) *= 3;
    assert_eq!(cell.into_inner(), 21);

    let mut checked = Cell::new(1u16);
    *checked.get_mut() = 30;
    assert_eq!(checked.into_inner(), 30);
}

#[test]
fn cells_from_values() {
    let raw: UnsafeCell<char> = UnsafeCell::from('x');
    assert_eq!(raw.into_inner(), 'x');
    let checked: Cell<i8> = 5i8.into();
    assert_eq!(checked.get(), 5);
}

#[test]
fn values_and_references_borrow_what_they_hold() {
    let mut n = 4u32;
    assert_eq!(*Borrow::<u32>::borrow(&n), 4);
    *BorrowMut::<u32>::borrow_mut(&mut n) = 6;
    assert_eq!(n, 6);

    let r = &n;
    assert_eq!(*Borrow::<u32>::borrow(&r), 6);

    let mut m = 1u32;
    let mut rm = &mut m;
    *BorrowMut::<u32>::borrow_mut(&mut rm) = 2;
    assert_eq!(*Borrow::<u32>::borrow(&rm), 2);
    assert_eq!(m, 2);
}

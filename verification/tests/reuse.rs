use std::cell::Cell;
use std::rc::Rc;

use protobuf::Clear;
use protobuf::SingularPtrField;

#[derive(Debug, PartialEq, Clone)]
struct Point {
    x: i32,
    y: i32,
}

impl Default for Point {
    fn default() -> Point {
        Point { x: 0, y: 0 }
    }
}

impl Clear for Point {
    fn clear(&mut self) {
        self.x = 0;
        self.y = 0;
    }
}

/// Counts how often it was reset in place, to tell a reset value from a
/// fresh default.
#[derive(Debug, PartialEq)]
struct Probe {
    value: i32,
    resets: u32,
}

impl Default for Probe {
    fn default() -> Probe {
        Probe { value: 0, resets: 0 }
    }
}

impl Clear for Probe {
    fn clear(&mut self) {
        self.value = 0;
        self.resets += 1;
    }
}

/// Counts its own teardown.
struct Tracker {
    drops: Rc<Cell<u32>>,
}

impl Drop for Tracker {
    fn drop(&mut self) {
        self.drops.set(self.drops.get() + 1);
    }
}

fn address_of<T>(value: &T) -> String {
    format!("{:p}", value)
}

#[test]
fn clear_on_none_leaves_it_absent() {
    let mut f = SingularPtrField::<Point>::none();
    f.clear();
    assert!(f.is_none());
    assert!(!f.is_some());
    assert_eq!(f.into_option(), None);
}

#[test]
fn clear_on_some_makes_it_absent() {
    let mut f = SingularPtrField::some(Point { x: 1, y: 2 });
    f.clear();
    assert!(f.is_none());
    assert_eq!(f.as_ref(), None);
    assert_eq!(f.into_option(), None);
}

#[test]
fn clear_twice_is_clear_once() {
    let mut f = SingularPtrField::some(Point { x: 1, y: 2 });
    f.clear();
    f.clear();
    assert!(f.is_none());
}

#[test]
fn clear_does_not_tear_the_value_down() {
    let drops = Rc::new(Cell::new(0));
    let mut f = SingularPtrField::some(Tracker { drops: drops.clone() });
    f.clear();
    assert!(f.is_none());
    assert_eq!(drops.get(), 0);
    drop(f);
    assert_eq!(drops.get(), 1);
}

#[test]
fn take_hands_the_value_over_alive() {
    let drops = Rc::new(Cell::new(0));
    let mut f = SingularPtrField::some(Tracker { drops: drops.clone() });
    let taken = f.take();
    assert!(taken.is_some());
    assert_eq!(drops.get(), 0);
    drop(f);
    assert_eq!(drops.get(), 0);
    drop(taken);
    assert_eq!(drops.get(), 1);
}

#[test]
fn set_default_after_clear_gives_the_default() {
    let mut f = SingularPtrField::some(Point { x: 1, y: 2 });
    f.clear();
    assert_eq!(*f.set_default(), Point::default());
    assert!(f.is_some());
    assert_eq!(f.as_ref(), Some(&Point { x: 0, y: 0 }));
}

#[test]
fn set_default_after_clear_reuses_the_storage() {
    let mut f = SingularPtrField::some(Point { x: 1, y: 2 });
    let before = address_of(f.get_ref());
    f.clear();
    let after = address_of(f.set_default());
    assert_eq!(before, after);
    assert_eq!(address_of(f.get_ref()), before);
}

#[test]
fn set_default_after_clear_resets_in_place() {
    let mut f = SingularPtrField::some(Probe { value: 5, resets: 0 });
    f.clear();
    assert_eq!(*f.set_default(), Probe { value: 0, resets: 1 });
}

#[test]
fn set_default_on_a_present_field_resets_in_place() {
    let mut f = SingularPtrField::some(Probe { value: 5, resets: 0 });
    let before = address_of(f.get_ref());
    assert_eq!(*f.set_default(), Probe { value: 0, resets: 1 });
    assert_eq!(address_of(f.get_ref()), before);
    assert!(f.is_some());
}

#[test]
fn set_default_on_none_makes_a_fresh_default() {
    let mut f = SingularPtrField::<Probe>::none();
    assert_eq!(*f.set_default(), Probe { value: 0, resets: 0 });
    assert!(f.is_some());
    assert_eq!(f.into_option(), Some(Probe::default()));
}

#[test]
fn set_default_after_take_makes_a_fresh_default() {
    let mut f = SingularPtrField::some(Probe { value: 5, resets: 0 });
    assert_eq!(f.take(), Some(Probe { value: 5, resets: 0 }));
    assert_eq!(*f.set_default(), Probe { value: 0, resets: 0 });
}

#[test]
fn set_default_lends_the_value_of_the_field() {
    let mut f = SingularPtrField::<Point>::none();
    f.set_default().x = 9;
    assert_eq!(f.as_ref(), Some(&Point { x: 9, y: 0 }));
}

#[test]
fn point_cleared_then_set_to_default() {
    let mut f = SingularPtrField::some(Point { x: 1, y: 2 });
    let storage = address_of(f.get_ref());
    f.clear();
    assert!(f.is_none());
    assert_eq!(f.as_ref(), None);
    assert!(f.as_mut().is_none());
    let p = f.set_default();
    assert_eq!(*p, Point { x: 0, y: 0 });
    assert_eq!(address_of(p), storage);
}

#[test]
fn unwrap_or_default_of_none_is_the_default() {
    assert_eq!(SingularPtrField::<Point>::none().unwrap_or_default(), Point::default());
    assert_eq!(
        SingularPtrField::<Probe>::none().unwrap_or_default(),
        Probe { value: 0, resets: 0 }
    );
}

#[test]
fn unwrap_or_default_of_some_is_the_value() {
    assert_eq!(
        SingularPtrField::some(Point { x: 3, y: 4 }).unwrap_or_default(),
        Point { x: 3, y: 4 }
    );
    assert_eq!(
        SingularPtrField::some(Probe { value: 3, resets: 0 }).unwrap_or_default(),
        Probe { value: 3, resets: 0 }
    );
}

#[test]
fn unwrap_or_default_of_cleared_resets_what_is_retained() {
    let mut f = SingularPtrField::some(Probe { value: 3, resets: 0 });
    f.clear();
    assert_eq!(f.unwrap_or_default(), Probe { value: 0, resets: 1 });
    let mut g = SingularPtrField::some(Point { x: 3, y: 4 });
    g.clear();
    assert_eq!(g.unwrap_or_default(), Point::default());
}

#[test]
fn a_cleared_field_can_be_set_again() {
    let mut f = SingularPtrField::some(Point { x: 1, y: 2 });
    f.clear();
    f = SingularPtrField::some(Point { x: 5, y: 6 });
    assert_eq!(f.as_ref(), Some(&Point { x: 5, y: 6 }));
}

#[test]
fn retained_storage_is_released_with_the_field() {
    let drops = Rc::new(Cell::new(0));
    {
        let mut f = SingularPtrField::some(Tracker { drops: drops.clone() });
        f.clear();
        assert_eq!(drops.get(), 0);
    }
    assert_eq!(drops.get(), 1);
}

#[test]
fn a_vector_field_is_reset_in_its_own_buffer() {
    let mut items = Vec::with_capacity(64);
    items.push(1u8);
    let mut f = SingularPtrField::some(items);
    f.clear();
    let v = f.set_default();
    assert!(v.is_empty());
    assert!(v.capacity() >= 64);
    assert_eq!(SingularPtrField::<Vec<u8>>::none().unwrap_or_default(), Vec::<u8>::new());
}

#[test]
fn an_optional_value_clears_to_none() {
    let mut o = Some(3u8);
    Clear::clear(&mut o);
    assert_eq!(o, None);
    let mut f = SingularPtrField::some(Some(3u8));
    assert_eq!(*f.set_default(), None);
    assert_eq!(f.into_option(), Some(None));
}

#[test]
fn a_vector_clears_to_empty() {
    let mut v = vec![1u8, 2, 3];
    Clear::clear(&mut v);
    assert!(v.is_empty());
}

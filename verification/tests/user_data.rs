use std::cell::Cell;
use std::rc::Rc;

use gbm::{Bo, BoFlags, BoFormat, Device};

/// A payload that counts how many times its own cleanup ran.
struct Counting {
    hits: Rc<Cell<u32>>,
}

impl Drop for Counting {
    fn drop(&mut self) {
        self.hits.set(self.hits.get() + 1);
    }
}

const TAG_A: u64 = 1;
const TAG_B: u64 = 2;

fn make_bo<T>() -> Bo<T> {
    let mut d = Device::create(3).unwrap();
    d.bo_create(8, 8, BoFormat::XRGB8888, BoFlags::new().write(true))
}

#[test]
fn user_data_round_trips_under_its_tag() {
    let mut b: Bo<String> = make_bo();
    assert!(!b.has_user_data());
    assert!(b.set_user_data(TAG_A, String::from("frame")).is_ok());
    assert!(b.has_user_data());
    assert_eq!(b.get_user_data(TAG_A), Some(&String::from("frame")));
    assert_eq!(b.get_user_data(TAG_B), None);
}

#[test]
fn occupied_slot_refuses_second_attach() {
    let mut b: Bo<u32> = make_bo();
    assert!(b.set_user_data(TAG_A, 7).is_ok());
    let r = b.set_user_data(TAG_B, 8);
    assert_eq!(r, Err(8));
    assert_eq!(b.get_user_data(TAG_A), Some(&7));
    assert_eq!(b.get_user_data(TAG_B), None);
}

#[test]
fn take_clears_the_slot_for_reattach() {
    let mut b: Bo<u32> = make_bo();
    assert!(b.set_user_data(TAG_A, 7).is_ok());
    assert_eq!(b.take_user_data(TAG_B), None);
    assert!(b.has_user_data());
    assert_eq!(b.take_user_data(TAG_A), Some(7));
    assert!(!b.has_user_data());
    assert_eq!(b.get_user_data(TAG_A), None);
    assert!(b.set_user_data(TAG_B, 9).is_ok());
    assert_eq!(b.get_user_data(TAG_B), Some(&9));
}

#[test]
fn user_data_mut_changes_in_place() {
    let mut b: Bo<u32> = make_bo();
    assert!(b.set_user_data(TAG_A, 7).is_ok());
    assert_eq!(b.get_user_data_mut(TAG_B), None);
    if let Some(v) = b.get_user_data_mut(TAG_A) {
        *v = 11;
    } else {
        panic!("payload under its own tag must be reachable");
    }
    assert_eq!(b.get_user_data(TAG_A), Some(&11));
}

#[test]
fn destroying_a_buffer_cleans_its_payload_exactly_once() {
    let hits = Rc::new(Cell::new(0));
    let mut b: Bo<Counting> = make_bo();
    assert!(b
        .set_user_data(TAG_A, Counting { hits: Rc::clone(&hits) })
        .is_ok());
    assert_eq!(hits.get(), 0);
    drop(b);
    assert_eq!(hits.get(), 1);
}

#[test]
fn taken_payload_is_cleaned_by_its_new_owner_only() {
    let hits = Rc::new(Cell::new(0));
    let mut b: Bo<Counting> = make_bo();
    assert!(b
        .set_user_data(TAG_A, Counting { hits: Rc::clone(&hits) })
        .is_ok());
    let taken = b.take_user_data(TAG_A);
    assert!(taken.is_some());
    assert_eq!(hits.get(), 0);
    drop(b);
    assert_eq!(hits.get(), 0);
    drop(taken);
    assert_eq!(hits.get(), 1);
}

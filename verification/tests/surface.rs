use std::cell::Cell;
use std::rc::Rc;

use gbm::surface::SURFACE_BUFFER_COUNT;
use gbm::{BoFlags, BoFormat, Device, Surface};

/// A payload that counts how many times its own cleanup ran.
struct Counting {
    hits: Rc<Cell<u32>>,
}

impl Drop for Counting {
    fn drop(&mut self) {
        self.hits.set(self.hits.get() + 1);
    }
}

fn make_surface<T>() -> Surface<T> {
    let mut d = Device::create(3).unwrap();
    d.surface_create(32, 32, BoFormat::XRGB8888, BoFlags::new().scanout(true))
}

#[test]
fn surface_capabilities() {
    let s: Surface<u32> = make_surface();
    assert!(s.needs_lock_front_buffer());
    assert!(s.has_free_buffers());
}

#[test]
fn locked_buffer_matches_surface_geometry() {
    let mut s: Surface<u32> = make_surface();
    let b = s.lock_front_buffer().unwrap();
    assert_eq!(b.get_width(), 32);
    assert_eq!(b.get_height(), 32);
    assert_eq!(b.get_stride(), 32 * 4);
    assert_eq!(b.get_format(), BoFormat::XRGB8888);
    s.release_buffer(b);
}

#[test]
fn exhausted_pool_yields_nothing() {
    let mut s: Surface<u32> = make_surface();
    let mut held = Vec::new();
    for _ in 0..SURFACE_BUFFER_COUNT {
        held.push(s.lock_front_buffer().unwrap());
    }
    assert!(!s.has_free_buffers());
    assert!(s.lock_front_buffer().is_none());

    s.release_buffer(held.pop().unwrap());
    assert!(s.has_free_buffers());
    assert!(s.lock_front_buffer().is_some());
}

#[test]
fn release_does_not_run_buffer_cleanup() {
    let hits = Rc::new(Cell::new(0));
    let mut s: Surface<Counting> = make_surface();
    let mut b = s.lock_front_buffer().unwrap();
    assert!(b
        .set_user_data(1, Counting { hits: Rc::clone(&hits) })
        .is_ok());
    s.release_buffer(b);
    assert_eq!(hits.get(), 0);
    drop(s);
    assert_eq!(hits.get(), 1);
}

#[test]
fn payload_survives_a_release_and_relock() {
    let mut s: Surface<u32> = make_surface();
    let mut b = s.lock_front_buffer().unwrap();
    let handle = b.get_handle();
    assert!(b.set_user_data(1, 77).is_ok());
    s.release_buffer(b);
    let again = s.lock_front_buffer().unwrap();
    assert_eq!(again.get_handle(), handle);
    assert_eq!(again.get_user_data(1), Some(&77));
    s.release_buffer(again);
}

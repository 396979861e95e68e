use std::cell::{Cell, RefCell};

use pagestate::disposer::PageDisposer;

#[test]
fn first_update_disposes_of_nothing() {
    let mut disposer: PageDisposer<u32> = PageDisposer::new();
    let mut disposed: Vec<u32> = Vec::new();
    disposer.update(1, |old| disposed.push(old));
    assert!(disposed.is_empty());
    assert_eq!(disposer.retire(), Some(1));
}

#[test]
fn second_update_disposes_of_the_first_handle_once() {
    let mut disposer: PageDisposer<&str> = PageDisposer::new();
    let disposed: RefCell<Vec<&str>> = RefCell::new(Vec::new());
    disposer.update("h1", |old| disposed.borrow_mut().push(old));
    disposer.update("h2", |old| disposed.borrow_mut().push(old));
    assert_eq!(*disposed.borrow(), vec!["h1"]);
}

#[test]
fn handle_is_disposed_of_by_the_update_that_follows_its_own() {
    let mut disposer: PageDisposer<&str> = PageDisposer::new();
    let disposed: RefCell<Vec<&str>> = RefCell::new(Vec::new());
    for handle in ["h1", "h2", "h3"] {
        disposer.update(handle, |old| disposed.borrow_mut().push(old));
        assert!(!disposed.borrow().contains(&handle));
    }
    assert_eq!(*disposed.borrow(), vec!["h1", "h2"]);
}

#[test]
fn every_handle_but_the_last_is_disposed_of_in_order() {
    let mut disposer: PageDisposer<u32> = PageDisposer::new();
    let mut disposed: Vec<u32> = Vec::new();
    for handle in 0..100u32 {
        disposer.update(handle, |old| disposed.push(old));
    }
    let expected: Vec<u32> = (0..99u32).collect();
    assert_eq!(disposed, expected);
    assert_eq!(disposer.retire(), Some(99));
}

#[test]
fn new_handle_is_installed_after_the_old_one_is_disposed_of() {
    let mut disposer: PageDisposer<u32> = PageDisposer::new();
    let clock = Cell::new(0u32);
    let disposed_at = Cell::new(None);
    disposer.update(1, |_| ());
    disposer.update(2, |old| {
        clock.set(clock.get() + 1);
        disposed_at.set(Some((old, clock.get())));
    });
    clock.set(clock.get() + 1);
    assert_eq!(disposed_at.get(), Some((1, 1)));
    assert_eq!(disposer.retire(), Some(2));
}

#[test]
fn retire_empties_the_slot() {
    let mut disposer: PageDisposer<String> = PageDisposer::new();
    assert_eq!(disposer.retire(), None);
    assert_eq!(disposer.install("scope of page one".to_string()), None);
    assert_eq!(disposer.retire(), Some("scope of page one".to_string()));
    assert_eq!(disposer.retire(), None);
}

#[test]
fn install_after_retire_displaces_nothing() {
    let mut disposer: PageDisposer<u32> = PageDisposer::new();
    assert_eq!(disposer.install(1), None);
    assert_eq!(disposer.retire(), Some(1));
    assert_eq!(disposer.install(2), None);
    assert_eq!(disposer.retire(), Some(2));
}

#[test]
fn install_on_a_held_handle_hands_it_back() {
    let mut disposer: PageDisposer<u32> = PageDisposer::new();
    assert_eq!(disposer.install(1), None);
    assert_eq!(disposer.install(2), Some(1));
    assert_eq!(disposer.retire(), Some(2));
}

#[test]
fn default_slot_is_empty() {
    let mut disposer: PageDisposer<u32> = PageDisposer::default();
    assert_eq!(disposer.retire(), None);
}

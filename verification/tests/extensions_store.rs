//! Tests for the type-indexed extension store: operations on one type never
//! observe or affect values stored under another type.

use iron::extensions::Extensions;

#[derive(Debug, PartialEq, Clone)]
struct Counter(u32);

#[derive(Debug, PartialEq, Clone)]
struct Tag(u32);

#[derive(Debug, PartialEq, Clone)]
struct Note(String);

#[test]
fn get_on_empty_store_is_absent() {
    let ext = Extensions::new();
    assert_eq!(ext.get::<Counter>(), None);
}

#[test]
fn set_then_get_returns_the_stored_value() {
    let mut ext = Extensions::new();
    ext.set(Counter(7));
    assert_eq!(ext.get::<Counter>(), Some(&Counter(7)));
}

#[test]
fn set_replaces_the_prior_value_of_the_same_type() {
    let mut ext = Extensions::new();
    ext.set(Counter(1));
    ext.set(Counter(2));
    assert_eq!(ext.get::<Counter>(), Some(&Counter(2)));
}

#[test]
fn structurally_identical_types_never_collide() {
    // Counter and Tag have the same shape but are distinct types.
    let mut ext = Extensions::new();
    ext.set(Counter(1));
    ext.set(Tag(2));
    assert_eq!(ext.get::<Counter>(), Some(&Counter(1)));
    assert_eq!(ext.get::<Tag>(), Some(&Tag(2)));
    ext.set(Counter(3));
    assert_eq!(ext.get::<Tag>(), Some(&Tag(2)));
    let removed = ext.remove::<Tag>();
    assert_eq!(removed, Some(Tag(2)));
    assert_eq!(ext.get::<Counter>(), Some(&Counter(3)));
}

#[test]
fn remove_then_get_is_absent() {
    let mut ext = Extensions::new();
    ext.set(Note(String::from("hello")));
    assert_eq!(ext.remove::<Note>(), Some(Note(String::from("hello"))));
    assert_eq!(ext.get::<Note>(), None);
    assert_eq!(ext.remove::<Note>(), None);
}

#[test]
fn mixed_operation_sequence_across_types() {
    let mut ext = Extensions::new();
    ext.set(Counter(10));
    ext.set(Note(String::from("a")));
    assert_eq!(ext.remove::<Counter>(), Some(Counter(10)));
    assert_eq!(ext.get::<Counter>(), None);
    assert_eq!(ext.get::<Note>(), Some(&Note(String::from("a"))));
    ext.set(Counter(11));
    ext.set(Note(String::from("b")));
    assert_eq!(ext.get::<Counter>(), Some(&Counter(11)));
    assert_eq!(ext.get::<Note>(), Some(&Note(String::from("b"))));
}

#[test]
fn get_mut_changes_the_stored_value_in_place() {
    let mut ext = Extensions::new();
    ext.set(Counter(1));
    if let Some(c) = ext.get_mut::<Counter>() {
        c.0 = 5;
    } else {
        panic!("value must be present");
    }
    assert_eq!(ext.get::<Counter>(), Some(&Counter(5)));
    assert_eq!(ext.get_mut::<Tag>(), None);
}

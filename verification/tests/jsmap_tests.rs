//! Insertion-ordered map tests: set/get, size, delete, clear, has, and
//! the insertion-order guarantees of keys, values and entries.

use jsfront::jsmap::{JsMap, JsValue};

fn s(text: &str) -> JsValue {
    JsValue::String(text.chars().collect())
}

#[test]
fn set_and_get() {
    let mut map = JsMap::new();
    map.set(s("Key-1"), s("Value-1"));
    map.set(s("Key-2"), JsValue::Integer(10));
    assert_eq!(map.get_size(), 2);
    assert_eq!(map.get(&s("Key-1")), s("Value-1"));
    assert_eq!(map.get(&s("Key-2")), JsValue::Integer(10));
}

#[test]
fn get_missing_is_undefined() {
    let map = JsMap::new();
    assert_eq!(map.get(&s("missing")), JsValue::Undefined);
}

#[test]
fn set_existing_key_updates_in_place() {
    let mut map = JsMap::new();
    map.set(s("a"), JsValue::Integer(1));
    map.set(s("b"), JsValue::Integer(2));
    map.set(s("a"), JsValue::Integer(3));
    assert_eq!(map.get_size(), 2);
    assert_eq!(map.get(&s("a")), JsValue::Integer(3));
    // The updated key keeps its original position.
    let keys = map.keys();
    assert_eq!(keys, vec![s("a"), s("b")]);
}

#[test]
fn delete_removes_one_entry() {
    let mut map = JsMap::new();
    map.set(s("foo"), s("bar"));
    map.set(s("hello"), s("world"));
    assert!(map.delete(&s("foo")));
    assert_eq!(map.get_size(), 1);
    assert_eq!(map.get(&s("foo")), JsValue::Undefined);
    assert!(!map.delete(&s("foo")));
}

#[test]
fn clear_removes_everything() {
    let mut map = JsMap::new();
    map.set(s("foo"), s("bar"));
    map.set(s("hello"), s("world"));
    map.clear();
    assert_eq!(map.get_size(), 0);
}

#[test]
fn has_reports_membership() {
    let mut map = JsMap::new();
    map.set(s("foo"), s("bar"));
    assert!(map.has(&s("foo")));
    assert!(!map.has(&s("baz")));
}

#[test]
fn iteration_order_is_insertion_order() {
    let mut map = JsMap::new();
    map.set(JsValue::Integer(3), s("three"));
    map.set(JsValue::Integer(1), s("one"));
    map.set(JsValue::Integer(2), s("two"));
    assert_eq!(
        map.keys(),
        vec![JsValue::Integer(3), JsValue::Integer(1), JsValue::Integer(2)]
    );
    assert_eq!(map.values(), vec![s("three"), s("one"), s("two")]);
    assert_eq!(
        map.entries(),
        vec![
            (JsValue::Integer(3), s("three")),
            (JsValue::Integer(1), s("one")),
            (JsValue::Integer(2), s("two")),
        ]
    );
}

#[test]
fn distinct_value_kinds_are_distinct_keys() {
    let mut map = JsMap::new();
    map.set(JsValue::Null, JsValue::Integer(1));
    map.set(JsValue::Undefined, JsValue::Integer(2));
    map.set(JsValue::Boolean(false), JsValue::Integer(3));
    assert_eq!(map.get_size(), 3);
    assert_eq!(map.get(&JsValue::Null), JsValue::Integer(1));
    assert_eq!(map.get(&JsValue::Undefined), JsValue::Integer(2));
    assert_eq!(map.get(&JsValue::Boolean(false)), JsValue::Integer(3));
}

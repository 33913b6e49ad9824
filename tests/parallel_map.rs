use parallel_map::{ParallelMap, Table};
use std::sync::Arc;

#[test]
fn test_basic_operation() {
    let mut m = ParallelMap::new();
    m.put(String::from("a"), Arc::new(String::from("a-value")));
    m.put(String::from("b"), Arc::new(String::from("b-value")));
    m.put(String::from("c"), Arc::new(String::from("c-value")));
    assert_eq!(m.get("a"), Some(Arc::new(String::from("a-value"))));
    m.del("a");
    assert_eq!(m.get("a"), None);
}

#[test]
fn basic_scenario_leaves_other_keys() {
    let mut m = ParallelMap::new();
    m.put(String::from("a"), Arc::new(String::from("a-value")));
    m.put(String::from("b"), Arc::new(String::from("b-value")));
    m.put(String::from("c"), Arc::new(String::from("c-value")));
    m.del("a");
    assert_eq!(m.get("a"), None);
    assert_eq!(m.get("b"), Some(Arc::new(String::from("b-value"))));
    assert_eq!(m.get("c"), Some(Arc::new(String::from("c-value"))));
}

#[test]
fn new_map_has_no_keys() {
    let m: ParallelMap<u64> = ParallelMap::new();
    assert_eq!(m.get(""), None);
    assert_eq!(m.get("a"), None);
    assert_eq!(m.get("0"), None);
}

#[test]
fn put_then_get_gives_value() {
    let mut m = ParallelMap::new();
    m.put(String::from("k"), Arc::new(7u64));
    assert_eq!(m.get("k"), Some(Arc::new(7u64)));
    m.put(String::from("other"), Arc::new(8u64));
    assert_eq!(m.get("k"), Some(Arc::new(7u64)));
}

#[test]
fn put_with_empty_key() {
    let mut m = ParallelMap::new();
    m.put(String::new(), Arc::new(1u64));
    assert_eq!(m.get(""), Some(Arc::new(1u64)));
    assert_eq!(m.get(" "), None);
}

#[test]
fn overwrite_keeps_only_second_value() {
    let mut m = ParallelMap::new();
    m.put(String::from("k"), Arc::new(String::from("first")));
    m.put(String::from("k"), Arc::new(String::from("second")));
    assert_eq!(m.get("k"), Some(Arc::new(String::from("second"))));
    m.del("k");
    assert_eq!(m.get("k"), None);
}

#[test]
fn delete_of_absent_key_changes_nothing() {
    let mut m = ParallelMap::new();
    m.put(String::from("x"), Arc::new(3i32));
    m.del("y");
    assert_eq!(m.get("y"), None);
    assert_eq!(m.get("x"), Some(Arc::new(3i32)));
    m.del("x");
    m.del("x");
    assert_eq!(m.get("x"), None);
}

#[test]
fn clones_see_each_others_writes() {
    let mut a = ParallelMap::new();
    let mut b = a.clone();
    a.put(String::from("shared"), Arc::new(10u32));
    assert_eq!(b.get("shared"), Some(Arc::new(10u32)));
    b.put(String::from("shared"), Arc::new(11u32));
    assert_eq!(a.get("shared"), Some(Arc::new(11u32)));
    let c = b.clone();
    b.del("shared");
    assert_eq!(a.get("shared"), None);
    assert_eq!(c.get("shared"), None);
}

#[test]
fn table_lives_while_a_clone_remains() {
    let mut a = ParallelMap::new();
    a.put(String::from("k"), Arc::new(5u8));
    let b = a.clone();
    drop(a);
    assert_eq!(b.get("k"), Some(Arc::new(5u8)));
}

#[test]
fn value_obtained_stays_unchanged() {
    let mut m = ParallelMap::new();
    m.put(String::from("k"), Arc::new(vec![1u8, 2, 3]));
    let held = m.get("k").unwrap();
    m.put(String::from("k"), Arc::new(vec![9u8]));
    assert_eq!(*held, vec![1u8, 2, 3]);
    m.del("k");
    assert_eq!(*held, vec![1u8, 2, 3]);
    assert_eq!(m.get("k"), None);
}

#[test]
fn get_shares_the_stored_value() {
    let mut m = ParallelMap::new();
    let v = Arc::new(String::from("payload"));
    m.put(String::from("k"), v.clone());
    let got = m.get("k").unwrap();
    assert!(Arc::ptr_eq(&v, &got));
}

#[test]
fn populated_keys_through_many_handles() {
    let mut m = ParallelMap::new();
    for i in 0..1000u64 {
        m.put(i.to_string(), Arc::new(2 * i));
    }
    let mut writer = m.clone();
    for i in 2000..3000u64 {
        writer.put(i.to_string(), Arc::new(2 * i));
    }
    let reader = m.clone();
    for i in 0..1000u64 {
        let v = reader.get(&i.to_string()).expect("value should exist");
        assert_eq!(v, Arc::new(2 * i));
    }
    for i in 1000..2000u64 {
        assert_eq!(reader.get(&i.to_string()), None);
    }
    for i in 2000..3000u64 {
        assert_eq!(m.get(&i.to_string()), Some(Arc::new(2 * i)));
    }
}

#[test]
fn table_put_get_del() {
    let mut t = Table::new();
    assert_eq!(t.get("a"), None);
    t.put(String::from("a"), Arc::new(1i64));
    t.put(String::from("b"), Arc::new(2i64));
    assert_eq!(t.get("a"), Some(Arc::new(1i64)));
    t.put(String::from("a"), Arc::new(-1i64));
    assert_eq!(t.get("a"), Some(Arc::new(-1i64)));
    t.del("a");
    assert_eq!(t.get("a"), None);
    assert_eq!(t.get("b"), Some(Arc::new(2i64)));
}

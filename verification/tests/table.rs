use mcp_supervisor::table::Table;
use mcp_supervisor::text::decimal_string;

#[test]
fn new_table_is_empty() {
    let t: Table<u32> = Table::new();
    assert_eq!(t.len(), 0);
    assert!(!t.contains_key("a"));
    assert_eq!(t.get("a"), None);
}

#[test]
fn insert_then_get() {
    let mut t: Table<u32> = Table::new();
    assert_eq!(t.insert("a".to_string(), 1), None);
    assert_eq!(t.insert("b".to_string(), 2), None);
    assert_eq!(t.len(), 2);
    assert_eq!(t.get("a"), Some(&1));
    assert_eq!(t.get("b"), Some(&2));
    assert_eq!(t.get("c"), None);
    assert!(t.contains_key("b"));
}

#[test]
fn insert_replaces_and_keeps_position() {
    let mut t: Table<u32> = Table::new();
    t.insert("a".to_string(), 1);
    t.insert("b".to_string(), 2);
    assert_eq!(t.insert("a".to_string(), 10), Some(1));
    assert_eq!(t.len(), 2);
    assert_eq!(t.name_at(0), "a");
    assert_eq!(*t.value_at(0), 10);
    assert_eq!(t.name_at(1), "b");
    assert_eq!(*t.value_at(1), 2);
}

#[test]
fn remove_takes_the_entry_out() {
    let mut t: Table<u32> = Table::new();
    t.insert("a".to_string(), 1);
    t.insert("b".to_string(), 2);
    t.insert("c".to_string(), 3);
    assert_eq!(t.remove("b"), Some(2));
    assert_eq!(t.remove("b"), None);
    assert_eq!(t.len(), 2);
    assert_eq!(t.name_at(0), "a");
    assert_eq!(t.name_at(1), "c");
    assert_eq!(t.get("c"), Some(&3));
    assert_eq!(t.get("b"), None);
}

#[test]
fn take_all_empties_in_order() {
    let mut t: Table<u32> = Table::new();
    t.insert("x".to_string(), 7);
    t.insert("y".to_string(), 8);
    let all = t.take_all();
    assert_eq!(all, vec![("x".to_string(), 7), ("y".to_string(), 8)]);
    assert_eq!(t.len(), 0);
    assert!(!t.contains_key("x"));
}

#[test]
fn empty_key_is_a_key() {
    let mut t: Table<u32> = Table::new();
    t.insert(String::new(), 5);
    assert_eq!(t.get(""), Some(&5));
    assert_eq!(t.get(" "), None);
}

#[test]
fn decimal_of_small_and_large_numbers() {
    assert_eq!(decimal_string(0), "0");
    assert_eq!(decimal_string(7), "7");
    assert_eq!(decimal_string(10), "10");
    assert_eq!(decimal_string(3), "3");
    assert_eq!(decimal_string(1205), "1205");
    assert_eq!(decimal_string(u32::MAX), "4294967295");
}

use dvenv::table::Table;

#[test]
fn an_empty_table_holds_nothing() {
    let t: Table<u32> = Table::new();
    assert_eq!(t.len(), 0);
    assert_eq!(t.get("a"), None);
    assert!(!t.contains_key(""));
    assert_eq!(t.keys(), Vec::<String>::new());
}

#[test]
fn a_table_gives_back_what_was_put_in() {
    let mut t: Table<u32> = Table::new();
    t.insert("one".to_string(), 1);
    t.insert("two".to_string(), 2);
    t.insert("".to_string(), 0);
    assert_eq!(t.len(), 3);
    assert_eq!(t.get("one"), Some(&1));
    assert_eq!(t.get("two"), Some(&2));
    assert_eq!(t.get(""), Some(&0));
    assert_eq!(t.get("three"), None);
    assert!(t.contains_key("two"));
    assert!(!t.contains_key("Two"));
}

#[test]
fn a_key_put_in_again_keeps_its_place_and_gets_the_new_value() {
    let mut t: Table<u32> = Table::new();
    t.insert("b".to_string(), 1);
    t.insert("a".to_string(), 2);
    t.insert("b".to_string(), 3);
    assert_eq!(t.len(), 2);
    assert_eq!(t.keys(), vec!["b".to_string(), "a".to_string()]);
    assert_eq!(t.get("b"), Some(&3));
    assert_eq!(t.entry(0), (&"b".to_string(), &3));
    assert_eq!(t.entry(1), (&"a".to_string(), &2));
}

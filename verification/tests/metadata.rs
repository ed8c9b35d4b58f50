use rpc_core::metadata::Metadata;

fn s(text: &str) -> String {
    text.to_string()
}

#[test]
fn add_get_remove_roundtrip() {
    let mut m = Metadata::new();
    m.add(s("k"), s("v"));
    assert_eq!(m.get(&s("k")), Some(s("v")));
    assert_eq!(m.remove(&s("k")), Some(s("v")));
    assert_eq!(m.get(&s("k")), None);
}

#[test]
fn absent_key_reads_none() {
    let m = Metadata::new();
    assert_eq!(m.get(&s("missing")), None);
    assert!(m.is_empty());
    assert_eq!(m.len(), 0);
}

#[test]
fn insertion_order_is_preserved() {
    let mut m = Metadata::new();
    m.add(s("a"), s("1"));
    m.add(s("b"), s("2"));
    m.add(s("c"), s("3"));
    assert_eq!(m.keys(), vec![s("a"), s("b"), s("c")]);
    assert_eq!(m.values(), vec![s("1"), s("2"), s("3")]);
    assert_eq!(m.items(), vec![(s("a"), s("1")), (s("b"), s("2")), (s("c"), s("3"))]);
}

#[test]
fn repeated_key_keeps_position_and_last_value() {
    let mut m = Metadata::new();
    m.add(s("a"), s("1"));
    m.add(s("b"), s("2"));
    m.add(s("a"), s("9"));
    assert_eq!(m.len(), 2);
    assert_eq!(m.items(), vec![(s("a"), s("9")), (s("b"), s("2"))]);
}

#[test]
fn from_pairs_applies_last_value_of_repeated_key() {
    let m = Metadata::from_pairs(vec![(s("a"), s("1")), (s("a"), s("2")), (s("b"), s("3"))]);
    assert_eq!(m.items(), vec![(s("a"), s("2")), (s("b"), s("3"))]);
}

#[test]
fn clear_empties_the_set() {
    let mut m = Metadata::from_pairs(vec![(s("a"), s("1")), (s("b"), s("2"))]);
    m.clear();
    assert!(m.is_empty());
    assert_eq!(m.get(&s("a")), None);
}

#[test]
fn to_dict_matches_items() {
    let mut m = Metadata::new();
    m.add(s("x"), s("1"));
    m.add(s("y"), s("2"));
    assert_eq!(m.to_dict(), m.items());
}

#[test]
fn from_dict_replaces_contents() {
    let mut m = Metadata::from_pairs(vec![(s("old"), s("gone"))]);
    m.from_dict(vec![(s("p"), s("1")), (s("q"), s("2"))]);
    assert_eq!(m.get(&s("old")), None);
    assert_eq!(m.items(), vec![(s("p"), s("1")), (s("q"), s("2"))]);
}

#[test]
fn remove_absent_key_changes_nothing() {
    let mut m = Metadata::from_pairs(vec![(s("a"), s("1"))]);
    assert_eq!(m.remove(&s("b")), None);
    assert_eq!(m.items(), vec![(s("a"), s("1"))]);
}

#[test]
fn empty_string_key_and_value_are_ordinary() {
    let mut m = Metadata::new();
    m.add(s(""), s(""));
    assert_eq!(m.get(&s("")), Some(s("")));
    assert_eq!(m.len(), 1);
}

use lab_presence::store::TextMap;

#[test]
fn insert_get_remove() {
    let mut m: TextMap<u32> = TextMap::new();
    assert!(m.get("a").is_none());
    m.insert("a".to_string(), 1);
    m.insert("b".to_string(), 2);
    m.insert("a".to_string(), 3);
    assert_eq!(m.get("a"), Some(&3));
    assert_eq!(m.get("b"), Some(&2));
    assert_eq!(m.remove("a"), Some(3));
    assert!(m.get("a").is_none());
    assert_eq!(m.remove("a"), None);
    assert_eq!(m.get("b"), Some(&2));
}

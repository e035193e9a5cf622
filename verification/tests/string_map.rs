use rue::string_map::StringMap;

#[test]
fn empty_map_has_nothing() {
    let m = StringMap::new();
    assert_eq!(m.get(&"username".to_string()), None);
}

#[test]
fn read_after_write_gives_the_value() {
    let mut m = StringMap::new();
    m.insert("username".to_string(), "abc".to_string());
    assert_eq!(m.get(&"username".to_string()), Some("abc".to_string()));
    assert_eq!(m.get(&"other".to_string()), None);
}

#[test]
fn writing_a_key_again_replaces_its_value() {
    let mut m = StringMap::new();
    m.insert("a".to_string(), "1".to_string());
    m.insert("b".to_string(), "2".to_string());
    m.insert("a".to_string(), "3".to_string());
    assert_eq!(m.get(&"a".to_string()), Some("3".to_string()));
    assert_eq!(m.get(&"b".to_string()), Some("2".to_string()));
}

use dev_lens_relay::string_map::StringMap;

fn pair(k: &str, v: &str) -> (String, String) {
    (k.to_string(), v.to_string())
}

#[test]
fn new_map_is_empty() {
    let map = StringMap::new();
    assert_eq!(map.len(), 0);
    assert!(map.entries().is_empty());
    assert_eq!(map.get("a"), None);
}

#[test]
fn insert_keeps_order_of_first_setting() {
    let mut map = StringMap::new();
    map.insert("b".to_string(), "1".to_string());
    map.insert("a".to_string(), "2".to_string());
    map.insert("c".to_string(), "3".to_string());
    assert_eq!(
        map.entries(),
        &vec![pair("b", "1"), pair("a", "2"), pair("c", "3")]
    );
    assert_eq!(map.len(), 3);
}

#[test]
fn insert_replaces_value_of_existing_key_in_place() {
    let mut map = StringMap::new();
    map.insert("b".to_string(), "1".to_string());
    map.insert("a".to_string(), "2".to_string());
    map.insert("b".to_string(), "9".to_string());
    assert_eq!(map.entries(), &vec![pair("b", "9"), pair("a", "2")]);
    assert_eq!(map.get("b"), Some(&"9".to_string()));
    assert_eq!(map.get("a"), Some(&"2".to_string()));
}

#[test]
fn keys_differ_by_letter_case() {
    let mut map = StringMap::new();
    map.insert("Content-Type".to_string(), "a".to_string());
    map.insert("content-type".to_string(), "b".to_string());
    assert_eq!(map.len(), 2);
    assert_eq!(map.get("Content-Type"), Some(&"a".to_string()));
    assert_eq!(map.get("content-type"), Some(&"b".to_string()));
    assert_eq!(map.get("CONTENT-TYPE"), None);
}

#[test]
fn empty_key_and_value_are_kept() {
    let mut map = StringMap::new();
    map.insert(String::new(), String::new());
    assert_eq!(map.get(""), Some(&String::new()));
    assert_eq!(map.len(), 1);
}

#[test]
fn clone_is_equal_and_independent() {
    let mut map = StringMap::new();
    map.insert("a".to_string(), "1".to_string());
    let copy = map.clone();
    assert_eq!(copy, map);
    map.insert("a".to_string(), "2".to_string());
    assert_eq!(copy.get("a"), Some(&"1".to_string()));
    assert_eq!(map.get("a"), Some(&"2".to_string()));
}

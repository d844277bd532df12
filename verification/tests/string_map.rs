use strausslib::string_map::StringMap;

fn s(text: &str) -> String {
    String::from(text)
}

#[test]
fn empty_map_has_no_keys() {
    let m: StringMap<u32> = StringMap::new();
    assert_eq!(m.len(), 0);
    assert!(!m.contains_key(&s("a")));
    assert!(m.get(&s("a")).is_none());
}

#[test]
fn read_after_write_gives_the_written_value() {
    let mut m: StringMap<u32> = StringMap::new();
    assert_eq!(m.insert(s("a"), 1), None);
    assert_eq!(m.insert(s("b"), 2), None);
    assert_eq!(m.get(&s("a")), Some(&1));
    assert_eq!(m.get(&s("b")), Some(&2));
    assert!(m.get(&s("c")).is_none());
    assert_eq!(m.len(), 2);
}

#[test]
fn second_write_replaces_and_returns_the_first() {
    let mut m: StringMap<String> = StringMap::new();
    assert_eq!(m.insert(s("key"), s("old")), None);
    assert_eq!(m.insert(s("key"), s("new")), Some(s("old")));
    assert_eq!(m.get(&s("key")), Some(&s("new")));
    assert_eq!(m.len(), 1);
}

#[test]
fn keys_differ_by_characters() {
    let mut m: StringMap<u8> = StringMap::new();
    m.insert(s("chat"), 1);
    m.insert(s("Chat"), 2);
    m.insert(s(""), 3);
    assert_eq!(m.len(), 3);
    assert_eq!(m.get(&s("chat")), Some(&1));
    assert_eq!(m.get(&s("Chat")), Some(&2));
    assert_eq!(m.get(&s("")), Some(&3));
    assert!(m.contains_key(&s("")));
    assert!(!m.contains_key(&s("chat ")));
}

#[test]
fn walking_the_entries_visits_each_key_once() {
    let mut m: StringMap<u32> = StringMap::new();
    m.insert(s("x"), 10);
    m.insert(s("y"), 20);
    m.insert(s("x"), 30);
    let mut seen: Vec<(String, u32)> = Vec::new();
    for i in 0..m.len() {
        let (k, v) = m.entry_at(i);
        seen.push((k.clone(), *v));
    }
    seen.sort();
    assert_eq!(seen, vec![(s("x"), 30), (s("y"), 20)]);
}

#[test]
fn clone_is_independent_of_its_source() {
    let mut m: StringMap<String> = StringMap::new();
    m.insert(s("a"), s("1"));
    let copy = m.clone();
    m.insert(s("a"), s("2"));
    assert_eq!(copy.get(&s("a")), Some(&s("1")));
    assert_eq!(m.get(&s("a")), Some(&s("2")));
}

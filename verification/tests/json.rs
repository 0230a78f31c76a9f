use message_model::json::{JsonMap, Value};

fn s(text: &str) -> Value {
    Value::String(text.to_string())
}

#[test]
fn new_document_is_empty() {
    let map = JsonMap::new();
    assert_eq!(map.len(), 0);
    assert!(map.get("content").is_none());
    assert_eq!(map.find("content"), None);
}

#[test]
fn insert_then_get() {
    let mut map = JsonMap::new();
    map.insert("content".to_string(), s("hello"));
    map.set("tts", Value::Bool(false));
    assert_eq!(map.len(), 2);
    assert_eq!(map.get("content"), Some(&s("hello")));
    assert_eq!(map.get("tts"), Some(&Value::Bool(false)));
    assert!(map.get("embeds").is_none());
    assert_eq!(map.find("tts"), Some(1));
}

#[test]
fn insert_replaces_in_place() {
    let mut map = JsonMap::new();
    map.set("a", Value::Number(1));
    map.set("b", Value::Number(2));
    map.set("a", Value::Number(3));
    assert_eq!(map.len(), 2);
    assert_eq!(map.key_at(0), "a");
    assert_eq!(map.value_at(0), &Value::Number(3));
    assert_eq!(map.key_at(1), "b");
    assert_eq!(map.value_at(1), &Value::Number(2));
}

#[test]
fn keys_differ_by_their_text() {
    let mut map = JsonMap::new();
    map.set("name", s("n"));
    map.set("names", s("m"));
    map.set("nam", s("k"));
    assert_eq!(map.len(), 3);
    assert_eq!(map.get("name"), Some(&s("n")));
    assert_eq!(map.get("names"), Some(&s("m")));
    assert_eq!(map.get("nam"), Some(&s("k")));
    assert!(map.get("na").is_none());
}

#[test]
fn append_item_starts_a_list() {
    let mut map = JsonMap::new();
    map.append_item("fields", Value::Number(1));
    assert_eq!(map.get("fields"), Some(&Value::Array(vec![Value::Number(1)])));
}

#[test]
fn append_item_extends_a_list_in_place() {
    let mut map = JsonMap::new();
    map.set("fields", Value::Array(vec![Value::Number(1)]));
    map.set("title", s("t"));
    map.append_item("fields", Value::Number(2));
    map.append_item("fields", Value::Number(3));
    assert_eq!(map.len(), 2);
    assert_eq!(map.key_at(0), "fields");
    assert_eq!(
        map.get("fields"),
        Some(&Value::Array(vec![Value::Number(1), Value::Number(2), Value::Number(3)]))
    );
    assert_eq!(map.get("title"), Some(&s("t")));
}

#[test]
fn append_item_leaves_what_is_no_list() {
    let mut map = JsonMap::new();
    map.set("fields", s("text"));
    map.append_item("fields", Value::Number(2));
    assert_eq!(map.len(), 1);
    assert_eq!(map.get("fields"), Some(&s("text")));
}

#[test]
fn value_accessors() {
    let mut inner = JsonMap::new();
    inner.set("name", s("x"));
    let object = Value::Object(inner);
    assert_eq!(object.get("name"), Some(&s("x")));
    assert!(object.get("value").is_none());
    assert!(s("x").get("name").is_none());
    assert_eq!(s("x").as_str(), Some("x"));
    assert_eq!(Value::Null.as_str(), None);
    assert_eq!(Value::Array(vec![Value::Null]).as_array(), Some(&vec![Value::Null]));
    assert_eq!(s("x").as_array(), None);
    assert_eq!(object.as_array(), None);
}

#[test]
fn clone_copies_every_level() {
    let mut inner = JsonMap::new();
    inner.set("name", s("x"));
    inner.set("list", Value::Array(vec![Value::Bool(true), Value::Null, Value::Number(9)]));
    let mut map = JsonMap::new();
    map.set("inner", Value::Object(inner));
    map.set("text", s("t"));
    let copy = map.clone();
    assert_eq!(copy, map);
    assert_eq!(copy.len(), 2);
    let value = Value::Array(vec![Value::Object(map.clone()), s("y")]);
    assert_eq!(value.clone(), value);
}

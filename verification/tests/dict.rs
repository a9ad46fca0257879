use mpris_controls::dict::{Dict, DictEntry};
use mpris_controls::metadata::MetadataValue;

#[test]
fn a_new_dictionary_is_empty() {
    let dict: Dict<MetadataValue> = Dict::new();
    assert_eq!(dict.len(), 0);
    assert!(dict.is_empty());
    assert_eq!(dict.get("a"), None);
    assert!(!dict.contains_key("a"));
    assert!(dict.entries().is_empty());
}

#[test]
fn an_inserted_value_is_found_under_its_key() {
    let mut dict: Dict<MetadataValue> = Dict::new();
    dict.insert("a".to_string(), MetadataValue::Int64(1));
    dict.insert("b".to_string(), MetadataValue::Int64(2));
    assert_eq!(dict.len(), 2);
    assert!(!dict.is_empty());
    assert_eq!(dict.get("a"), Some(&MetadataValue::Int64(1)));
    assert_eq!(dict.get("b"), Some(&MetadataValue::Int64(2)));
    assert_eq!(dict.get("c"), None);
    assert!(dict.contains_key("a"));
    assert!(!dict.contains_key("c"));
}

#[test]
fn a_second_insert_under_a_key_replaces_the_value() {
    let mut dict: Dict<MetadataValue> = Dict::new();
    dict.insert("a".to_string(), MetadataValue::Int64(1));
    dict.insert("b".to_string(), MetadataValue::Int64(2));
    dict.insert("a".to_string(), MetadataValue::Str("new".to_string()));
    assert_eq!(dict.len(), 2);
    assert_eq!(dict.get("a"), Some(&MetadataValue::Str("new".to_string())));
    assert_eq!(dict.get("b"), Some(&MetadataValue::Int64(2)));
}

#[test]
fn entries_keep_the_order_of_insertion() {
    let mut dict: Dict<MetadataValue> = Dict::new();
    dict.insert("z".to_string(), MetadataValue::Int64(26));
    dict.insert("a".to_string(), MetadataValue::Int64(1));
    dict.insert("z".to_string(), MetadataValue::Int64(0));
    assert_eq!(
        dict.entries(),
        &vec![
            DictEntry { key: "z".to_string(), value: MetadataValue::Int64(0) },
            DictEntry { key: "a".to_string(), value: MetadataValue::Int64(1) },
        ]
    );
}

#[test]
fn keys_are_compared_by_their_characters() {
    let mut dict: Dict<MetadataValue> = Dict::new();
    dict.insert("key".to_string(), MetadataValue::Int64(1));
    assert!(!dict.contains_key("Key"));
    assert!(!dict.contains_key("ke"));
    assert!(!dict.contains_key("keys"));
    assert!(!dict.contains_key(""));
    dict.insert(String::new(), MetadataValue::Int64(2));
    assert_eq!(dict.get(""), Some(&MetadataValue::Int64(2)));
    assert_eq!(dict.len(), 2);
}

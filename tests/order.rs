use steamkit::kv::KeyValue;
use steamkit::order::key_number_of;

#[test]
fn children_in_numeric_order() {
    let input = "\"r\"\n{\n\"10\" \"ten\"\n\"x\" \"other\"\n\"2\" \"two\"\n\"n\"\n{\n\"a\" \"b\"\n}\n\"+1\" \"one\"\n}";
    let kv = KeyValue::parse(input).unwrap();
    let root = kv.get(&["r"]).unwrap();
    assert_eq!(root.as_str_vec(), vec!["one", "two", "ten", "other"]);
    let all = root.as_vec();
    assert_eq!(all.len(), 5);
    assert_eq!(all[4], kv.get(&["r", "n"]).unwrap());
    assert!(kv.get(&["r", "x"]).unwrap().as_vec().is_empty());
}

#[test]
fn key_numbers() {
    assert_eq!(key_number_of(&"42".to_string()), 42);
    assert_eq!(key_number_of(&"+7".to_string()), 7);
    assert_eq!(key_number_of(&"4294967295".to_string()), u32::MAX);
    assert_eq!(key_number_of(&"4294967296".to_string()), u32::MAX);
    assert_eq!(key_number_of(&"".to_string()), u32::MAX);
    assert_eq!(key_number_of(&"+".to_string()), u32::MAX);
    assert_eq!(key_number_of(&"-1".to_string()), u32::MAX);
    assert_eq!(key_number_of(&"12a".to_string()), u32::MAX);
}

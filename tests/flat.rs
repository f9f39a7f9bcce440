use steamkit::flat::FlatKeyValues;
use steamkit::kv::KeyValue;

#[test]
fn flat() {
    let input = r#"
            "key1"
            {
                "key2" "value1"
                "key3"
                {
                    "key4" "value2"
                }
            }
        "#;

    let kv = FlatKeyValues::parse(input).unwrap();
    assert_eq!(kv.get_str(&["key1", "key2"]), Some("value1"));
    assert_eq!(kv.get_str(&["key1", "key3", "key4"]), Some("value2"));
}

#[test]
fn flat_merge_maps() {
    let input = r#"
            "root"
            {
                "key1"
                {
                    "key2"
                    {
                        "key3" "value1"
                    }
                    "key2"
                    {
                        "key4" "value2"
                    }
                }
                "key2" "value3"
            }
        "#;

    let kv = FlatKeyValues::parse(input).unwrap();
    assert_eq!(kv.get_str(&["root", "key1", "key2", "key3"]), Some("value1"));
    assert_eq!(kv.get_str(&["root", "key1", "key2", "key4"]), Some("value2"));
    assert_eq!(kv.get_str(&["root", "key2"]), Some("value3"));
}

#[test]
fn flat_duplicate_strings() {
    let input = r#"
            "root"
            {
                "key1" "value1"
                "key1" "value2"
                "key2" "value3"
            }
        "#;

    let kv = FlatKeyValues::parse(input).unwrap();
    assert_eq!(kv.get_str(&["root", "key1"]), Some("value2"));
    assert_eq!(kv.get_str(&["root", "key2"]), Some("value3"));
}

fn sorted_pairs(f: &FlatKeyValues) -> Vec<(Vec<String>, String)> {
    let mut v: Vec<(Vec<String>, String)> =
        f.iter().into_iter().map(|(p, s)| (p.clone(), s.clone())).collect();
    v.sort();
    v
}

#[test]
fn flat_parse_matches_flattened_document() {
    let input = "\"r\"\n{\n\"k\"\n{\n\"a\" \"1\"\n}\n\"k\" \"2\"\n\"x\"\n{\n\"y\"\n{\n\"a\" \"1\"\n}\n}\n\"x\"\n{\n\"y\"\n{\n\"b\" \"2\"\n}\n}\n}";
    let direct = FlatKeyValues::parse(input).unwrap();
    let derived = FlatKeyValues::from_document(KeyValue::parse(input).unwrap());
    assert_eq!(sorted_pairs(&direct), sorted_pairs(&derived));
    assert_eq!(direct.get_str(&["r", "k"]), Some("2"));
    assert_eq!(direct.get_str(&["r", "k", "a"]), None);
    assert_eq!(direct.get_str(&["r", "x", "y", "b"]), Some("2"));
    assert_eq!(direct.get_str(&["r", "x", "y", "a"]), None);
}

#[test]
fn flat_len_and_exact_lookup() {
    let input = "\"r\"\n{\n\"a\" \"1\"\n\"b\"\n{\n\"c\" \"2\"\n}\n}";
    let mut f = FlatKeyValues::parse(input).unwrap();
    assert_eq!(f.len(), 2);
    assert!(!f.is_empty());
    assert_eq!(f.get_str(&["r", "b"]), None);
    assert_eq!(f.get_str(&["r"]), None);
    assert_eq!(f.get(&["r", "b", "c"]), Some(&"2".to_string()));
    if let Some(v) = f.get_mut(&["r", "a"]) {
        v.push('0');
    }
    assert_eq!(f.get_str(&["r", "a"]), Some("10"));
}

#[test]
fn flat_from_document() {
    let input = "\"r\"\n{\n\"a\" \"1\"\n\"b\"\n{\n\"c\" \"2\"\n}\n}";
    let f = FlatKeyValues::from(KeyValue::parse(input).unwrap());
    assert_eq!(f.get_str(&["r", "a"]), Some("1"));
    assert_eq!(f.get_str(&["r", "b", "c"]), Some("2"));
    assert_eq!(f.len(), 2);
}

#[test]
fn flat_view_follows_lookup_on_repeated_keys() {
    let inner = KeyValue::Node(vec![("b".to_string(), KeyValue::from("1"))]);
    let doc = KeyValue::Node(vec![
        ("a".to_string(), inner),
        ("a".to_string(), KeyValue::from("2")),
    ]);
    assert_eq!(doc.get(&["a", "b"]), None);
    assert_eq!(doc.get(&["a"]), Some(&KeyValue::from("2")));
    let f = FlatKeyValues::from(doc);
    assert_eq!(f.get_str(&["a", "b"]), None);
    assert_eq!(f.get_str(&["a"]), Some("2"));
    assert_eq!(f.len(), 1);
    assert_eq!(f.iter().len(), 1);
    assert!(!f.is_empty());
}

#[test]
fn empty_node_has_empty_flat_view() {
    let f = FlatKeyValues::from(KeyValue::Node(Vec::new()));
    assert!(f.is_empty());
    assert_eq!(f.len(), 0);
    assert!(f.iter().is_empty());
}

use steamkit::kv::{Error, KeyValue};

fn leaf(s: &str) -> KeyValue {
    KeyValue::String(s.to_string())
}

#[test]
fn nested() {
    let input = r#"
            "key1"
            {
                "key2" "value1"
                "key3"
                {
                    "key4" "value2"
                }
            }
        "#;

    let kv = KeyValue::parse(input).unwrap();
    assert_eq!(kv.get(&["key1", "key2"]), Some(&leaf("value1")));
    assert_eq!(kv.get(&["key1", "key3", "key4"]), Some(&leaf("value2")));
}

#[test]
fn nested_merge_maps() {
    let input = r#"
            "root"
            {
                "key1"
                {
                    "key2"
                    {
                        "key3" "value1"
                    }
                    "key2"
                    {
                        "key4" "value2"
                    }
                }
                "key2" "value3"
            }
        "#;

    let kv = KeyValue::parse(input).unwrap();
    assert_eq!(kv.get(&["root", "key1", "key2", "key3"]), Some(&leaf("value1")));
    assert_eq!(kv.get(&["root", "key1", "key2", "key4"]), Some(&leaf("value2")));
    assert_eq!(kv.get(&["root", "key2"]), Some(&leaf("value3")));
}

#[test]
fn nested_duplicate_strings() {
    let input = r#"
            "root"
            {
                "key1" "value1"
                "key1" "value2"
                "key2" "value3"
            }
        "#;

    let kv = KeyValue::parse(input).unwrap();
    assert_eq!(kv.get(&["root", "key1"]), Some(&leaf("value2")));
    assert_eq!(kv.get(&["root", "key2"]), Some(&leaf("value3")));
}

#[test]
fn empty_quotes() {
    assert!(KeyValue::parse(r#""key" """#).is_ok());
}

#[test]
fn escaped() {
    let kv = KeyValue::parse(r#""key" "\n hello world""#);
    assert!(kv.is_ok());
    assert_eq!(kv.unwrap().get(&["key"]), Some(&leaf("\n hello world")));
}

#[test]
fn empty_value_is_empty_leaf() {
    let kv = KeyValue::parse(r#""key" """#).unwrap();
    assert_eq!(kv.get(&["key"]), Some(&leaf("")));
}

#[test]
fn escapes_decode_to_newline_quote_and_backslash() {
    let kv = KeyValue::parse(r#""key" "\n hello \" world \\""#).unwrap();
    assert_eq!(kv.get(&["key"]), Some(&leaf("\n hello \" world \\")));
}

#[test]
fn tab_escape_and_unquoted_value() {
    let kv = KeyValue::parse("\"root\"\n{\n\"a\" \"x\\ty\"\nb plain\n}").unwrap();
    assert_eq!(kv.get(&["root", "a"]), Some(&leaf("x\ty")));
    assert_eq!(kv.get(&["root", "b"]), Some(&leaf("plain")));
}

#[test]
fn bad_escape_is_a_parse_error() {
    assert!(matches!(KeyValue::parse(r#""key" "a\qb""#), Err(Error::Parse)));
}

#[test]
fn nested_lookup_scenario() {
    let input = "\"a\"\n{\n\"b\" \"1\"\n\"c\"\n{\n\"d\" \"2\"\n}\n}";
    let kv = KeyValue::parse(input).unwrap();
    assert_eq!(kv.get(&["a", "b"]), Some(&leaf("1")));
    assert_eq!(kv.get(&["a", "c", "d"]), Some(&leaf("2")));
    assert_eq!(kv.get(&["a", "b", "x"]), None);
    assert_eq!(kv.get(&["a", "missing"]), None);
}

#[test]
fn deep_block_merge_scenario() {
    let input = "\"r\"\n{\n\"x\"\n{\n\"y\"\n{\n\"z\" \"1\"\n}\n\"y\"\n{\n\"w\" \"2\"\n}\n}\n\"y\" \"3\"\n}";
    let kv = KeyValue::parse(input).unwrap();
    assert_eq!(kv.get(&["r", "x", "y", "z"]), Some(&leaf("1")));
    assert_eq!(kv.get(&["r", "x", "y", "w"]), Some(&leaf("2")));
    assert_eq!(kv.get(&["r", "y"]), Some(&leaf("3")));
}

#[test]
fn last_scalar_wins_scenario() {
    let kv = KeyValue::parse("\"r\"\n{\n\"k\" \"1\"\n\"k\" \"2\"\n\"j\" \"3\"\n}").unwrap();
    assert_eq!(kv.get(&["r", "k"]), Some(&leaf("2")));
}

#[test]
fn scalar_keeps_its_position() {
    let kv = KeyValue::parse("\"r\"\n{\n\"a\" \"1\"\n\"b\" \"2\"\n\"a\" \"3\"\n}").unwrap();
    let root = kv.get(&["r"]).unwrap();
    let keys: Vec<&str> = root.iter().iter().map(|(k, _)| k.as_str()).collect();
    assert_eq!(keys, vec!["a", "b"]);
    assert_eq!(kv.get(&["r", "a"]), Some(&leaf("3")));
}

#[test]
fn blocks_accumulate_their_keys() {
    let input = "\"r\"\n{\n\"k\"\n{\n\"a\" \"1\"\n}\n\"k\"\n{\n\"b\" \"2\"\n}\n}";
    let kv = KeyValue::parse(input).unwrap();
    assert_eq!(kv.get(&["r", "k", "a"]), Some(&leaf("1")));
    assert_eq!(kv.get(&["r", "k", "b"]), Some(&leaf("2")));
}

#[test]
fn later_kind_replaces_earlier() {
    let input = "\"r\"\n{\n\"k\" \"1\"\n\"k\"\n{\n\"a\" \"2\"\n}\n\"j\"\n{\n\"b\" \"3\"\n}\n\"j\" \"4\"\n}";
    let kv = KeyValue::parse(input).unwrap();
    assert_eq!(kv.get(&["r", "k", "a"]), Some(&leaf("2")));
    assert_eq!(kv.get(&["r", "j"]), Some(&leaf("4")));
    assert_eq!(kv.get(&["r", "j", "b"]), None);
}

#[test]
fn parsing_twice_gives_equal_documents() {
    let input = "\"r\"\n{\n\"a\" \"1\"\n\"b\"\n{\n\"c\" \"2\"\n}\n}";
    assert_eq!(KeyValue::parse(input).unwrap(), KeyValue::parse(input).unwrap());
}

#[test]
fn trailing_input_is_reported() {
    match KeyValue::parse("\"a\" \"b\"\n\"c\" \"d\"") {
        Err(Error::UnexpectedInput(rest)) => assert_eq!(rest, "\n\"c\" \"d\""),
        other => panic!("unexpected result {:?}", other),
    }
}

#[test]
fn garbage_is_a_parse_error() {
    assert!(matches!(KeyValue::parse("{"), Err(Error::Parse)));
    assert!(matches!(KeyValue::parse(""), Err(Error::Parse)));
}

#[test]
fn comments_and_tags_are_accepted() {
    let input = "\"r\" [$WIN32]\n{\n// a comment\n\"a\" \"1\" [$X]\n\n\"b\" \"2\" // trailing\n}";
    let kv = KeyValue::parse(input).unwrap();
    assert_eq!(kv.get(&["r", "a"]), Some(&leaf("1")));
    assert_eq!(kv.get(&["r", "b"]), Some(&leaf("2")));
}

#[test]
fn get_mut_changes_a_leaf() {
    let mut kv = KeyValue::parse("\"r\"\n{\n\"a\" \"1\"\n}").unwrap();
    if let Some(v) = kv.get_mut(&["r", "a"]) {
        *v = leaf("9");
    }
    assert_eq!(kv.get(&["r", "a"]), Some(&leaf("9")));
    assert!(kv.get_mut(&["r", "zz"]).is_none());
}

#[test]
fn empty_path_gives_root() {
    let kv = KeyValue::parse("\"a\" \"b\"").unwrap();
    assert_eq!(kv.get(&[]), Some(&kv));
}

#[test]
fn equality_ignores_child_order() {
    let a = KeyValue::parse("\"r\"\n{\n\"a\" \"1\"\n\"b\"\n{\n\"c\" \"2\"\n\"d\" \"3\"\n}\n}").unwrap();
    let b = KeyValue::parse("\"r\"\n{\n\"b\"\n{\n\"d\" \"3\"\n\"c\" \"2\"\n}\n\"a\" \"1\"\n}").unwrap();
    let c = KeyValue::parse("\"r\"\n{\n\"b\"\n{\n\"d\" \"3\"\n\"c\" \"9\"\n}\n\"a\" \"1\"\n}").unwrap();
    assert_eq!(a, b);
    assert_ne!(a, c);
    assert_ne!(KeyValue::from("x"), a);
}

#[test]
fn values_from_strings() {
    assert_eq!(KeyValue::from("v"), leaf("v"));
    assert_eq!(KeyValue::from("w".to_string()), leaf("w"));
}

fn large_document() -> String {
    let mut text = String::from("\"items_game\"\n{\n\t\"game_info\"\n\t{\n\t\t\"first_valid_item_slot\"\t\"0\"\n\t}\n\t\"items\"\n\t{\n");
    for id in 0..3000 {
        let name = if id == 507 { "weapon_knife_karambit".to_string() } else { format!("item_{}", id) };
        text.push_str(&format!(
            "\t\t\"{}\"\n\t\t{{\n\t\t\t\"name\"\t\t\"{}\"\n\t\t\t\"attributes\"\n\t\t\t{{\n\t\t\t\t\"level\"\t\"{}\" // note\n\t\t\t}}\n\t\t}}\n",
            id, name, id % 7
        ));
    }
    text.push_str("\t}\n}\n");
    text
}

#[test]
fn large_generated_document() {
    let text = large_document();
    let kv = KeyValue::parse(&text).unwrap();
    assert_eq!(kv.get(&["items_game", "game_info", "first_valid_item_slot"]), Some(&leaf("0")));
    assert_eq!(kv.get(&["items_game", "items", "507", "name"]), Some(&leaf("weapon_knife_karambit")));
    assert_eq!(kv.get(&["items_game", "items", "2999", "attributes", "level"]), Some(&leaf("3")));
    let flat = steamkit::flat::FlatKeyValues::parse(&text).unwrap();
    assert_eq!(flat.get_str(&["items_game", "items", "507", "name"]), Some("weapon_knife_karambit"));
    assert_eq!(flat.len(), 1 + 3000 * 2);
}

#[test]
fn get_mut_writes_only_that_path() {
    let mut kv = KeyValue::parse("\"r\"\n{\n\"a\"\n{\n\"x\" \"1\"\n}\n\"b\" \"2\"\n}").unwrap();
    let expected = KeyValue::parse("\"r\"\n{\n\"a\" \"new\"\n\"b\" \"2\"\n}").unwrap();
    *kv.get_mut(&["r", "a"]).unwrap() = leaf("new");
    assert_eq!(kv, expected);
    let before = KeyValue::parse("\"r\"\n{\n\"b\" \"2\"\n}").unwrap();
    let mut after = KeyValue::parse("\"r\"\n{\n\"b\" \"2\"\n}").unwrap();
    assert!(after.get_mut(&["r", "b", "c"]).is_none());
    assert_eq!(after, before);
}

#[test]
fn unicode_whitespace_is_trimmed() {
    let kv = KeyValue::parse("\u{2003}\u{a0}\n\"a\" \"b\"\u{3000}\u{85}").unwrap();
    assert_eq!(kv.get(&["a"]), Some(&leaf("b")));
    for c in ['\u{9}', '\u{b}', '\u{c}', '\u{1680}', '\u{200a}', '\u{2028}', '\u{2029}', '\u{202f}', '\u{205f}'] {
        let text = format!("{}\"a\" \"b\"{}", c, c);
        assert!(KeyValue::parse(&text).is_ok(), "{:?}", c);
    }
    assert!(matches!(KeyValue::parse("\u{200b}\"a\" \"b\""), Err(Error::Parse)));
}

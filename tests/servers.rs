use steamkit::kv::KeyValue;
use steamkit::servers::{Servers, WebApiError};

#[test]
fn server_list_in_numeric_order() {
    let input = "\"response\"\n{\n\"serverlist\"\n{\n\"1\" \"b:1\"\n\"0\" \"a:1\"\n}\n\"serverlist_websockets\"\n{\n\"0\" \"ws:443\"\n}\n}";
    let kv = KeyValue::parse(input).unwrap();
    let servers = Servers::from_document(&kv).unwrap();
    assert_eq!(servers.tcp, vec!["a:1".to_string(), "b:1".to_string()]);
    assert_eq!(servers.websocket, vec!["ws:443".to_string()]);
}

#[test]
fn missing_section_is_a_bad_response() {
    let kv = KeyValue::parse("\"response\"\n{\n\"serverlist\"\n{\n\"0\" \"a\"\n}\n}").unwrap();
    assert!(matches!(Servers::from_document(&kv), Err(WebApiError::BadResponse)));
}

use steamkit::hash;

#[test]
fn sha1() {
    let value = hash::sha1(b"the quick brown fox jumps over the lazy dog");
    assert_eq!(hex::encode(value), "16312751ef9307c3fd1afbcb993cdc80464ba0f1");
}

#[test]
fn crc32() {
    let value = hash::crc32(b"the quick brown fox jumps over the lazy dog");
    assert_eq!(value, 3456913684);
}

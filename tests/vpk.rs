use steamkit::vpk::{Header, VpkError};

fn le(v: u32) -> [u8; 4] {
    v.to_le_bytes()
}

fn bytes(fields: &[u32]) -> Vec<u8> {
    fields.iter().flat_map(|f| le(*f)).collect()
}

#[test]
fn version_one_header() {
    let b = bytes(&[0x55aa1234, 1, 100]);
    let (h, n) = Header::parse(&b).unwrap();
    assert_eq!(n, 12);
    assert_eq!(h.tree_length, 100);
    assert_eq!(h.data_offset(), 112);
    assert_eq!(h.data_length(), 0);
    assert_eq!(h.signature_length(), 0);
}

#[test]
fn version_two_header() {
    let b = bytes(&[0x55aa1234, 2, 50, 7, 56, 48, 9, 0xdead]);
    let (h, n) = Header::parse(&b).unwrap();
    assert_eq!(n, 28);
    assert_eq!(h.data_offset(), 78);
    assert_eq!(h.data_length(), 7);
    assert_eq!(h.archive_md5_length(), 56);
    assert_eq!(h.local_md5_length(), 48);
    assert_eq!(h.signature_length(), 9);
}

#[test]
fn bad_headers_are_rejected() {
    assert_eq!(Header::parse(&bytes(&[0x55aa1235, 1, 0])), Err(VpkError::Parse));
    assert_eq!(Header::parse(&bytes(&[0x55aa1234, 3, 0])), Err(VpkError::Parse));
    assert_eq!(Header::parse(&bytes(&[0x55aa1234, 2, 0])), Err(VpkError::Parse));
    assert_eq!(Header::parse(&bytes(&[0x55aa1234, 2, 0, 0, 27, 48, 0])), Err(VpkError::Parse));
    assert_eq!(Header::parse(&bytes(&[0x55aa1234, 2, 0, 0, 28, 47, 0])), Err(VpkError::Parse));
    assert_eq!(Header::parse(&[0x34, 0x12]), Err(VpkError::Parse));
}

use steamkit::enums::{EChatPermission, EUniverse};
use steamkit::eresult::EResult;
use steamkit::netheader::EUdpPacketType;

#[test]
fn enum_compares_with_its_number() {
    assert!(EUniverse(1) == EUniverse::PUBLIC);
    assert!(EUniverse::PUBLIC == EUniverse(1));
    assert!(EUniverse(2) != EUniverse::PUBLIC);
}

#[test]
fn flags_combine() {
    let p = EChatPermission(EChatPermission::TALK)
        | EChatPermission(EChatPermission::INVITE);
    assert_eq!(p, EChatPermission::EVERYONE_DEFAULT);
}

#[test]
fn defaults() {
    assert_eq!(EResult::default(), EResult::INVALID);
    assert_eq!(EUdpPacketType::default(), EUdpPacketType::INVALID);
    assert_eq!(EResult::OK, 1);
}

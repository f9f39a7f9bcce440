use steamkit::enums::{EAccountType, EUniverse};
use steamkit::id::{Id, IdError, Instance};

#[test]
fn from_u64() {
    let id = Id::try_from(76561198006409530u64);
    assert!(id.is_ok(), "failed to parse u64");

    let id = id.unwrap();
    assert_eq!(id.universe(), EUniverse::PUBLIC, "universe does not match");
    assert_eq!(
        id.account_type(),
        EAccountType::INDIVIDUAL,
        "type does not match"
    );
    assert_eq!(id.instance(), Instance::Desktop, "instance does not match");
    assert_eq!(id.account_id(), 46143802, "account id does not match");
}

#[test]
fn invalid_parts_are_rejected() {
    let bad_instance = (1u64 << 56) | (1u64 << 52) | (7u64 << 32) | 5;
    assert!(matches!(Id::try_from(bad_instance), Err(IdError::InvalidInstance(7))));
    let bad_type = (1u64 << 56) | (12u64 << 52) | (1u64 << 32) | 5;
    assert!(matches!(Id::try_from(bad_type), Err(IdError::InvalidAccountType(12))));
    let bad_universe = (9u64 << 56) | (1u64 << 52) | (1u64 << 32) | 5;
    assert!(matches!(Id::try_from(bad_universe), Err(IdError::InvalidUniverse(9))));
}

#[test]
fn instance_numbers() {
    assert_eq!(Instance::try_from(3u32).unwrap(), Instance::Web);
    assert!(matches!(Instance::try_from(4u32), Err(IdError::InvalidInstance(4))));
    assert_eq!(Instance::default(), Instance::All);
}

#[test]
fn parse_steam2_id() {
    let id = "STEAM_0:0:23071901".parse::<Id>();
    assert!(id.is_ok(), "failed to parse steam2 id");

    let id = id.unwrap();

    assert_eq!(id.universe(), EUniverse::PUBLIC, "universe does not match");
    assert_eq!(
        id.account_type(),
        EAccountType::INDIVIDUAL,
        "type does not match"
    );
    assert_eq!(id.instance(), Instance::Desktop, "instance does not match");
    assert_eq!(id.account_id(), 46143802, "account id does not match");
}

#[test]
fn parse_steam3_id() {
    let id = "[U:1:46143802]".parse::<Id>();
    assert!(id.is_ok(), "failed to parse steam3 id");

    let id = id.unwrap();

    assert_eq!(id.universe(), EUniverse::PUBLIC, "universe does not match");
    assert_eq!(
        id.account_type(),
        EAccountType::INDIVIDUAL,
        "type does not match"
    );
    assert_eq!(id.instance(), Instance::Desktop, "instance does not match");
    assert_eq!(id.account_id(), 46143802, "account id does not match");
}

#[test]
fn steam_texts_with_other_parts() {
    let id = Id::parse_str("STEAM_1:1:7").unwrap();
    assert_eq!(id.account_id(), 15);
    assert_eq!(id.universe(), EUniverse::PUBLIC);
    let id = Id::parse_str("[A:2:5:3]").unwrap();
    assert_eq!(id.account_type(), EAccountType::ANON_GAME_SERVER);
    assert_eq!(id.universe(), EUniverse::BETA);
    assert_eq!(id.instance(), Instance::Web);
    assert_eq!(id.account_id(), 5);
    let id = Id::parse_str("[G:1:9]").unwrap();
    assert_eq!(id.instance(), Instance::All);
}

#[test]
fn bad_steam_texts_are_rejected() {
    for text in ["", "STEAM_0:2:1", "STEAM_9:0:1", "STEAM_0:0", "[X:1:5]", "[U:1:5:9]", "[U:1:]", "[U:1:99999999999]"] {
        assert!(matches!(Id::parse_str(text), Err(IdError::InvalidFormat)), "{}", text);
    }
}

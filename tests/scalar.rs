use steamkit::scalar::{bool_text, parse_bool, FromStr, ParseBoolError, ToString};

#[test]
fn booleans_are_one_and_zero() {
    assert_eq!(parse_bool("1"), Ok(true));
    assert_eq!(parse_bool("0"), Ok(false));
    assert_eq!(parse_bool("true"), Err(ParseBoolError));
    assert_eq!(parse_bool(""), Err(ParseBoolError));
    assert_eq!(bool_text(true), "1");
    assert_eq!(<bool as FromStr>::from_str("0"), Ok(false));
    assert_eq!(ToString::to_string(&false), "0");
    assert_eq!(ToString::to_string("abc"), "abc");
}

use steamkit::escape::escape;
use steamkit::tokens::{Token, TokenError, Tokens};

#[test]
fn tokenizes_entries() {
    let t = Tokens::parse("\"key\" \"va\\\"l\" [$X] // hi\r\n{ w-1 }").unwrap();
    let kinds: Vec<String> = t.tokens.iter().map(|t| format!("{:?}", t)).collect();
    assert_eq!(
        kinds,
        vec![
            "QuotedString(\"key\")",
            "Whitespace(\" \")",
            "QuotedString(\"va\\\"l\")",
            "Whitespace(\" \")",
            "Condition(\"$X\")",
            "Whitespace(\" \")",
            "Comment(\"// hi\")",
            "NewLine(\"\\n\")",
            "GroupStart",
            "Whitespace(\" \")",
            "String(\"w-1\")",
            "Whitespace(\" \")",
            "GroupEnd",
        ]
    );
}

#[test]
fn tokenizer_errors() {
    assert!(matches!(Tokens::parse("\"abc"), Err(TokenError::UnclosedQuote)));
    assert!(matches!(Tokens::parse("\"a\\qb\""), Err(TokenError::BadEscape('q'))));
    assert!(matches!(Tokens::parse("[abc"), Err(TokenError::UnclosedCondition)));
    assert!(matches!(Tokens::parse("a ! b"), Err(TokenError::Syntax('!'))));
}

#[test]
fn empty_text_has_no_tokens() {
    assert!(Tokens::parse("").unwrap().tokens.is_empty());
    assert!(Tokens::new().tokens.is_empty());
    assert!(matches!(Tokens::parse("{").unwrap().tokens[0], Token::GroupStart));
}

#[test]
fn escape_marks_special_characters() {
    assert_eq!(escape("a\\b\n\t\"c"), "a\\\\b\\n\\t\\\"c");
    assert_eq!(escape("plain"), "plain");
}

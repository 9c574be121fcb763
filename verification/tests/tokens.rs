use pipeline::attributes::AttrValue;
use pipeline::tokens::{tokenize_pairs, AttrToken, TokenError};

fn ident(s: &str) -> AttrToken {
    AttrToken::Ident(String::from(s))
}

#[test]
fn empty_token_list_is_no_pairs() {
    let pairs = tokenize_pairs(&Vec::new()).unwrap();
    assert!(pairs.is_empty());
}

#[test]
fn bare_key() {
    let pairs = tokenize_pairs(&vec![ident("skip")]).unwrap();
    assert_eq!(pairs.len(), 1);
    assert_eq!(pairs[0].key, "skip");
    assert_eq!(pairs[0].value, None);
}

#[test]
fn key_value_list() {
    let toks = vec![
        ident("skip"),
        AttrToken::Comma,
        ident("timeout"),
        AttrToken::Eq,
        AttrToken::IntLit(500),
    ];
    let pairs = tokenize_pairs(&toks).unwrap();
    assert_eq!(pairs.len(), 2);
    assert_eq!(pairs[0].key, "skip");
    assert_eq!(pairs[0].value, None);
    assert_eq!(pairs[1].key, "timeout");
    assert_eq!(pairs[1].value, Some(AttrValue::IntLit(500)));
}

#[test]
fn trailing_comma_accepted() {
    let toks = vec![ident("skip"), AttrToken::Comma];
    let pairs = tokenize_pairs(&toks).unwrap();
    assert_eq!(pairs.len(), 1);
    assert_eq!(pairs[0].key, "skip");
}

#[test]
fn boolean_literals_classified() {
    let toks = vec![
        ident("skip"),
        AttrToken::Eq,
        ident("true"),
        AttrToken::Comma,
        ident("loud"),
        AttrToken::Eq,
        ident("false"),
    ];
    let pairs = tokenize_pairs(&toks).unwrap();
    assert_eq!(pairs[0].value, Some(AttrValue::BoolLit(true)));
    assert_eq!(pairs[1].value, Some(AttrValue::BoolLit(false)));
}

#[test]
fn other_single_token_value_is_opaque() {
    let toks = vec![ident("mode"), AttrToken::Eq, ident("fast")];
    let pairs = tokenize_pairs(&toks).unwrap();
    assert_eq!(pairs[0].value, Some(AttrValue::Other));
}

#[test]
fn multi_token_value_is_opaque() {
    let toks = vec![
        ident("timeout"),
        AttrToken::Eq,
        AttrToken::IntLit(1),
        AttrToken::OtherTok,
        AttrToken::IntLit(2),
        AttrToken::Comma,
        ident("skip"),
    ];
    let pairs = tokenize_pairs(&toks).unwrap();
    assert_eq!(pairs.len(), 2);
    assert_eq!(pairs[0].value, Some(AttrValue::Other));
    assert_eq!(pairs[1].key, "skip");
}

#[test]
fn missing_identifier_rejected() {
    let toks = vec![AttrToken::Eq, AttrToken::IntLit(5)];
    let err = tokenize_pairs(&toks).unwrap_err();
    assert_eq!(err, TokenError::ExpectedIdentifier { index: 0 });
    assert_eq!(err.message(), "expected identifier");
}

#[test]
fn missing_expression_rejected() {
    let toks = vec![ident("skip"), AttrToken::Eq];
    let err = tokenize_pairs(&toks).unwrap_err();
    assert_eq!(err, TokenError::ExpectedExpression { index: 2 });
    assert_eq!(err.message(), "expected expression");

    let toks = vec![ident("skip"), AttrToken::Eq, AttrToken::Comma, ident("x")];
    let err = tokenize_pairs(&toks).unwrap_err();
    assert_eq!(err, TokenError::ExpectedExpression { index: 2 });
}

#[test]
fn missing_comma_rejected() {
    let toks = vec![ident("skip"), ident("timeout")];
    let err = tokenize_pairs(&toks).unwrap_err();
    assert_eq!(err, TokenError::ExpectedComma { index: 1 });
    assert_eq!(err.message(), "expected comma");
}

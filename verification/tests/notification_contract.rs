use mykobo_rs::json::{JsonNumber, JsonValue};
use mykobo_rs::notification_contract::parser::{parse_predicate, ParseError};
use mykobo_rs::notification_contract::predicates::{Literal, MatchError, Predicate};

fn obj(members: &[(&str, &str)]) -> JsonValue {
    JsonValue::Object(
        members
            .iter()
            .map(|(k, v)| (k.to_string(), JsonValue::String(v.to_string())))
            .collect(),
    )
}

fn message(r: Result<Predicate, ParseError>) -> String {
    match r {
        Err(ParseError::Msg(m)) => m,
        Ok(p) => panic!("expected an error, got {:?}", p),
    }
}

#[test]
fn parses_equals() {
    let p = parse_predicate(r#"status == "FUNDS_RECEIVED""#).unwrap();
    assert_eq!(
        p,
        Predicate::Equals {
            field: "status".into(),
            value: Literal::Str("FUNDS_RECEIVED".into()),
        }
    );
}

#[test]
fn parses_in() {
    let p = parse_predicate(r#"status in ["A", "B"]"#).unwrap();
    assert_eq!(
        p,
        Predicate::In {
            field: "status".into(),
            values: vec![Literal::Str("A".into()), Literal::Str("B".into())],
        }
    );
}

#[test]
fn parses_not_in() {
    let p = parse_predicate(r#"status not in ["PENDING"]"#).unwrap();
    assert_eq!(
        p,
        Predicate::NotIn {
            field: "status".into(),
            values: vec![Literal::Str("PENDING".into())],
        }
    );
}

#[test]
fn parses_and_or() {
    let p = parse_predicate(r#"a == "X" or b == "Y" and c == "Z""#).unwrap();
    // `and` binds tighter, so: Or(a==X, And(b==Y, c==Z))
    assert!(matches!(p, Predicate::Or(_, _)));
}

#[test]
fn parses_parens() {
    let p = parse_predicate(r#"(a == "X" or b == "Y") and c == "Z""#).unwrap();
    assert!(matches!(p, Predicate::And(_, _)));
}

#[test]
fn rejects_trailing_garbage() {
    assert!(parse_predicate(r#"a == "X" garbage"#).is_err());
}

#[test]
fn rejects_incomplete() {
    assert!(parse_predicate(r#"a =="#).is_err());
}

#[test]
fn parse_error_messages_are_exact() {
    assert_eq!(
        message(parse_predicate(r#"a == "X" garbage"#)),
        "trailing tokens at position 3"
    );
    assert_eq!(message(parse_predicate("a ==")), "expected literal, got None");
    assert_eq!(message(parse_predicate("a = 1")), "expected '=='");
    assert_eq!(message(parse_predicate("a ! 1")), "expected '!='");
    assert_eq!(message(parse_predicate(r#"a == "open"#)), "unterminated string literal");
    assert_eq!(message(parse_predicate("a == 1 & b")), "unexpected character: '&'");
    assert_eq!(
        message(parse_predicate("a == 99999999999999999999")),
        "bad int: number too large to fit in target type"
    );
    assert_eq!(
        message(parse_predicate("a < 1")),
        "unexpected character: '<'"
    );
    assert_eq!(
        message(parse_predicate("a b")),
        r#"expected comparator, got Some(Ident("b"))"#
    );
    assert_eq!(
        message(parse_predicate("== 1")),
        "expected identifier, got Some(EqEq)"
    );
    assert_eq!(message(parse_predicate("a not [1]")), "expected 'not in'");
    assert_eq!(message(parse_predicate("a in 1")), "expected '['");
    assert_eq!(
        message(parse_predicate("a in [1 2]")),
        "expected ',' or ']', got Some(Int(2))"
    );
    assert_eq!(message(parse_predicate("(a == 1")), "expected ')'");
    assert_eq!(message(parse_predicate("")), "expected identifier, got None");
}

#[test]
fn parses_integers_lists_and_keywords() {
    let p = parse_predicate("n != 42").unwrap();
    assert_eq!(
        p,
        Predicate::NotEquals {
            field: "n".into(),
            value: Literal::Int(42),
        }
    );
    let p = parse_predicate("status in []").unwrap();
    assert_eq!(
        p,
        Predicate::In {
            field: "status".into(),
            values: vec![],
        }
    );
    let p = parse_predicate("a_1 == 9223372036854775807").unwrap();
    assert_eq!(
        p,
        Predicate::Equals {
            field: "a_1".into(),
            value: Literal::Int(i64::MAX),
        }
    );
    let p = parse_predicate(r#"a == "X" or b == "Y" and c == "Z""#).unwrap();
    let eq = |f: &str, v: &str| {
        Box::new(Predicate::Equals {
            field: f.into(),
            value: Literal::Str(v.into()),
        })
    };
    assert_eq!(
        p,
        Predicate::Or(eq("a", "X"), Box::new(Predicate::And(eq("b", "Y"), eq("c", "Z"))))
    );
}

#[test]
fn equals_matches() {
    let p = Predicate::Equals {
        field: "status".into(),
        value: Literal::Str("FUNDS_RECEIVED".into()),
    };
    assert_eq!(p.matches(&obj(&[("status", "FUNDS_RECEIVED")])).unwrap(), true);
    assert_eq!(p.matches(&obj(&[("status", "PENDING")])).unwrap(), false);
}

#[test]
fn equals_missing_field_errors() {
    let p = Predicate::Equals {
        field: "status".into(),
        value: Literal::Str("X".into()),
    };
    assert!(matches!(p.matches(&obj(&[])), Err(MatchError::MissingField(_))));
}

#[test]
fn in_matches() {
    let p = Predicate::In {
        field: "status".into(),
        values: vec![Literal::Str("A".into()), Literal::Str("B".into())],
    };
    assert!(p.matches(&obj(&[("status", "A")])).unwrap());
    assert!(!p.matches(&obj(&[("status", "C")])).unwrap());
}

#[test]
fn and_short_circuits() {
    let p = Predicate::And(
        Box::new(Predicate::Equals { field: "x".into(), value: Literal::Str("1".into()) }),
        Box::new(Predicate::Equals { field: "y".into(), value: Literal::Str("2".into()) }),
    );
    assert!(p.matches(&obj(&[("x", "1"), ("y", "2")])).unwrap());
    assert!(!p.matches(&obj(&[("x", "0"), ("y", "2")])).unwrap());
}

#[test]
fn or_matches_either() {
    let p = Predicate::Or(
        Box::new(Predicate::Equals { field: "s".into(), value: Literal::Str("A".into()) }),
        Box::new(Predicate::Equals { field: "s".into(), value: Literal::Str("B".into()) }),
    );
    assert!(p.matches(&obj(&[("s", "A")])).unwrap());
    assert!(p.matches(&obj(&[("s", "B")])).unwrap());
    assert!(!p.matches(&obj(&[("s", "C")])).unwrap());
}

#[test]
fn short_circuit_skips_missing_right_field() {
    let p = parse_predicate(r#"x == "0" and missing == "1""#).unwrap();
    assert_eq!(p.matches(&obj(&[("x", "1")])).unwrap(), false);
    let p = parse_predicate(r#"x == "1" or missing == "1""#).unwrap();
    assert_eq!(p.matches(&obj(&[("x", "1")])).unwrap(), true);
    let p = parse_predicate(r#"x == "0" or missing == "1""#).unwrap();
    match p.matches(&obj(&[("x", "1")])) {
        Err(MatchError::MissingField(f)) => assert_eq!(f, "missing"),
        other => panic!("unexpected {:?}", other),
    }
}

#[test]
fn integer_literals_match_integer_numbers_only() {
    let p = parse_predicate("n in [1, 2]").unwrap();
    let payload = JsonValue::Object(vec![(
        "n".to_string(),
        JsonValue::Number(JsonNumber::Int(2)),
    )]);
    assert!(p.matches(&payload).unwrap());
    let text = JsonValue::Object(vec![("n".to_string(), JsonValue::String("2".into()))]);
    assert!(!p.matches(&text).unwrap());
    let float = JsonValue::Object(vec![(
        "n".to_string(),
        JsonValue::Number(JsonNumber::Other("2.0".into())),
    )]);
    assert!(!p.matches(&float).unwrap());
    let p = parse_predicate("n not in [1]").unwrap();
    assert!(p.matches(&payload).unwrap());
    assert!(matches!(p.matches(&JsonValue::Null), Err(MatchError::MissingField(_))));
}

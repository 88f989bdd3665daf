use mykobo_rs::json::{JsonNumber, JsonValue};
use mykobo_rs::message_bus::base::EventType;
use mykobo_rs::notification::events::notification_events;
use mykobo_rs::notification_contract::canonical::{canonicalize, text_less, to_canonical_json, to_canonical_value};
use mykobo_rs::notification_contract::parser::ParseError;
use mykobo_rs::notification_contract::registry::{
    Audience, Entry, RawEntry, RawRegistry, RawRule, Registry, RegistryError, Severity, VariantKind,
    REGISTRY_VERSION,
};

fn domain(rules: Vec<RawRule>, reason: Option<&str>) -> RawEntry {
    RawEntry {
        kind: "domain".into(),
        notifies: Some(rules),
        reason: reason.map(|r| r.to_string()),
        audience: None,
        severity: None,
    }
}

fn notification(audience: &str, severity: Option<&str>) -> RawEntry {
    RawEntry {
        kind: "notification".into(),
        notifies: None,
        reason: None,
        audience: Some(audience.into()),
        severity: severity.map(|s| s.to_string()),
    }
}

fn rule(when: Option<&str>, fires: &[&str]) -> RawRule {
    RawRule { when: when.map(|w| w.to_string()), fires: fires.iter().map(|f| f.to_string()).collect() }
}

/// A complete document: relay events are platform notifications, the
/// customer-notify failure is a customer notification, `NEW_TRANSACTION`
/// fires `RELAY_FAILED` when its status is `FAILED` and always fires
/// `RELAY_INITIATED`, everything else is a domain event without rules.
fn document() -> Vec<(String, RawEntry)> {
    let notifications = notification_events();
    let mut out = Vec::new();
    for e in EventType::all() {
        let entry = if e == EventType::NewTransaction {
            domain(
                vec![
                    rule(Some(r#"status == "FAILED""#), &["RELAY_FAILED"]),
                    rule(None, &["RELAY_INITIATED", "RELAY_COMPLETED"]),
                ],
                None,
            )
        } else if e == EventType::CustomerNotifyFailed {
            notification("customer", None)
        } else if notifications.contains(&e) {
            notification("platform", Some("warning"))
        } else {
            domain(vec![], Some("nothing to notify"))
        };
        out.push((e.as_str().to_string(), entry));
    }
    out.sort_by(|a, b| a.0.cmp(&b.0));
    out
}

fn load(variants: Vec<(String, RawEntry)>) -> Result<Registry, RegistryError> {
    Registry::from_raw(&RawRegistry { version: REGISTRY_VERSION, variants })
}

fn message(r: Result<Registry, RegistryError>) -> String {
    match r {
        Err(e) => e.to_message(),
        Ok(_) => panic!("expected an error"),
    }
}

fn replace(doc: &mut Vec<(String, RawEntry)>, name: &str, entry: RawEntry) {
    for item in doc.iter_mut() {
        if item.0 == name {
            item.1 = entry;
            return;
        }
    }
    panic!("no entry {name}");
}

fn status(s: &str) -> JsonValue {
    JsonValue::Object(vec![("status".to_string(), JsonValue::String(s.to_string()))])
}

#[test]
fn loads_a_complete_registry() {
    let reg = load(document()).unwrap();
    assert_eq!(reg.entries.len(), 36);
    for (i, (e, _)) in reg.entries.iter().enumerate() {
        assert_eq!(e.index(), i);
    }
    assert!(reg.is_notification(EventType::RelayFailed));
    assert!(!reg.is_notification(EventType::NewTransaction));
    assert_eq!(reg.audience_of(EventType::RelayFailed), Some(Audience::Platform));
    assert_eq!(reg.audience_of(EventType::CustomerNotifyFailed), Some(Audience::Customer));
    assert_eq!(reg.audience_of(EventType::NewTransaction), None);
    assert_eq!(reg.severity_of(EventType::RelayFailed), Some(Severity::Warning));
    assert_eq!(reg.severity_of(EventType::CustomerNotifyFailed), None);
    assert_eq!(reg.get(EventType::Payment).unwrap().kind(), VariantKind::Domain);
    assert_eq!(reg.get(EventType::RelayOnboarded).unwrap().kind(), VariantKind::Notification);
}

#[test]
fn notifications_follow_the_rules() {
    let reg = load(document()).unwrap();
    assert_eq!(
        reg.notifications_for(EventType::NewTransaction, &status("FAILED")),
        vec![EventType::RelayFailed, EventType::RelayInitiated, EventType::RelayCompleted]
    );
    assert_eq!(
        reg.notifications_for(EventType::NewTransaction, &status("OK")),
        vec![EventType::RelayInitiated, EventType::RelayCompleted]
    );
    // A condition over a missing field does not hold.
    assert_eq!(
        reg.notifications_for(EventType::NewTransaction, &JsonValue::Object(vec![])),
        vec![EventType::RelayInitiated, EventType::RelayCompleted]
    );
    assert!(reg.notifications_for(EventType::Payment, &status("FAILED")).is_empty());
    assert!(reg.notifications_for(EventType::RelayFailed, &status("FAILED")).is_empty());
    for e in reg.notifications_for(EventType::NewTransaction, &status("FAILED")) {
        assert!(reg.is_notification(e));
    }
}

#[test]
fn later_entries_replace_earlier_ones() {
    let mut doc = document();
    doc.push(("PAYMENT".to_string(), notification("platform", Some("critical"))));
    let reg = load(doc).unwrap();
    assert_eq!(reg.severity_of(EventType::Payment), Some(Severity::Critical));
}

#[test]
fn rejects_wrong_version() {
    let r = Registry::from_raw(&RawRegistry { version: 2, variants: document() });
    assert_eq!(message(r), "registry: unsupported registry version 2; expected 1");
}

#[test]
fn rejects_unknown_keys_and_kinds() {
    let mut doc = document();
    doc.insert(0, ("BOGUS".to_string(), domain(vec![], Some("x"))));
    assert_eq!(
        message(load(doc)),
        "registry: YAML key \"BOGUS\" does not resolve to an EventType variant"
    );
    let mut doc = document();
    replace(&mut doc, "PAYMENT", RawEntry { kind: "other".into(), ..domain(vec![], None) });
    assert_eq!(message(load(doc)), "registry: PAYMENT: invalid kind \"other\"");
}

#[test]
fn rejects_bad_notification_entries() {
    let cases: Vec<(RawEntry, &str)> = vec![
        (
            RawEntry { audience: None, ..notification("platform", Some("info")) },
            "registry: RELAY_FAILED: notification entry missing audience",
        ),
        (notification("staff", None), "registry: RELAY_FAILED: invalid audience \"staff\""),
        (
            notification("platform", None),
            "registry: RELAY_FAILED: platform-audience notification requires a `severity`",
        ),
        (
            notification("customer", Some("info")),
            "registry: RELAY_FAILED: customer-audience notification must not declare `severity`",
        ),
        (notification("platform", Some("loud")), "registry: RELAY_FAILED: invalid severity \"loud\""),
    ];
    for (entry, expected) in cases {
        let mut doc = document();
        replace(&mut doc, "RELAY_FAILED", entry);
        assert_eq!(message(load(doc)), expected);
    }
}

#[test]
fn rejects_bad_domain_entries() {
    let cases: Vec<(RawEntry, &str)> = vec![
        (
            RawEntry { notifies: None, ..domain(vec![], Some("x")) },
            "registry: PAYMENT: domain entry must declare `notifies`",
        ),
        (domain(vec![], None), "registry: PAYMENT: empty notifies requires a non-empty `reason`"),
        (domain(vec![], Some("")), "registry: PAYMENT: empty notifies requires a non-empty `reason`"),
        (
            domain(vec![rule(None, &["RELAY_FAILED"])], Some("x")),
            "registry: PAYMENT: `reason` is only valid when notifies is empty",
        ),
        (
            domain(vec![rule(None, &["RELAY_FAILED"]), rule(None, &[])], None),
            "registry: PAYMENT: notifies[1] must declare a non-empty `fires` list",
        ),
        (
            domain(vec![rule(None, &["RELAY_FAILED", "NOPE"])], None),
            "registry: PAYMENT: notifies[0] fires unknown variant \"NOPE\"",
        ),
    ];
    for (entry, expected) in cases {
        let mut doc = document();
        replace(&mut doc, "PAYMENT", entry);
        assert_eq!(message(load(doc)), expected);
    }
}

#[test]
fn condition_errors_come_before_unknown_targets() {
    let mut doc = document();
    replace(&mut doc, "PAYMENT", domain(vec![rule(Some("a =="), &["NOPE"])], None));
    match load(doc) {
        Err(RegistryError::Parse(ParseError::Msg(m))) => {
            assert_eq!(m, "expected literal, got None");
        }
        other => panic!("unexpected {:?}", other.map(|_| ())),
    }
    let mut doc = document();
    replace(&mut doc, "PAYMENT", domain(vec![rule(Some("a =="), &["NOPE"])], None));
    assert_eq!(
        message(load(doc)),
        "registry parse: predicate parse error: expected literal, got None"
    );
}

#[test]
fn rejects_missing_event_types() {
    let mut doc = document();
    doc.retain(|(n, _)| n != "PAYMENT" && n != "WITHDRAW_FAILED");
    assert_eq!(
        message(load(doc)),
        "registry: EventType variants missing from registry: [\"PAYMENT\", \"WITHDRAW_FAILED\"]"
    );
}

#[test]
fn rejects_firing_a_domain_event() {
    let mut doc = document();
    replace(&mut doc, "PAYMENT", domain(vec![rule(None, &["NEW_USER"])], None));
    assert_eq!(
        message(load(doc)),
        "registry: PAYMENT: fires target NEW_USER must be a kind:notification entry"
    );
}

#[test]
fn registry_errors_display() {
    assert_eq!(RegistryError::Yaml("bad".into()).to_message(), "registry yaml: bad");
    assert_eq!(RegistryError::Io("gone".into()).to_message(), "registry io: gone");
}

#[test]
fn text_order_is_by_character() {
    assert!(text_less("a", "b"));
    assert!(text_less("ab", "abc"));
    assert!(!text_less("abc", "ab"));
    assert!(!text_less("same", "same"));
    assert!(text_less("B", "a"));
}

#[test]
fn canonicalize_orders_members_at_every_depth() {
    let v = JsonValue::Object(vec![
        ("z".to_string(), JsonValue::Number(JsonNumber::Int(1))),
        (
            "a".to_string(),
            JsonValue::Array(vec![JsonValue::Object(vec![
                ("y".to_string(), JsonValue::Null),
                ("b".to_string(), JsonValue::Bool(true)),
            ])]),
        ),
        ("m".to_string(), JsonValue::String("s".into())),
    ]);
    let c = canonicalize(&v);
    let expected = JsonValue::Object(vec![
        (
            "a".to_string(),
            JsonValue::Array(vec![JsonValue::Object(vec![
                ("b".to_string(), JsonValue::Bool(true)),
                ("y".to_string(), JsonValue::Null),
            ])]),
        ),
        ("m".to_string(), JsonValue::String("s".into())),
        ("z".to_string(), JsonValue::Number(JsonNumber::Int(1))),
    ]);
    assert_eq!(c, expected);
    assert_eq!(canonicalize(&c), expected);
}

#[test]
fn canonical_value_of_a_registry() {
    let reg = load(document()).unwrap();
    let v = to_canonical_value(&reg);
    let top = match &v {
        JsonValue::Object(m) => m,
        _ => panic!("not an object"),
    };
    assert_eq!(top[0].0, "variants");
    assert_eq!(top[1], ("version".to_string(), JsonValue::Number(JsonNumber::Int(1))));
    let variants = match &top[0].1 {
        JsonValue::Object(m) => m,
        _ => panic!("not an object"),
    };
    assert_eq!(variants.len(), 36);
    assert_eq!(variants[0].0, "ADDRESS_ONBOARDED");
    for w in variants.windows(2) {
        assert!(w[0].0 < w[1].0);
    }
    let relay_failed = variants.iter().find(|(k, _)| k == "RELAY_FAILED").unwrap();
    assert_eq!(
        relay_failed.1,
        JsonValue::Object(vec![
            ("audience".to_string(), JsonValue::String("platform".into())),
            ("kind".to_string(), JsonValue::String("notification".into())),
            ("severity".to_string(), JsonValue::String("warning".into())),
        ])
    );
    let new_tx = variants.iter().find(|(k, _)| k == "NEW_TRANSACTION").unwrap();
    let expected_rule = JsonValue::Object(vec![
        ("fires".to_string(), JsonValue::Array(vec![JsonValue::String("RELAY_FAILED".into())])),
        (
            "when".to_string(),
            JsonValue::Object(vec![
                ("field".to_string(), JsonValue::String("status".into())),
                ("op".to_string(), JsonValue::String("eq".into())),
                ("value".to_string(), JsonValue::String("FAILED".into())),
            ]),
        ),
    ]);
    match &new_tx.1 {
        JsonValue::Object(m) => {
            assert_eq!(m[0].0, "kind");
            assert_eq!(m[1].0, "notifies");
            assert_eq!(m[2], ("reason".to_string(), JsonValue::Null));
            match &m[1].1 {
                JsonValue::Array(rules) => assert_eq!(rules[0], expected_rule),
                _ => panic!("not an array"),
            }
        }
        _ => panic!("not an object"),
    }
    match reg.get(EventType::Payment).unwrap() {
        Entry::Domain { reason, .. } => assert_eq!(reason.as_deref(), Some("nothing to notify")),
        _ => panic!("not a domain entry"),
    }
}

#[test]
fn canonical_json_text_of_a_registry() {
    let reg = load(document()).unwrap();
    let text = to_canonical_json(&reg);
    assert!(text.starts_with("{\n  \"variants\": {\n    \"ADDRESS_ONBOARDED\": {\n"));
    assert!(text.ends_with("\n  },\n  \"version\": 1\n}\n"));
    assert!(text.contains(
        "    \"RELAY_FAILED\": {\n      \"audience\": \"platform\",\n      \"kind\": \"notification\",\n      \"severity\": \"warning\"\n    },\n"
    ));
    assert_eq!(text, to_canonical_json(&reg));
}

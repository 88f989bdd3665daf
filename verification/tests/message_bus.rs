use mykobo_rs::message_bus::base::{
    validate_required_fields, EventType, InstructionType, PaymentDirection, TransactionType,
};
use mykobo_rs::message_bus::event::{KycEventPayload, NewUserEventPayload, PasswordResetEventPayload};
use mykobo_rs::message_bus::instruction::{
    BankPaymentRequestPayload, PaymentPayload, TransactionPayload, UpdateProfilePayload,
};
use mykobo_rs::message_bus::message::{
    kind_for_event, kind_for_instruction, MessageBusMessage, MetaData, Payload, PayloadKind,
};
use mykobo_rs::message_bus::notification::{NotificationSubject, Severity};
use mykobo_rs::message_bus::sqs::SQSError;

fn meta(instruction: Option<InstructionType>, event: Option<EventType>) -> MetaData {
    MetaData {
        source: "SRC".into(),
        created_at: "2024-01-01T00:00:00Z".into(),
        token: "tok".into(),
        idempotency_key: "key-1".into(),
        instruction_type: instruction,
        event,
        ip_address: None,
    }
}

fn bank_request() -> BankPaymentRequestPayload {
    BankPaymentRequestPayload::new("REF".into(), "10.00".into(), "EUR".into(), "P1".into(), None)
        .unwrap()
}

#[test]
fn event_names_round_trip() {
    let all = EventType::all();
    assert_eq!(all.len(), 36);
    for (i, e) in all.iter().enumerate() {
        assert_eq!(e.index(), i);
        assert_eq!(EventType::try_from_name(e.as_str()).unwrap(), *e);
    }
    assert_eq!(EventType::CircleApi5xxBurst.as_str(), "CIRCLE_API_5XX_BURST");
    assert_eq!(EventType::KycEvent.as_str(), "KYC_EVENT");
    assert_eq!(EventType::try_from_name("NOPE"), Err("NOPE".to_string()));
    assert_eq!(InstructionType::BankPaymentRequest.as_str(), "BANK_PAYMENT_REQUEST");
    assert_eq!(TransactionType::Withdraw.as_str(), "WITHDRAW");
}

#[test]
fn payment_direction_from_text() {
    assert_eq!(PaymentDirection::from_text("inbound"), Some(PaymentDirection::Inbound));
    assert_eq!(PaymentDirection::from_text("\"Outbound\""), Some(PaymentDirection::Outbound));
    assert_eq!(PaymentDirection::from_text("both"), Some(PaymentDirection::Both));
    assert_eq!(PaymentDirection::from_text("sideways"), None);
    assert_eq!(PaymentDirection::default_direction(), PaymentDirection::Inbound);
    assert_eq!(PaymentDirection::Outbound.as_str(), "OUTBOUND");
}

#[test]
fn required_fields_report_blank_ones_in_order() {
    assert!(validate_required_fields(&[("a", "x"), ("b", "y")], "Thing").is_ok());
    let e = validate_required_fields(&[("a", " "), ("b", "y"), ("c", "")], "Thing").unwrap_err();
    assert_eq!(e.class_name, "Thing");
    assert_eq!(e.fields, vec!["a".to_string(), "c".to_string()]);
    assert_eq!(e.to_message(), "Thing missing required fields: a, c");
    let e = validate_required_fields(&[("a", "\t\n")], "T").unwrap_err();
    assert_eq!(e.fields, vec!["a".to_string()]);
}

#[test]
fn payloads_validate_their_fields() {
    let ok = NewUserEventPayload::new("Hello".into(), "id-1".into()).unwrap();
    assert_eq!(ok.title, "Hello");
    let e = NewUserEventPayload::new("".into(), " ".into()).unwrap_err();
    assert_eq!(e.class_name, "NewUserEventPayload");
    assert_eq!(e.fields, vec!["title".to_string(), "identifier".to_string()]);
    let e = PasswordResetEventPayload::new("to@x".into(), "".into()).unwrap_err();
    assert_eq!(e.fields, vec!["subject".to_string()]);
    assert!(KycEventPayload::new("t".into(), "i".into(), None, None).is_ok());
    let p = PaymentPayload::new(
        "P123".into(),
        "EUR".into(),
        "100.00".into(),
        "BANK".into(),
        PaymentDirection::Inbound,
        "REF123".into(),
        None,
        None,
    )
    .unwrap();
    assert_eq!(p.currency, "EUR");
    let u = UpdateProfilePayload::new(
        "".into(),
        None,
        None,
        None,
        None,
        None,
        None,
        None,
        None,
        None,
    );
    assert_eq!(u.profile_id, "");
}

#[test]
fn transaction_payload_needs_payer_or_payee() {
    let build = |t: TransactionType, payer: Option<String>, payee: Option<String>| {
        TransactionPayload::new(
            "EXT".into(),
            "SRC".into(),
            "REF".into(),
            "Ada".into(),
            "Lovelace".into(),
            t,
            "PENDING".into(),
            "EUR".into(),
            "USDC".into(),
            "10".into(),
            "1".into(),
            payer,
            payee,
        )
    };
    let e = build(TransactionType::Deposit, None, None).unwrap_err();
    assert_eq!(e.fields, vec!["payer (required for DEPOSIT transactions)".to_string()]);
    let e = build(TransactionType::Withdraw, None, None).unwrap_err();
    assert_eq!(e.fields, vec!["payee (required for WITHDRAW transactions)".to_string()]);
    assert!(build(TransactionType::Deposit, Some("p".into()), None).is_ok());
    assert!(build(TransactionType::Withdraw, None, Some("q".into())).is_ok());
    assert!(build(TransactionType::Transfer, None, None).is_ok());
}

#[test]
fn metadata_needs_exactly_one_kind() {
    assert!(meta(Some(InstructionType::Payment), None).validate().is_ok());
    assert!(meta(None, Some(EventType::NewUser)).validate().is_ok());
    let e = meta(None, None).validate().unwrap_err();
    assert_eq!(e.class_name, "MetaData");
    assert_eq!(e.fields, vec!["either instruction_type or event must be provided".to_string()]);
    let e = meta(Some(InstructionType::Payment), Some(EventType::NewUser)).validate().unwrap_err();
    assert_eq!(e.fields, vec!["cannot specify both instruction_type and event".to_string()]);
    let e = MetaData::new(
        " ".into(),
        "".into(),
        "t".into(),
        "k".into(),
        None,
        None,
        None,
    )
    .unwrap_err();
    assert_eq!(e.fields, vec!["source".to_string(), "created_at".to_string()]);
}

#[test]
fn message_payload_must_match_kind() {
    let m = MessageBusMessage::new(
        meta(Some(InstructionType::BankPaymentRequest), None),
        Payload::BankPaymentRequest(bank_request()),
    );
    assert!(m.is_ok());
    let e = MessageBusMessage::new(
        meta(Some(InstructionType::Payment), None),
        Payload::BankPaymentRequest(bank_request()),
    )
    .unwrap_err();
    assert_eq!(e.class_name, "MessageBusMessage");
    assert_eq!(e.fields, vec!["message type PAYMENT: PAYMENT requires matching payload type".to_string()]);
    let e = MessageBusMessage::new(
        meta(None, Some(EventType::RelayFailed)),
        Payload::BankPaymentRequest(bank_request()),
    )
    .unwrap_err();
    assert_eq!(
        e.fields,
        vec!["message type RELAY_FAILED: RELAY_FAILED requires matching payload type".to_string()]
    );
    let raw = MessageBusMessage::new(meta(None, Some(EventType::RelayFailed)), Payload::Raw("x".into()));
    assert!(raw.is_ok());
    let e = MessageBusMessage::new(meta(None, None), Payload::Raw("x".into())).unwrap_err();
    assert_eq!(e.class_name, "MetaData");
}

#[test]
fn payload_kinds_follow_the_metadata() {
    assert_eq!(kind_for_instruction(InstructionType::Mint), PayloadKind::Mint);
    assert_eq!(kind_for_event(EventType::Payment), Some(PayloadKind::PaymentEvent));
    assert_eq!(kind_for_event(EventType::KycEvent), Some(PayloadKind::Kyc));
    assert_eq!(kind_for_event(EventType::MintHeld), None);
    assert_eq!(meta(None, Some(EventType::NewTransaction)).expected_kind(), Some(PayloadKind::NewTransaction));
    assert_eq!(meta(Some(InstructionType::Burn), None).expected_kind(), Some(PayloadKind::Burn));
    assert_eq!(meta(None, None).expected_kind(), None);
    assert_eq!(Payload::Raw("r".into()).kind(), PayloadKind::Raw);
}

#[test]
fn create_fills_key_and_time() {
    let m = MessageBusMessage::create(
        "SRC".into(),
        Payload::BankPaymentRequest(bank_request()),
        "tok".into(),
        Some(InstructionType::BankPaymentRequest),
        None,
        Some("my-key".into()),
        Some("10.0.0.1".into()),
    )
    .unwrap();
    assert_eq!(m.meta_data.idempotency_key, "my-key");
    assert_eq!(m.meta_data.ip_address, Some("10.0.0.1".to_string()));
    assert!(m.meta_data.created_at.ends_with('Z'));
    assert_eq!(m.meta_data.created_at.len(), 20);
    let m = MessageBusMessage::create(
        "SRC".into(),
        Payload::Raw("hello".into()),
        "tok".into(),
        None,
        Some(EventType::NewUser),
        None,
        None,
    )
    .unwrap();
    let key = &m.meta_data.idempotency_key;
    assert_eq!(key.len(), 36);
    assert_eq!(key.matches('-').count(), 4);
    let e = MessageBusMessage::create(
        "".into(),
        Payload::Raw("hello".into()),
        "tok".into(),
        None,
        Some(EventType::NewUser),
        None,
        None,
    )
    .unwrap_err();
    assert_eq!(e.fields, vec!["source".to_string()]);
}

#[test]
fn severity_is_ordered() {
    assert!(Severity::Info < Severity::Warning);
    assert!(Severity::Warning < Severity::Critical);
    assert!(Severity::Info < Severity::Critical);
    assert_eq!(Severity::Info.partial_cmp(&Severity::Info), Some(std::cmp::Ordering::Equal));
    assert_eq!(Severity::Critical.as_str(), "critical");
    let mut v = vec![Severity::Critical, Severity::Info, Severity::Warning];
    v.sort();
    assert_eq!(v, vec![Severity::Info, Severity::Warning, Severity::Critical]);
    let s = NotificationSubject::Relay {
        id: "r".into(),
        source_chain: "a".into(),
        destination_chain: "b".into(),
    };
    assert_eq!(s.tag(), "relay");
    assert_eq!(NotificationSubject::Profile { user_id: "u".into() }.tag(), "profile");
}

#[test]
fn sqs_error_keeps_message() {
    assert_eq!(SQSError::new("boom".into()).message, "boom");
}

#[test]
fn payment_direction_from_wire_name_is_exact() {
    assert_eq!(PaymentDirection::from_wire_name("INBOUND"), Some(PaymentDirection::Inbound));
    assert_eq!(PaymentDirection::from_wire_name("OUTBOUND"), Some(PaymentDirection::Outbound));
    assert_eq!(PaymentDirection::from_wire_name("BOTH"), Some(PaymentDirection::Both));
    assert_eq!(PaymentDirection::from_wire_name("inbound"), None);
    assert_eq!(PaymentDirection::from_wire_name("\"INBOUND\""), None);
}

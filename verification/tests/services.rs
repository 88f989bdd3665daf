use mykobo_rs::business::{
    blacklisted_countries, get_risk_jurisdiction, whitelisted_countries, whitelisted_countries_risk,
};
use mykobo_rs::circle::{circle_addresses_url, relay_addresses_url, transactions_url};
use mykobo_rs::identity::{
    claims_are_current, service_claims_accepted, AcquisitionAction, KycStatus, TokenAcquisition, TokenClaims,
};
use mykobo_rs::ledger::{statuses_url, TransactionFilterRequest};
use mykobo_rs::message_bus::base::EventType;
use mykobo_rs::message_bus::kafka::{
    consumer_config, context_consumer_config, header_entry, producer_config, retries_exhausted,
    AttemptOutcome, KafkaSettings, RetryAction, RetryState,
};
use mykobo_rs::models::error::{KafkaError, MykoboStatusCode, ServiceError, TransportError};
use mykobo_rs::models::request::{scope_check, subject_check, Credentials};
use mykobo_rs::models::response::auth::ServiceToken;
use mykobo_rs::models::response::dapp::{Transaction, TransactionSource, TransactionStatus, TransactionType};
use mykobo_rs::models::AuthError;
use mykobo_rs::notification::keys::IdempotencyKey;
use mykobo_rs::payment_intent::build_headers;
use mykobo_rs::util::{generate_headers, generate_id, id_from_uuid, query_url, with_bearer, DATE_TIME_FORMAT};
use mykobo_rs::wallets::wallet_profile_url;

fn token(t: &str) -> ServiceToken {
    ServiceToken { subject_id: "svc".into(), token: t.into(), refresh_token: "r".into() }
}

fn pairs(v: &[(String, String)]) -> Vec<(&str, &str)> {
    v.iter().map(|(a, b)| (a.as_str(), b.as_str())).collect()
}

#[test]
fn idempotency_key_for_event() {
    assert_eq!(
        IdempotencyKey::for_event("ledger", EventType::TransactionStatusUpdate, "T-1"),
        "ledger:transaction_status_update:T-1"
    );
    assert_eq!(
        IdempotencyKey::for_event("p", EventType::CircleApi5xxBurst, ""),
        "p:circle_api_5xx_burst:"
    );
}

#[test]
fn idempotency_key_for_bucket() {
    let ten = 1_704_103_200; // 2024-01-01T10:00:00Z
    let k = IdempotencyKey::for_bucket("svc", EventType::RelayFailed, Some("abc"), 3600, ten);
    assert_eq!(k, "svc:relay_failed:abc:2024-01-01T10:00:00+00:00");
    for offset in [0i64, 300, 3300, 3599] {
        assert_eq!(
            IdempotencyKey::for_bucket("svc", EventType::RelayFailed, Some("abc"), 3600, ten + offset),
            k
        );
    }
    assert_eq!(
        IdempotencyKey::for_bucket("svc", EventType::RelayFailed, Some("abc"), 3600, ten + 3600),
        "svc:relay_failed:abc:2024-01-01T11:00:00+00:00"
    );
    assert_eq!(
        IdempotencyKey::for_bucket("svc", EventType::MintHeld, None, 60, ten + 59),
        "svc:mint_held:2024-01-01T10:00:00+00:00"
    );
    // Before the epoch the bucket is still floored.
    assert_eq!(
        IdempotencyKey::for_bucket("svc", EventType::MintHeld, None, 3600, -1800),
        "svc:mint_held:1969-12-31T23:00:00+00:00"
    );
    assert_eq!(
        IdempotencyKey::for_bucket("svc", EventType::MintHeld, None, 3600, -1),
        "svc:mint_held:1969-12-31T23:00:00+00:00"
    );
    assert_eq!(
        IdempotencyKey::for_bucket("svc", EventType::MintHeld, None, 3600, -3600),
        "svc:mint_held:1969-12-31T23:00:00+00:00"
    );
    assert_eq!(
        IdempotencyKey::for_bucket("svc", EventType::MintHeld, None, 3600, -3601),
        "svc:mint_held:1969-12-31T22:00:00+00:00"
    );
}

#[test]
fn country_tables() {
    let white = whitelisted_countries();
    assert_eq!(white.len(), 36);
    assert!(white.contains(&("GI", "Gibraltar")));
    let risk = whitelisted_countries_risk();
    assert_eq!(risk.len(), 36);
    assert!(risk.contains(&("HR", ("Croatia", "MEDIUM"))));
    let black = blacklisted_countries();
    assert_eq!(black.len(), 63);
    assert!(black.contains(&("GB", "United Kingdom")));
    for (code, _) in &black {
        assert!(!white.iter().any(|(c, _)| c == code));
    }
    assert_eq!(get_risk_jurisdiction("BG"), Some("MEDIUM".to_string()));
    assert_eq!(get_risk_jurisdiction("US"), Some("LOW".to_string()));
    assert_eq!(get_risk_jurisdiction("GB"), None);
    assert_eq!(get_risk_jurisdiction("us"), None);
}

#[test]
fn status_codes_and_service_errors() {
    assert_eq!(MykoboStatusCode::from_status_code(404), MykoboStatusCode::NotFound);
    assert_eq!(MykoboStatusCode::from_status_code(400), MykoboStatusCode::BadRequest);
    assert_eq!(MykoboStatusCode::from_status_code(401), MykoboStatusCode::Unauthorised);
    assert_eq!(MykoboStatusCode::from_status_code(500), MykoboStatusCode::InternalServerError);
    assert_eq!(MykoboStatusCode::from_status_code(409), MykoboStatusCode::Conflict);
    assert_eq!(MykoboStatusCode::from_status_code(503), MykoboStatusCode::DependencyFailed);
    assert_eq!(MykoboStatusCode::default(), MykoboStatusCode::DependencyFailed);
    let t = |connect, timeout, request, status| TransportError {
        connect,
        timeout,
        request,
        text: "boom".into(),
        status,
    };
    let e = ServiceError::from_transport(t(true, false, false, None));
    assert_eq!(e.error.as_deref(), Some("Connection error"));
    assert_eq!(e.message.as_deref(), Some("Connection error"));
    assert_eq!(e.status, MykoboStatusCode::BadRequest);
    let e = ServiceError::from_transport(t(false, true, true, Some(404)));
    assert_eq!(e.to_message(), "Connection error");
    assert_eq!(e.status, MykoboStatusCode::NotFound);
    let e = ServiceError::from_transport(t(false, false, true, Some(502)));
    assert_eq!(e.to_message(), "Bad Request");
    assert_eq!(e.status, MykoboStatusCode::DependencyFailed);
    let e = ServiceError::from_transport(t(false, false, false, Some(409)));
    assert_eq!(e.to_message(), "boom");
    let e = e.with_status(401);
    assert_eq!(e.status, MykoboStatusCode::Unauthorised);
    let blank = ServiceError { error: None, message: None, description: None, status: MykoboStatusCode::NotFound };
    assert_eq!(blank.to_message(), "Unknown error - U");
    let e = ServiceError::token_claim_error("InvalidToken");
    assert_eq!(e.to_message(), "Could not extract token claim InvalidToken");
    assert_eq!(e.status, MykoboStatusCode::DependencyFailed);
    assert_eq!(KafkaError::Timeout("5s".into()).to_message(), "Connection timeout: 5s");
    assert_eq!(KafkaError::ClientCreation("x".into()).to_message(), "Failed to create Kafka client: x");
    assert_eq!(retries_exhausted().to_message(), "Message delivery failed: Max retries exceeded");
    assert_eq!(AuthError::new("nope".into()).message, "nope");
    let c = Credentials::new("ak".into(), "sk".into());
    assert_eq!((c.access_key.as_str(), c.secret_key.as_str()), ("ak", "sk"));
    let s = scope_check("tok", "read");
    assert_eq!((s.token.as_str(), s.scope.as_deref(), s.subject.as_deref()), ("tok", Some("read"), None));
    let s = subject_check("tok", "me");
    assert_eq!((s.scope.as_deref(), s.subject.as_deref()), (None, Some("me")));
}

fn settings(key: Option<&str>, secret: Option<&str>, protocol: Option<&str>) -> KafkaSettings {
    KafkaSettings {
        api_key: key.map(String::from),
        api_secret: secret.map(String::from),
        protocol: protocol.map(String::from),
        sasl_mechanism: None,
    }
}

#[test]
fn kafka_consumer_settings() {
    let v = consumer_config("b:9092", "g", "c", &settings(Some("k"), Some("s"), None)).unwrap();
    assert_eq!(
        pairs(&v),
        vec![
            ("auto.offset.reset", "earliest"),
            ("client.id", "c"),
            ("group.id", "g"),
            ("bootstrap.servers", "b:9092"),
            ("enable.partition.eof", "false"),
            ("session.timeout.ms", "45000"),
            ("heartbeat.interval.ms", "3000"),
            ("enable.auto.commit", "true"),
            ("socket.keepalive.enable", "true"),
            ("socket.connection.setup.timeout.ms", "10000"),
            ("connections.max.idle.ms", "540000"),
            ("security.protocol", "SASL_SSL"),
            ("sasl.mechanisms", "PLAIN"),
            ("sasl.username", "k"),
            ("sasl.password", "s"),
        ]
    );
    let e = consumer_config("b", "g", "c", &settings(None, Some("s"), None)).unwrap_err();
    assert_eq!(
        e.to_message(),
        "Failed to create Kafka client: KAFKA_API_KEY is required when protocol is SASL_SSL"
    );
    let e = consumer_config("b", "g", "c", &settings(Some("k"), None, Some("SASL_SSL"))).unwrap_err();
    assert!(matches!(e, KafkaError::ClientCreation(m) if m == "KAFKA_API_SECRET is required when protocol is SASL_SSL"));
    let v = consumer_config("b", "g", "c", &settings(None, None, Some("PLAINTEXT"))).unwrap();
    assert_eq!(v.len(), 13);
    assert_eq!(pairs(&v)[11], ("security.protocol", "PLAINTEXT"));
}

#[test]
fn kafka_producer_settings() {
    let v = producer_config("b", 30, &settings(None, None, Some("PLAINTEXT"))).unwrap();
    assert_eq!(
        pairs(&v),
        vec![
            ("bootstrap.servers", "b"),
            ("message.timeout.ms", "30"),
            ("request.timeout.ms", "60000"),
            ("compression.type", "gzip"),
            ("retries", "3"),
            ("retry.backoff.ms", "500"),
            ("request.required.acks", "all"),
            ("queue.buffering.max.messages", "100000"),
            ("socket.keepalive.enable", "true"),
            ("socket.connection.setup.timeout.ms", "10000"),
            ("connections.max.idle.ms", "540000"),
            ("security.protocol", "PLAINTEXT"),
            ("sasl.mechanisms", "PLAIN"),
        ]
    );
    assert!(producer_config("b", 30, &settings(None, None, None)).is_err());
}

#[test]
fn kafka_context_consumer_settings() {
    let v = context_consumer_config("b", "g", None, "k", "s");
    assert_eq!(
        pairs(&v),
        vec![
            ("group.id", "g"),
            ("bootstrap.servers", "b"),
            ("enable.partition.eof", "false"),
            ("session.timeout.ms", "6000"),
            ("enable.auto.commit", "true"),
            ("security.protocol", "SASL_SSL"),
            ("sasl.mechanisms", "PLAIN"),
            ("sasl.username", "k"),
            ("sasl.password", "s"),
        ]
    );
    let v = context_consumer_config("b", "g", Some("uniform"), "k", "s");
    assert!(!v.iter().any(|(k, _)| k == "session.timeout.ms"));
    assert_eq!(pairs(&v)[v.len() - 2], ("group.remote.assignor", "uniform"));
    assert_eq!(pairs(&v)[v.len() - 1], ("group.protocol", "consumer"));
}

#[test]
fn kafka_headers() {
    let (k, v) = header_entry("source", Some(b"svc"));
    assert_eq!((k.as_str(), v.as_str()), ("source", "svc"));
    assert_eq!(header_entry("bad", Some(&[0xff, 0xfe])).1, "");
    assert_eq!(header_entry("none", None).1, "");
}

#[test]
fn retry_policy_backs_off() {
    let (s, a) = RetryState::start(3);
    assert_eq!(a, RetryAction::Attempt);
    let (s, a) = s.after(AttemptOutcome::ParseFailed);
    assert_eq!(a, RetryAction::SleepThenAttempt(1));
    let (s, a) = s.after(AttemptOutcome::SendFailed);
    assert_eq!(a, RetryAction::Attempt);
    assert_eq!(s.retries, 1);
    let (s, a) = s.after(AttemptOutcome::ParseFailed);
    assert_eq!(a, RetryAction::SleepThenAttempt(2));
    let (s, a) = s.after(AttemptOutcome::ParseFailed);
    assert_eq!(a, RetryAction::SleepThenGiveUp(4));
    assert_eq!((s.retries, s.backoff_secs), (3, 8));
    let (_, a) = RetryState::start(0);
    assert_eq!(a, RetryAction::GiveUp);
    let (s, _) = RetryState::start(2);
    let (_, a) = s.after(AttemptOutcome::Forwarded);
    assert_eq!(a, RetryAction::Done);
}

#[test]
fn token_acquisition_retries() {
    let (s, a) = TokenAcquisition::begin(Some(token("old")), true, 3);
    assert_eq!(a, AcquisitionAction::Finish);
    assert_eq!(s.token.unwrap().token, "old");

    let (s, a) = TokenAcquisition::begin(None, false, 2);
    assert_eq!(a, AcquisitionAction::Acquire);
    let (s, a) = s.after(Some(token("new")));
    assert_eq!(a, AcquisitionAction::Finish);
    assert_eq!(s.token.unwrap().token, "new");

    let (s, _) = TokenAcquisition::begin(Some(token("stale")), false, 2);
    let (s, a) = s.after(None);
    assert_eq!(a, AcquisitionAction::Acquire);
    assert_eq!(s.token.as_ref().unwrap().token, "stale");
    let (s, a) = s.after(None);
    assert_eq!(a, AcquisitionAction::SleepThenAcquire);
    assert!(s.token.is_none());
    let (s, a) = s.after(Some(token("late")));
    assert_eq!(a, AcquisitionAction::Finish);
    assert_eq!(s.token.unwrap().token, "late");

    let (s, _) = TokenAcquisition::begin(None, false, 0);
    let (_, a) = s.after(None);
    assert_eq!(a, AcquisitionAction::Finish);

    let (s, _) = TokenAcquisition::begin(None, false, 1);
    let (s, _) = s.after(None);
    let (s, a) = s.after(None);
    assert_eq!(a, AcquisitionAction::SleepThenFinish);
    assert!(s.token.is_none());
}

#[test]
fn token_claims_expire() {
    let claims = TokenClaims { sub: "s".into(), iat: 0, exp: 100, aud: "Service".into(), scope: vec![] };
    assert!(claims_are_current(&Ok(claims.clone()), 99));
    assert!(!claims_are_current(&Ok(claims), 100));
    assert!(!claims_are_current(&Err(ServiceError::token_claim_error("x")), 0));
}

#[test]
fn request_headers() {
    let h = generate_headers(Some(token("abc")), Some("client".into()));
    assert_eq!(
        pairs(&h),
        vec![("authorization", "Bearer abc"), ("user-agent", "client"), ("content-type", "application/json")]
    );
    let h = generate_headers(None, None);
    assert_eq!(pairs(&h), vec![("content-type", "application/json")]);
    let h = with_bearer(generate_headers(Some(token("svc")), None), "user");
    assert_eq!(pairs(&h), vec![("authorization", "Bearer user"), ("content-type", "application/json")]);
    let h = with_bearer(generate_headers(None, None), "user");
    assert_eq!(pairs(&h), vec![("content-type", "application/json"), ("authorization", "Bearer user")]);
    let h = build_headers("u", &Some("mykobo-rs".into()));
    assert_eq!(
        pairs(&h),
        vec![("authorization", "Bearer u"), ("user-agent", "mykobo-rs"), ("content-type", "application/json")]
    );
    assert_eq!(build_headers("u", &None).len(), 2);
    assert_eq!(DATE_TIME_FORMAT, "%Y-%m-%d %H:%M:%SZ");
}

#[test]
fn generated_ids() {
    let id = generate_id("txn");
    assert!(id.starts_with("txn:"));
    let rest = &id[4..];
    assert_eq!(rest.len(), 32);
    assert!(rest.chars().all(|c| c.is_ascii_hexdigit() && !c.is_ascii_uppercase()));
    assert_eq!(&rest[12..13], "4");
    assert!(matches!(&rest[16..17], "8" | "9" | "a" | "b"));
    assert_ne!(generate_id("txn"), id);
}

#[test]
fn id_from_uuid_drops_hyphens() {
    assert_eq!(
        id_from_uuid("txn", "123e4567-e89b-42d3-a456-426614174000"),
        "txn:123e4567e89b42d3a456426614174000"
    );
    assert_eq!(id_from_uuid("", "a-b"), ":ab");
}

#[test]
fn service_urls() {
    assert_eq!(query_url("h/x", &vec![]), "h/x");
    assert_eq!(query_url("h/x", &vec!["a=1".into(), "b=2".into()]), "h/x?a=1&b=2");
    assert_eq!(relay_addresses_url("http://c", None), "http://c/relay-addresses");
    assert_eq!(relay_addresses_url("http://c", Some("ETH")), "http://c/relay-addresses?chain=ETH");
    assert_eq!(
        circle_addresses_url("http://c", Some("SOL"), None, Some("deposit")),
        "http://c/circle-addresses?chain=SOL&purpose=deposit"
    );
    assert_eq!(
        transactions_url("http://c", Some(2), Some(-5), None, Some("done"), Some("USDC"), None, Some("r")),
        "http://c/transactions?page=2&per_page=-5&status=done&token=USDC&recipient=r"
    );
    assert_eq!(transactions_url("http://c", None, None, None, None, None, None, None), "http://c/transactions");
    assert_eq!(statuses_url("http://l", None), "http://l/transactions/statuses");
    assert_eq!(
        statuses_url("http://l", Some("PENDING")),
        "http://l/transactions/statuses/transitions/PENDING"
    );
    assert_eq!(wallet_profile_url("http://w", "G1", Some("7")), "http://w/user/wallet/G1?memo=7");
    assert_eq!(wallet_profile_url("http://w", "G1", None), "http://w/user/wallet/G1");
    let f = TransactionFilterRequest::default();
    assert_eq!((f.page, f.limit), (Some(1), Some(10)));
    assert!(f.sources.is_none() && f.payer.is_none());
}

#[test]
fn dapp_transactions() {
    let mut t = Transaction::new(
        "REF".into(),
        "IK".into(),
        TransactionType::Withdraw,
        TransactionStatus::PendingPayee,
        "USDC".into(),
        "EUR".into(),
        "12.5".into(),
        "0.1".into(),
        "wallet".into(),
        TransactionSource::AnchorStellar,
    );
    assert_eq!(t.id.len(), 36);
    assert_eq!(t.created_at, t.updated_at);
    assert!(t.payer_id.is_none() && t.tx_hash.is_none());
    t.update_status(TransactionStatus::Completed);
    t.set_tx_hash("0xabc".into());
    t.set_queue_info("msg-1".into());
    t.set_payer("payer".into(), Some("Ada".into()), None);
    t.set_payee("payee".into());
    t.set_ip_address("127.0.0.1".into());
    assert_eq!(t.status, TransactionStatus::Completed);
    assert_eq!(t.tx_hash.as_deref(), Some("0xabc"));
    assert_eq!(t.message_id.as_deref(), Some("msg-1"));
    assert!(t.queue_sent_at.is_some());
    assert_eq!(t.payer_id.as_deref(), Some("payer"));
    assert_eq!(t.first_name.as_deref(), Some("Ada"));
    assert_eq!(t.payee_id.as_deref(), Some("payee"));
    assert_eq!(t.ip_address.as_deref(), Some("127.0.0.1"));
    assert_eq!(t.reference, "REF");
    let d = Transaction::default();
    assert_eq!((d.value.as_str(), d.fee.as_str()), ("0.0", "0.0"));
    assert_eq!(d.transaction_type, TransactionType::Deposit);
    assert_eq!(d.source, TransactionSource::AnchorSolana);
}

#[test]
fn kyc_status_defaults_to_pending() {
    let s = KycStatus::default();
    assert_eq!(s.review_status, "pending");
    assert!(s.received_at.is_none());
}

#[test]
fn bucket_text_key_with_and_without_subject() {
    assert_eq!(
        IdempotencyKey::for_bucket_text("svc", EventType::RelayFailed, Some("abc"), "2024-01-01T00:00:00+00:00"),
        "svc:relay_failed:abc:2024-01-01T00:00:00+00:00"
    );
    assert_eq!(
        IdempotencyKey::for_bucket_text("svc", EventType::MintHeld, None, "B"),
        "svc:mint_held:B"
    );
}

#[test]
fn risk_table_agrees_with_whitelist() {
    let white = whitelisted_countries();
    let risk = whitelisted_countries_risk();
    assert_eq!(white.len(), risk.len());
    let medium = ["BG", "HR", "CZ", "HU", "RO", "SK", "SI"];
    for ((wc, wn), (rc, (rn, level))) in white.iter().zip(risk.iter()) {
        assert_eq!((wc, wn), (rc, rn));
        let expected = if medium.contains(rc) { "MEDIUM" } else { "LOW" };
        assert_eq!(*level, expected);
    }
}

#[test]
fn service_claims_need_audience_and_leeway() {
    let claims = TokenClaims { sub: "s".into(), iat: 0, exp: 1000, aud: "Service".into(), scope: vec![] };
    assert!(service_claims_accepted(&claims, 1000));
    assert!(service_claims_accepted(&claims, 1060));
    assert!(!service_claims_accepted(&claims, 1061));
    assert!(service_claims_accepted(&claims, 30));
    let other = TokenClaims { aud: "User".into(), ..claims };
    assert!(!service_claims_accepted(&other, 0));
}

//! Kafka: the client settings of consumers and producers, the retry policy
//! of message processing, and incoming messages.

use vstd::prelude::*;
use vstd::string::*;
use std::collections::HashMap;
use crate::models::error::KafkaError;
use crate::text::{decimal_text, str_equal, u64_to_text};

verus! {

/// The rdkafka client context of the consumers.
pub struct CustomContext;

/// A message taken from a topic: its headers and its decoded payload.
#[derive(Debug, Clone, Default)]
pub struct IncomingMessage<T> {
    pub headers: HashMap<String, String>,
    pub payload: T,
}

/// The connection settings that come from the environment: the API key
/// and secret, the security protocol and the SASL mechanism, each when set.
#[derive(Debug, Clone)]
pub struct KafkaSettings {
    pub api_key: Option<String>,
    pub api_secret: Option<String>,
    pub protocol: Option<String>,
    pub sasl_mechanism: Option<String>,
}

/// The security protocol in use: `SASL_SSL` unless set.
pub open spec fn protocol_of(s: KafkaSettings) -> Seq<char> {
    match s.protocol {
        Some(p) => p@,
        None => "SASL_SSL"@,
    }
}

/// The SASL mechanism in use: `PLAIN` unless set.
pub open spec fn mechanism_of(s: KafkaSettings) -> Seq<char> {
    match s.sasl_mechanism {
        Some(m) => m@,
        None => "PLAIN"@,
    }
}

/// The texts of a list of settings.
pub open spec fn settings_view(v: Seq<(String, String)>) -> Seq<(Seq<char>, Seq<char>)> {
    v.map_values(|p: (String, String)| (p.0@, p.1@))
}

/// The settings shared by consumers and producers at the end of their
/// lists: keep-alive, connection timeouts, protocol and mechanism.
pub open spec fn connection_tail(s: KafkaSettings) -> Seq<(Seq<char>, Seq<char>)> {
    seq![
        ("socket.keepalive.enable"@, "true"@),
        ("socket.connection.setup.timeout.ms"@, "10000"@),
        ("connections.max.idle.ms"@, "540000"@),
        ("security.protocol"@, protocol_of(s)),
        ("sasl.mechanisms"@, mechanism_of(s)),
    ]
}

/// The settings of a stream consumer, before the credentials.
pub open spec fn consumer_base(brokers: Seq<char>, group_id: Seq<char>, client_id: Seq<char>, s: KafkaSettings) -> Seq<(Seq<char>, Seq<char>)> {
    seq![
        ("auto.offset.reset"@, "earliest"@),
        ("client.id"@, client_id),
        ("group.id"@, group_id),
        ("bootstrap.servers"@, brokers),
        ("enable.partition.eof"@, "false"@),
        ("session.timeout.ms"@, "45000"@),
        ("heartbeat.interval.ms"@, "3000"@),
        ("enable.auto.commit"@, "true"@),
    ] + connection_tail(s)
}

/// The settings of a producer, before the credentials.
pub open spec fn producer_base(brokers: Seq<char>, timeout_in_secs: u64, s: KafkaSettings) -> Seq<(Seq<char>, Seq<char>)> {
    seq![
        ("bootstrap.servers"@, brokers),
        ("message.timeout.ms"@, decimal_text(timeout_in_secs as int)),
        ("request.timeout.ms"@, "60000"@),
        ("compression.type"@, "gzip"@),
        ("retries"@, "3"@),
        ("retry.backoff.ms"@, "500"@),
        ("request.required.acks"@, "all"@),
        ("queue.buffering.max.messages"@, "100000"@),
    ] + connection_tail(s)
}

/// The full settings: under `SASL_SSL` the key and secret are added as the
/// SASL user name and password, and each must be set.
pub open spec fn with_credentials(base: Seq<(Seq<char>, Seq<char>)>, s: KafkaSettings) -> Result<Seq<(Seq<char>, Seq<char>)>, Seq<char>> {
    if protocol_of(s) == "SASL_SSL"@ {
        match (s.api_key, s.api_secret) {
            (None, _) => Err("KAFKA_API_KEY is required when protocol is SASL_SSL"@),
            (Some(_), None) => Err("KAFKA_API_SECRET is required when protocol is SASL_SSL"@),
            (Some(k), Some(p)) => Ok(base + seq![("sasl.username"@, k@), ("sasl.password"@, p@)]),
        }
    } else {
        Ok(base)
    }
}

/// A settings outcome agrees with its value; an error is a client-creation
/// error.
pub open spec fn settings_as(
    r: Result<Vec<(String, String)>, KafkaError>,
    s: Result<Seq<(Seq<char>, Seq<char>)>, Seq<char>>,
) -> bool {
    match s {
        Ok(v) => r matches Ok(x) && settings_view(x@) == v,
        Err(m) => r matches Err(KafkaError::ClientCreation(x)) && x@ == m,
    }
}

/// Appends a setting.
fn push_setting(v: &mut Vec<(String, String)>, key: &str, value: &str)
    ensures
        settings_view(final(v)@) == settings_view(old(v)@).push((key@, value@)),
{
    v.push((key.to_owned(), value.to_owned()));
    assert(settings_view(v@) =~= settings_view(old(v)@).push((key@, value@)));
}

/// The protocol in use.
fn protocol(s: &KafkaSettings) -> (r: String)
    ensures
        r@ == protocol_of(*s),
{
    match &s.protocol {
        Some(p) => p.clone(),
        None => "SASL_SSL".to_owned(),
    }
}

/// The mechanism in use.
fn mechanism(s: &KafkaSettings) -> (r: String)
    ensures
        r@ == mechanism_of(*s),
{
    match &s.sasl_mechanism {
        Some(m) => m.clone(),
        None => "PLAIN".to_owned(),
    }
}

/// Appends the shared connection settings.
fn push_connection_tail(v: &mut Vec<(String, String)>, s: &KafkaSettings)
    ensures
        settings_view(final(v)@) == settings_view(old(v)@) + connection_tail(*s),
{
    let p = protocol(s);
    let m = mechanism(s);
    push_setting(v, "socket.keepalive.enable", "true");
    push_setting(v, "socket.connection.setup.timeout.ms", "10000");
    push_setting(v, "connections.max.idle.ms", "540000");
    push_setting(v, "security.protocol", p.as_str());
    push_setting(v, "sasl.mechanisms", m.as_str());
    assert(settings_view(v@) =~= settings_view(old(v)@) + connection_tail(*s));
}

/// Adds the credentials that `SASL_SSL` needs.
fn add_credentials(v: Vec<(String, String)>, s: &KafkaSettings) -> (r: Result<Vec<(String, String)>, KafkaError>)
    ensures
        settings_as(r, with_credentials(settings_view(v@), *s)),
{
    let p = protocol(s);
    if str_equal(p.as_str(), "SASL_SSL") {
        let key = match &s.api_key {
            Some(k) => k,
            None => {
                return Err(
                    KafkaError::ClientCreation("KAFKA_API_KEY is required when protocol is SASL_SSL".to_owned()),
                );
            },
        };
        let secret = match &s.api_secret {
            Some(x) => x,
            None => {
                return Err(
                    KafkaError::ClientCreation("KAFKA_API_SECRET is required when protocol is SASL_SSL".to_owned()),
                );
            },
        };
        let mut out = v;
        let ghost before = settings_view(out@);
        push_setting(&mut out, "sasl.username", key.as_str());
        push_setting(&mut out, "sasl.password", secret.as_str());
        assert(settings_view(out@) =~= before + seq![
            ("sasl.username"@, key@),
            ("sasl.password"@, secret@),
        ]);
        Ok(out)
    } else {
        Ok(v)
    }
}

/// The settings of a stream consumer for a group: start at the earliest
/// offset, commit automatically, keep connections alive, and authenticate
/// as the environment says.
pub fn consumer_config(brokers: &str, group_id: &str, client_id: &str, settings: &KafkaSettings) -> (r: Result<
    Vec<(String, String)>,
    KafkaError,
>)
    ensures
        settings_as(r, with_credentials(consumer_base(brokers@, group_id@, client_id@, *settings), *settings)),
{
    let mut v: Vec<(String, String)> = Vec::new();
    push_setting(&mut v, "auto.offset.reset", "earliest");
    push_setting(&mut v, "client.id", client_id);
    push_setting(&mut v, "group.id", group_id);
    push_setting(&mut v, "bootstrap.servers", brokers);
    push_setting(&mut v, "enable.partition.eof", "false");
    push_setting(&mut v, "session.timeout.ms", "45000");
    push_setting(&mut v, "heartbeat.interval.ms", "3000");
    push_setting(&mut v, "enable.auto.commit", "true");
    push_connection_tail(&mut v, settings);
    assert(settings_view(v@) =~= consumer_base(brokers@, group_id@, client_id@, *settings));
    add_credentials(v, settings)
}

/// The settings of a producer: the delivery timeout, compression, retries,
/// acknowledgement by all replicas, and authentication as the environment
/// says.
pub fn producer_config(brokers: &str, timeout_in_secs: u64, settings: &KafkaSettings) -> (r: Result<
    Vec<(String, String)>,
    KafkaError,
>)
    ensures
        settings_as(r, with_credentials(producer_base(brokers@, timeout_in_secs, *settings), *settings)),
{
    let timeout = u64_to_text(timeout_in_secs);
    let mut v: Vec<(String, String)> = Vec::new();
    push_setting(&mut v, "bootstrap.servers", brokers);
    push_setting(&mut v, "message.timeout.ms", timeout.as_str());
    push_setting(&mut v, "request.timeout.ms", "60000");
    push_setting(&mut v, "compression.type", "gzip");
    push_setting(&mut v, "retries", "3");
    push_setting(&mut v, "retry.backoff.ms", "500");
    push_setting(&mut v, "request.required.acks", "all");
    push_setting(&mut v, "queue.buffering.max.messages", "100000");
    push_connection_tail(&mut v, settings);
    assert(settings_view(v@) =~= producer_base(brokers@, timeout_in_secs, *settings));
    add_credentials(v, settings)
}

/// The settings of a consumer with a custom context and SASL over SSL.
/// With a remote assignor, the consumer group protocol is used and the
/// session timeout is left to the broker.
pub open spec fn context_consumer_settings(
    brokers: Seq<char>,
    group_id: Seq<char>,
    assignor: Option<Seq<char>>,
    api_key: Seq<char>,
    api_secret: Seq<char>,
) -> Seq<(Seq<char>, Seq<char>)> {
    let head = seq![("group.id"@, group_id), ("bootstrap.servers"@, brokers), ("enable.partition.eof"@, "false"@)];
    let tail = seq![
        ("enable.auto.commit"@, "true"@),
        ("security.protocol"@, "SASL_SSL"@),
        ("sasl.mechanisms"@, "PLAIN"@),
        ("sasl.username"@, api_key),
        ("sasl.password"@, api_secret),
    ];
    match assignor {
        None => head + seq![("session.timeout.ms"@, "6000"@)] + tail,
        Some(a) => head + tail + seq![("group.remote.assignor"@, a), ("group.protocol"@, "consumer"@)],
    }
}

/// The settings of a consumer with a custom context.
pub fn context_consumer_config(
    brokers: &str,
    group_id: &str,
    assignor: Option<&str>,
    api_key: &str,
    api_secret: &str,
) -> (r: Vec<(String, String)>)
    ensures
        settings_view(r@) == context_consumer_settings(
            brokers@,
            group_id@,
            match assignor {
                Some(a) => Some(a@),
                None => None,
            },
            api_key@,
            api_secret@,
        ),
{
    let mut v: Vec<(String, String)> = Vec::new();
    push_setting(&mut v, "group.id", group_id);
    push_setting(&mut v, "bootstrap.servers", brokers);
    push_setting(&mut v, "enable.partition.eof", "false");
    if assignor.is_none() {
        push_setting(&mut v, "session.timeout.ms", "6000");
    }
    push_setting(&mut v, "enable.auto.commit", "true");
    push_setting(&mut v, "security.protocol", "SASL_SSL");
    push_setting(&mut v, "sasl.mechanisms", "PLAIN");
    push_setting(&mut v, "sasl.username", api_key);
    push_setting(&mut v, "sasl.password", api_secret);
    match assignor {
        Some(a) => {
            push_setting(&mut v, "group.remote.assignor", a);
            push_setting(&mut v, "group.protocol", "consumer");
        },
        None => {},
    }
    assert(settings_view(v@) =~= context_consumer_settings(
        brokers@,
        group_id@,
        match assignor {
            Some(a) => Some(a@),
            None => None,
        },
        api_key@,
        api_secret@,
    ));
    v
}

/// The text of a byte string when it is valid UTF-8.
pub uninterp spec fn utf8_decoded(bytes: Seq<u8>) -> Option<Seq<char>>;

/// Decodes a byte string as UTF-8: `std::str::from_utf8`, nothing when the
/// bytes are not valid UTF-8. The contract names the decoded text.
#[verifier::external_body]
fn utf8_text(bytes: &[u8]) -> (r: Option<String>)
    ensures
        match r {
            Some(s) => utf8_decoded(bytes@) == Some(s@),
            None => utf8_decoded(bytes@) is None,
        },
{
    match std::str::from_utf8(bytes) {
        Ok(s) => Some(s.to_owned()),
        Err(_) => None,
    }
}

/// A message header as text: a missing value or one that is not valid
/// UTF-8 reads as empty.
pub fn header_entry(key: &str, value: Option<&[u8]>) -> (r: (String, String))
    ensures
        r.0@ == key@,
        r.1@ == match value {
            Some(b) => match utf8_decoded(b@) {
                Some(t) => t,
                None => Seq::<char>::empty(),
            },
            None => Seq::<char>::empty(),
        },
{
    let text = match value {
        Some(b) => match utf8_text(b) {
            Some(t) => t,
            None => String::new(),
        },
        None => String::new(),
    };
    (key.to_owned(), text)
}

/// How an attempt to forward a message went.
#[derive(Debug, Clone, Copy, PartialEq, Eq, Structural)]
pub enum AttemptOutcome {
    /// The message was decoded and handed on.
    Forwarded,
    /// The message was decoded, but handing it on failed.
    SendFailed,
    /// The message could not be decoded.
    ParseFailed,
}

/// What to do next while processing a message.
#[derive(Debug, Clone, Copy, PartialEq, Eq, Structural)]
pub enum RetryAction {
    /// Try to decode and forward the message.
    Attempt,
    /// Wait this many seconds, then try again.
    SleepThenAttempt(u64),
    /// Wait this many seconds, then give up.
    SleepThenGiveUp(u64),
    /// The message was forwarded.
    Done,
    /// Give up: the retries are exhausted.
    GiveUp,
}

/// The progress of processing one message: the decoding failures so far,
/// how many are allowed, and the next wait in seconds, which doubles after
/// every decoding failure.
#[derive(Debug, Clone, Copy, PartialEq, Eq, Structural)]
pub struct RetryState {
    pub retries: u32,
    pub max_retries: u32,
    pub backoff_secs: u64,
}

/// Two to the power `k`.
pub open spec fn pow2(k: nat) -> nat
    decreases k,
{
    if k == 0 {
        1
    } else {
        2 * pow2((k - 1) as nat)
    }
}

impl RetryState {
    /// The state after `retries` decoding failures: the wait is `2^retries`
    /// seconds and the count stays within the limit.
    pub open spec fn consistent(&self) -> bool {
        &&& self.retries <= self.max_retries
        &&& self.backoff_secs == pow2(self.retries as nat)
    }

    /// Starts processing a message: try it, unless no attempt is allowed.
    pub fn start(max_retries: u32) -> (r: (RetryState, RetryAction))
        ensures
            r.0 == (RetryState { retries: 0, max_retries, backoff_secs: 1 }),
            r.0.consistent(),
            r.1 == if max_retries > 0 {
                RetryAction::Attempt
            } else {
                RetryAction::GiveUp
            },
    {
        let s = RetryState { retries: 0, max_retries, backoff_secs: 1 };
        if max_retries > 0 {
            (s, RetryAction::Attempt)
        } else {
            (s, RetryAction::GiveUp)
        }
    }

    /// The next step after an attempt. A forwarded message is done. A
    /// failed hand-off is tried again at once and does not count as a
    /// retry. A decoding failure counts: after waiting the current backoff,
    /// which then doubles, the message is tried again while retries remain.
    pub fn after(self, outcome: AttemptOutcome) -> (r: (RetryState, RetryAction))
        requires
            self.consistent(),
            self.retries < self.max_retries,
            outcome == AttemptOutcome::ParseFailed ==> self.backoff_secs <= u64::MAX / 2,
        ensures
            r.0.consistent(),
            r.0.max_retries == self.max_retries,
            match outcome {
                AttemptOutcome::Forwarded => r.0 == self && r.1 == RetryAction::Done,
                AttemptOutcome::SendFailed => r.0 == self && r.1 == RetryAction::Attempt,
                AttemptOutcome::ParseFailed => {
                    &&& r.0.retries == self.retries + 1
                    &&& r.0.backoff_secs == 2 * self.backoff_secs
                    &&& r.1 == if r.0.retries < self.max_retries {
                        RetryAction::SleepThenAttempt(self.backoff_secs)
                    } else {
                        RetryAction::SleepThenGiveUp(self.backoff_secs)
                    }
                },
            },
    {
        match outcome {
            AttemptOutcome::Forwarded => (self, RetryAction::Done),
            AttemptOutcome::SendFailed => (self, RetryAction::Attempt),
            AttemptOutcome::ParseFailed => {
                let wait = self.backoff_secs;
                let next = RetryState {
                    retries: self.retries + 1,
                    max_retries: self.max_retries,
                    backoff_secs: wait * 2,
                };
                if next.retries < self.max_retries {
                    (next, RetryAction::SleepThenAttempt(wait))
                } else {
                    (next, RetryAction::SleepThenGiveUp(wait))
                }
            },
        }
    }
}

/// The error when a message could not be decoded within the retries.
pub fn retries_exhausted() -> (e: KafkaError)
    ensures
        e matches KafkaError::MessageDelivery(m) && m@ == "Max retries exceeded"@,
{
    KafkaError::MessageDelivery("Max retries exceeded".to_owned())
}

/// The waits before the retries of a message are one second, then twice
/// the previous wait each time.
pub proof fn lemma_backoff_doubles(k: nat)
    ensures
        pow2(0) == 1,
        pow2(k + 1) == 2 * pow2(k),
{
}

} // verus!

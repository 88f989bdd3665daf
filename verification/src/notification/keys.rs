//! Deterministic idempotency keys for notification events.

use vstd::prelude::*;
use vstd::string::*;
use crate::message_bus::base::EventType;
use crate::text::{lower_ascii, lowercase_ascii};
use vstd::arithmetic::div_mod::{lemma_fundamental_div_mod, lemma_fundamental_div_mod_converse};

verus! {

/// Builds idempotency keys.
pub struct IdempotencyKey;

/// The largest number of seconds from the Unix epoch that a chrono
/// `DateTime<Utc>` can hold (the end of year 262142).
pub open spec fn max_utc_seconds() -> int {
    8210266876799
}

/// The smallest number of seconds from the Unix epoch that a chrono
/// `DateTime<Utc>` can hold (the start of year -262143).
pub open spec fn min_utc_seconds() -> int {
    -8334601315200
}

/// The text `%Y-%m-%dT%H:%M:%S+00:00` that chrono formats for the UTC
/// instant `secs` seconds after the Unix epoch.
pub uninterp spec fn utc_seconds_text(secs: int) -> Seq<char>;

/// Formats the UTC instant `secs` seconds after the Unix epoch as
/// `%Y-%m-%dT%H:%M:%S+00:00`: chrono's `Utc.timestamp_opt(0, 0)` plus
/// `Duration::seconds(secs)`, then `DateTime::format`. The contract names
/// the text; it requires the instant to lie within chrono's range, outside
/// of which the addition panics.
#[verifier::external_body]
fn format_utc_seconds(secs: i64) -> (r: String)
    requires
        min_utc_seconds() <= secs <= max_utc_seconds(),
    ensures
        r@ == utc_seconds_text(secs as int),
{
    let epoch = chrono::DateTime::<chrono::Utc>::UNIX_EPOCH;
    (epoch + chrono::Duration::seconds(secs)).format("%Y-%m-%dT%H:%M:%S+00:00").to_string()
}

/// The start of the window of `window` seconds that holds `secs`: the
/// greatest multiple of `window` at or before `secs` (floor division).
pub open spec fn bucket_start(secs: int, window: int) -> int {
    (secs / window) * window
}

/// The lowercase wire name of an event type.
pub open spec fn event_lower(event: EventType) -> Seq<char> {
    lower_ascii(event.spec_name())
}

/// `{producer}:{event_lower}:{subject_id}`.
pub open spec fn event_key(producer: Seq<char>, event: EventType, subject_id: Seq<char>) -> Seq<char> {
    producer + ":"@ + event_lower(event) + ":"@ + subject_id
}

/// `{producer}:{event_lower}:{subject_id}:{bucket}`, or without the subject
/// `{producer}:{event_lower}:{bucket}`, for the bucket that holds `secs`.
pub open spec fn bucket_key(
    producer: Seq<char>,
    event: EventType,
    subject_id: Option<Seq<char>>,
    window: int,
    secs: int,
) -> Seq<char> {
    bucket_text_key(producer, event, subject_id, utc_seconds_text(bucket_start(secs, window)))
}

/// `{producer}:{event_lower}:{subject_id}:{bucket}`, or without the subject
/// `{producer}:{event_lower}:{bucket}`, for a bucket already written as text.
pub open spec fn bucket_text_key(
    producer: Seq<char>,
    event: EventType,
    subject_id: Option<Seq<char>>,
    bucket: Seq<char>,
) -> Seq<char> {
    match subject_id {
        Some(id) => producer + ":"@ + event_lower(event) + ":"@ + id + ":"@ + bucket,
        None => producer + ":"@ + event_lower(event) + ":"@ + bucket,
    }
}

/// The view of an optional string slice.
pub open spec fn opt_str(s: Option<&str>) -> Option<Seq<char>> {
    match s {
        Some(t) => Some(t@),
        None => None,
    }
}

impl IdempotencyKey {
    /// A deterministic key for an event with a subject:
    /// `{producer}:{event_lower}:{subject_id}`, the event's wire name in lower case.
    pub fn for_event(producer: &str, event: EventType, subject_id: &str) -> (r: String)
        ensures
            r@ == event_key(producer@, event, subject_id@),
    {
        let lower = IdempotencyKey::event_to_lower(event);
        let mut r = producer.to_owned();
        r.append(":");
        r.append(lower.as_str());
        r.append(":");
        r.append(subject_id);
        r
    }

    /// A deterministic key for an event bucketed by a time window of
    /// `window_secs` seconds; `now_secs` is the Unix time of now in whole
    /// seconds, rounded down (chrono's `timestamp()`). All instants of one
    /// window share a key. The bucket is the floored UTC timestamp, the
    /// greatest multiple of the window at or before now, written as
    /// `YYYY-MM-DDTHH:MM:SS+00:00`; it must lie within chrono's range.
    pub fn for_bucket(
        producer: &str,
        event: EventType,
        subject_id: Option<&str>,
        window_secs: i64,
        now_secs: i64,
    ) -> (r: String)
        requires
            window_secs > 0,
            min_utc_seconds() <= bucket_start(now_secs as int, window_secs as int),
            now_secs <= max_utc_seconds(),
        ensures
            r@ == bucket_key(producer@, event, opt_str(subject_id), window_secs as int, now_secs as int),
    {
        let floored = IdempotencyKey::floor_to_window(now_secs, window_secs);
        let bucket = format_utc_seconds(floored);
        IdempotencyKey::for_bucket_text(producer, event, subject_id, bucket.as_str())
    }

    /// The key of a bucket already written as text:
    /// `{producer}:{event_lower}:{subject_id}:{bucket}`, or
    /// `{producer}:{event_lower}:{bucket}` without a subject.
    pub fn for_bucket_text(producer: &str, event: EventType, subject_id: Option<&str>, bucket: &str) -> (r: String)
        ensures
            r@ == bucket_text_key(producer@, event, opt_str(subject_id), bucket@),
    {
        let lower = IdempotencyKey::event_to_lower(event);
        let mut r = producer.to_owned();
        r.append(":");
        r.append(lower.as_str());
        r.append(":");
        match subject_id {
            Some(id) => {
                r.append(id);
                r.append(":");
            },
            None => {},
        }
        r.append(bucket);
        r
    }

    /// The start of the window that holds `secs`, rounding down.
    fn floor_to_window(secs: i64, window: i64) -> (r: i64)
        requires
            window > 0,
            min_utc_seconds() <= bucket_start(secs as int, window as int),
            secs <= max_utc_seconds(),
        ensures
            r == bucket_start(secs as int, window as int),
            min_utc_seconds() <= r <= max_utc_seconds(),
    {
        proof {
            lemma_bucket_start_bounds(secs as int, window as int);
        }
        if secs >= 0 {
            let q = secs / window;
            q * window
        } else {
            let pos = -secs;
            let q = pos / window;
            let rem = pos % window;
            proof {
                assert(pos == q * window + rem) by (nonlinear_arith)
                    requires
                        q == pos / window,
                        rem == pos % window,
                        window > 0,
                ;
            }
            if rem == 0 {
                proof {
                    assert(secs == (-q) * window + 0) by (nonlinear_arith)
                        requires
                            pos == q * window + rem,
                            rem == 0,
                            secs == -pos,
                    ;
                    lemma_fundamental_div_mod_converse(secs as int, window as int, -q, 0);
                    assert((-q) * window == -(q * window)) by (nonlinear_arith);
                }
                -(q * window)
            } else {
                proof {
                    assert(secs == (-q - 1) * window + (window - rem)) by (nonlinear_arith)
                        requires
                            pos == q * window + rem,
                            secs == -pos,
                    ;
                    lemma_fundamental_div_mod_converse(secs as int, window as int, -q - 1, window - rem);
                    assert((-q - 1) * window == -((q + 1) * window)) by (nonlinear_arith);
                }
                -((q + 1) * window)
            }
        }
    }

    /// The event type's wire name in lower case.
    fn event_to_lower(event: EventType) -> (r: String)
        ensures
            r@ == event_lower(event),
    {
        lowercase_ascii(event.as_str())
    }
}

/// All instants of one window give the same bucket key.
pub proof fn lemma_same_window_same_key(
    producer: Seq<char>,
    event: EventType,
    subject_id: Option<Seq<char>>,
    window: int,
    t1: int,
    t2: int,
)
    requires
        window > 0,
        t1 / window == t2 / window,
    ensures
        bucket_key(producer, event, subject_id, window, t1) == bucket_key(
            producer,
            event,
            subject_id,
            window,
            t2,
        ),
{
}

/// A window's bucket starts at or before the instant and less than one
/// window before it, at a multiple of the window.
pub proof fn lemma_bucket_start_bounds(secs: int, window: int)
    requires
        window > 0,
    ensures
        bucket_start(secs, window) <= secs < bucket_start(secs, window) + window,
        bucket_start(secs, window) % window == 0,
{
    let q = secs / window;
    lemma_fundamental_div_mod(secs, window);
    assert(q * window == window * q) by (nonlinear_arith);
    assert((q * window) % window == 0) by (nonlinear_arith)
        requires
            window > 0,
    ;
}

/// Two instants that lie in the same window give the same key: the bucket
/// of every instant from a window's start to its end is that start.
pub proof fn lemma_instants_in_window_share_key(
    producer: Seq<char>,
    event: EventType,
    subject_id: Option<Seq<char>>,
    window: int,
    start: int,
    t1: int,
    t2: int,
)
    requires
        window > 0,
        start % window == 0,
        start <= t1 < start + window,
        start <= t2 < start + window,
    ensures
        bucket_start(t1, window) == start,
        bucket_key(producer, event, subject_id, window, t1) == bucket_key(
            producer,
            event,
            subject_id,
            window,
            t2,
        ),
{
    let q = start / window;
    lemma_fundamental_div_mod(start, window);
    assert(start == q * window) by (nonlinear_arith)
        requires
            start == window * q + start % window,
            start % window == 0,
    ;
    lemma_fundamental_div_mod_converse(t1, window, q, t1 - q * window);
    lemma_fundamental_div_mod_converse(t2, window, q, t2 - q * window);
}

} // verus!

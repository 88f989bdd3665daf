//! Fresh identifiers and the current time, as texts.

use vstd::prelude::*;
use vstd::string::*;

verus! {

/// Whether a character is a lowercase hexadecimal digit.
pub open spec fn is_lower_hex(c: char) -> bool {
    ('0' <= c && c <= '9') || ('a' <= c && c <= 'f')
}

/// The hyphenated text of a UUID: 36 characters, hyphens at positions 8, 13,
/// 18 and 23, lowercase hexadecimal digits everywhere else.
pub open spec fn is_hyphenated_uuid(s: Seq<char>) -> bool {
    &&& s.len() == 36
    &&& forall|i: int|
        0 <= i < 36 ==> if i == 8 || i == 13 || i == 18 || i == 23 {
            #[trigger] s[i] == '-'
        } else {
            is_lower_hex(s[i])
        }
}

/// The hyphenated text of a random (version 4, RFC 4122 variant) UUID: the
/// version digit `4` at position 14 and one of `8`, `9`, `a`, `b` at
/// position 19.
pub open spec fn is_hyphenated_v4_uuid(s: Seq<char>) -> bool {
    &&& is_hyphenated_uuid(s)
    &&& s[14] == '4'
    &&& (s[19] == '8' || s[19] == '9' || s[19] == 'a' || s[19] == 'b')
}

/// A random version-4 UUID as text: `Uuid::new_v4().to_string()`.
/// The value is random; the contract states only its format: `Display` for
/// `Uuid` writes the lowercase hyphenated form, and `new_v4` sets the
/// version nibble to 4 and the variant bits to `10`.
#[verifier::external_body]
pub(crate) fn new_uuid_text() -> (r: String)
    ensures
        is_hyphenated_v4_uuid(r@),
{
    uuid::Uuid::new_v4().to_string()
}

/// The current UTC time in RFC 3339 form with whole seconds and a `Z` suffix:
/// `Utc::now().to_rfc3339_opts(SecondsFormat::Secs, true)`.
/// The value depends on the clock; the contract states only that the text
/// ends with the `Z` that chrono writes for a zero offset when asked to.
#[verifier::external_body]
pub(crate) fn now_rfc3339() -> (r: String)
    ensures
        r@.len() > 0,
        r@.last() == 'Z',
{
    chrono::Utc::now().to_rfc3339_opts(chrono::SecondsFormat::Secs, true)
}

/// An instant as seconds from the Unix epoch (rounded down) and the
/// nanoseconds past that second.
#[derive(Debug, Clone, Copy, PartialEq, Eq, Structural)]
pub struct UtcTimestamp {
    pub secs: i64,
    pub nanos: u32,
}

/// The current UTC instant: `Utc::now()`, read as `timestamp()` and
/// `timestamp_subsec_nanos()`. The value depends on the clock; the contract
/// states only the documented range of the nanoseconds, which exceed a
/// second only within a leap second.
#[verifier::external_body]
pub(crate) fn utc_now() -> (r: UtcTimestamp)
    ensures
        r.nanos < 2_000_000_000,
{
    let now = chrono::Utc::now();
    UtcTimestamp { secs: now.timestamp(), nanos: now.timestamp_subsec_nanos() }
}

} // verus!

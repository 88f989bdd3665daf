//! The identity service: when a service token is still good, and how a
//! client acquires a new one with retries.

use vstd::prelude::*;
use vstd::string::*;
use crate::models::error::ServiceError;
use crate::text::{decimal_text, str_equal, texts_of, u64_to_text};
use crate::util::{param_text, push_param, query_url, spec_query_url};
pub use crate::models::response::auth::{ServiceToken, TokenCheckResponse, TokenClaims};

verus! {

/// A document stored for a profile.
#[derive(Debug)]
pub struct NewDocumentResponse {
    pub profile_id: String,
    pub document_type: String,
    pub document_status: Option<String>,
    pub document_path: Option<String>,
    pub created_at: String,
    pub updated_at: Option<String>,
    pub document_sub_type: Option<String>,
    pub reject_reason: Option<String>,
    pub id: String,
}

/// A calendar date and wall-clock time without a zone, as chrono keeps it;
/// the library only carries such values.
#[verifier::external_type_specification]
#[verifier::external_body]
pub struct ExNaiveDateTime(chrono::NaiveDateTime);

/// The KYC review state of a customer, and when the review was received.
#[derive(Debug, Clone)]
pub struct KycStatus {
    pub review_status: String,
    pub received_at: Option<chrono::NaiveDateTime>,
}

impl Default for KycStatus {
    /// A review that is still pending and has not been received.
    fn default() -> (r: KycStatus)
        ensures
            r.review_status@ == "pending"@,
            r.received_at is None,
    {
        let r = KycStatus { review_status: String::from_str("pending"), received_at: None };
        r
    }
}

/// Whether decoded token claims are still current at `now_secs` seconds
/// from the Unix epoch: the token must have decoded, and it expires at its
/// `exp` second.
pub fn claims_are_current(claims: &Result<TokenClaims, ServiceError>, now_secs: usize) -> (r: bool)
    ensures
        r == (claims matches Ok(c) && c.exp > now_secs),
{
    match claims {
        Ok(c) => c.exp > now_secs,
        Err(_) => false,
    }
}

/// The audience that the client's authentication accepts in a service token.
pub open spec fn service_audience() -> Seq<char> {
    "Service"@
}

/// Whether decoded claims pass the token check of the client's
/// authentication at `now_secs` seconds from the Unix epoch: the audience
/// is `Service`, and the token has not been expired for more than the
/// 60 seconds of leeway that jsonwebtoken's validation allows by default.
pub fn service_claims_accepted(claims: &TokenClaims, now_secs: u64) -> (r: bool)
    ensures
        r == (claims.aud@ == service_audience() && claims.exp + 60 >= now_secs),
{
    let earliest: u64 = if now_secs >= 60 {
        now_secs - 60
    } else {
        0
    };
    let exp = claims.exp as u64;
    str_equal(claims.aud.as_str(), "Service") && exp >= earliest
}

/// What a client does next while acquiring a service token.
#[derive(Debug, Clone, Copy, PartialEq, Eq, Structural)]
pub enum AcquisitionAction {
    /// Ask the identity service for a token.
    Acquire,
    /// Wait three seconds, then ask again.
    SleepThenAcquire,
    /// Wait three seconds, then stop.
    SleepThenFinish,
    /// Stop: the acquisition's token is the client's token.
    Finish,
}

/// The progress of acquiring a service token: the token the client holds,
/// the number of retries allowed, the retries made, and whether the first
/// attempt has failed so that retries are under way.
#[derive(Debug, Clone)]
pub struct TokenAcquisition {
    pub token: Option<ServiceToken>,
    pub max_retries: i8,
    pub retries_done: i8,
    pub retrying: bool,
}

impl TokenAcquisition {
    /// Another attempt is allowed: the first one, or a retry below the limit.
    pub open spec fn may_attempt(&self) -> bool {
        if self.retrying {
            0 <= self.retries_done < self.max_retries
        } else {
            self.retries_done == 0
        }
    }

    /// Starts: a client whose token is still valid keeps it and stops;
    /// otherwise it asks for a token.
    pub fn begin(current: Option<ServiceToken>, current_valid: bool, max_retries: i8) -> (r: (
        TokenAcquisition,
        AcquisitionAction,
    ))
        ensures
            r.0.token == current,
            r.0.max_retries == max_retries,
            r.0.retries_done == 0,
            !r.0.retrying,
            r.1 == if current_valid {
                AcquisitionAction::Finish
            } else {
                AcquisitionAction::Acquire
            },
    {
        let s = TokenAcquisition { token: current, max_retries, retries_done: 0, retrying: false };
        if current_valid {
            (s, AcquisitionAction::Finish)
        } else {
            (s, AcquisitionAction::Acquire)
        }
    }

    /// The next step after asking for a token, with the token that came
    /// back or nothing when the call failed.
    ///
    /// After the first attempt: a token is kept and the client stops; a
    /// failure leaves the token as it was and starts the retries, if any are
    /// allowed. During the retries every attempt counts, and its outcome
    /// replaces the token: a token that came back, or nothing after a
    /// failure, which is followed by a three-second wait. The client asks
    /// again until the retries are used up, even after a success.
    pub fn after(self, result: Option<ServiceToken>) -> (r: (TokenAcquisition, AcquisitionAction))
        requires
            self.may_attempt(),
        ensures
            r.0.max_retries == self.max_retries,
            r.0.retrying,
            r.0.retries_done <= if self.max_retries > 0 {
                self.max_retries
            } else {
                0
            },
            r.1 == AcquisitionAction::Acquire || r.1 == AcquisitionAction::SleepThenAcquire ==> r.0.may_attempt(),
            !self.retrying ==> match result {
                Some(t) => r.0.token == Some(t) && r.0.retries_done == 0 && r.1
                    == AcquisitionAction::Finish,
                None => r.0.token == self.token && r.0.retries_done == 0 && r.1 == if self.max_retries
                    > 0 {
                    AcquisitionAction::Acquire
                } else {
                    AcquisitionAction::Finish
                },
            },
            self.retrying ==> {
                &&& r.0.token == result
                &&& r.0.retries_done == self.retries_done + 1
                &&& r.1 == match result {
                    Some(_) => if r.0.retries_done < self.max_retries {
                        AcquisitionAction::Acquire
                    } else {
                        AcquisitionAction::Finish
                    },
                    None => if r.0.retries_done < self.max_retries {
                        AcquisitionAction::SleepThenAcquire
                    } else {
                        AcquisitionAction::SleepThenFinish
                    },
                }
            },
    {
        if !self.retrying {
            match result {
                Some(t) => {
                    let s = TokenAcquisition {
                        token: Some(t),
                        max_retries: self.max_retries,
                        retries_done: 0,
                        retrying: true,
                    };
                    (s, AcquisitionAction::Finish)
                },
                None => {
                    let s = TokenAcquisition {
                        token: self.token,
                        max_retries: self.max_retries,
                        retries_done: 0,
                        retrying: true,
                    };
                    if self.max_retries > 0 {
                        (s, AcquisitionAction::Acquire)
                    } else {
                        (s, AcquisitionAction::Finish)
                    }
                },
            }
        } else {
            let done = self.retries_done + 1;
            let more = done < self.max_retries;
            let failed = result.is_none();
            let s = TokenAcquisition {
                token: result,
                max_retries: self.max_retries,
                retries_done: done,
                retrying: true,
            };
            if failed {
                if more {
                    (s, AcquisitionAction::SleepThenAcquire)
                } else {
                    (s, AcquisitionAction::SleepThenFinish)
                }
            } else {
                if more {
                    (s, AcquisitionAction::Acquire)
                } else {
                    (s, AcquisitionAction::Finish)
                }
            }
        }
    }
}

/// The parameter `name=value` when the value is given.
pub open spec fn opt_param(name: Seq<char>, value: Option<Seq<char>>) -> Seq<Seq<char>> {
    match value {
        Some(v) => seq![param_text(name, v)],
        None => seq![],
    }
}

/// The query of a listing of service profiles: status, page and page
/// size, each when given, in that order.
pub open spec fn services_query(status: Option<&str>, page: Option<u32>, page_size: Option<u32>) -> Seq<Seq<char>> {
    opt_param(
        "status"@,
        match status {
            Some(s) => Some(s@),
            None => None,
        },
    ) + opt_param(
        "page"@,
        match page {
            Some(p) => Some(decimal_text(p as int)),
            None => None,
        },
    ) + opt_param(
        "page_size"@,
        match page_size {
            Some(p) => Some(decimal_text(p as int)),
            None => None,
        },
    )
}

/// `{host}/service/list` with the listing's query.
pub fn services_list_url(host: &str, status: Option<&str>, page: Option<u32>, page_size: Option<u32>) -> (r: String)
    ensures
        r@ == spec_query_url(host@ + "/service/list"@, services_query(status, page, page_size)),
{
    let mut base = host.to_owned();
    base.append("/service/list");
    let mut params: Vec<String> = Vec::new();
    assert(texts_of(params@) =~= Seq::<Seq<char>>::empty());
    match status {
        Some(s) => push_param(&mut params, "status", s),
        None => {},
    }
    match page {
        Some(p) => {
            let t = u64_to_text(p as u64);
            push_param(&mut params, "page", t.as_str());
        },
        None => {},
    }
    match page_size {
        Some(p) => {
            let t = u64_to_text(p as u64);
            push_param(&mut params, "page_size", t.as_str());
        },
        None => {},
    }
    assert(texts_of(params@) =~= services_query(status, page, page_size));
    query_url(base.as_str(), &params)
}

} // verus!

//! Notification payloads carried by message-bus messages.

use vstd::prelude::*;
use vstd::string::*;
use vstd::std_specs::cmp::PartialOrdSpec;
use core::cmp::Ordering;
use crate::json::JsonValue;

verus! {

/// How important a platform notification is: `Info < Warning < Critical`.
#[derive(Debug, Clone, Copy, PartialEq, Eq, Structural, Ord)]
pub enum Severity {
    Info,
    Warning,
    Critical,
}

impl Severity {
    /// The place of the severity in the order, from the least important.
    pub open spec fn rank(self) -> nat {
        match self {
            Severity::Info => 0,
            Severity::Warning => 1,
            Severity::Critical => 2,
        }
    }

    /// The wire name of the severity, in lower case.
    pub open spec fn spec_name(self) -> Seq<char> {
        match self {
            Severity::Info => "info"@,
            Severity::Warning => "warning"@,
            Severity::Critical => "critical"@,
        }
    }

    /// The wire name of the severity, in lower case.
    pub fn as_str(&self) -> (r: &'static str)
        ensures
            r@ == self.spec_name(),
    {
        match self {
            Severity::Info => "info",
            Severity::Warning => "warning",
            Severity::Critical => "critical",
        }
    }

    /// The place of the severity in the order, from the least important.
    pub fn level(&self) -> (r: u8)
        ensures
            r == self.rank(),
    {
        match self {
            Severity::Info => 0,
            Severity::Warning => 1,
            Severity::Critical => 2,
        }
    }
}

impl PartialOrd for Severity {
    fn partial_cmp(&self, other: &Severity) -> (r: Option<Ordering>) {
        let a = self.level();
        let b = other.level();
        if a < b {
            Some(Ordering::Less)
        } else if a == b {
            Some(Ordering::Equal)
        } else {
            Some(Ordering::Greater)
        }
    }
}

impl vstd::std_specs::cmp::PartialOrdSpecImpl for Severity {
    open spec fn obeys_partial_cmp_spec() -> bool {
        true
    }

    open spec fn partial_cmp_spec(&self, other: &Severity) -> Option<Ordering> {
        if self.rank() < other.rank() {
            Some(Ordering::Less)
        } else if self.rank() == other.rank() {
            Some(Ordering::Equal)
        } else {
            Some(Ordering::Greater)
        }
    }
}

/// Severities are ordered `Info < Warning < Critical`.
pub proof fn lemma_severity_order()
    ensures
        Severity::Info.partial_cmp_spec(&Severity::Warning) == Some(Ordering::Less),
        Severity::Warning.partial_cmp_spec(&Severity::Critical) == Some(Ordering::Less),
        Severity::Info.partial_cmp_spec(&Severity::Critical) == Some(Ordering::Less),
        forall|s: Severity| #[trigger] s.partial_cmp_spec(&s) == Some(Ordering::Equal),
{
}

/// What a customer notification is about.
#[derive(Debug, Clone, PartialEq, Eq)]
pub enum NotificationSubject {
    Relay { id: String, source_chain: String, destination_chain: String },
    Transaction { reference: String },
    Profile { user_id: String },
}

impl NotificationSubject {
    /// The subject's type tag.
    pub open spec fn spec_tag(&self) -> Seq<char> {
        match self {
            NotificationSubject::Relay { .. } => "relay"@,
            NotificationSubject::Transaction { .. } => "transaction"@,
            NotificationSubject::Profile { .. } => "profile"@,
        }
    }

    /// The subject's type tag, as written in the `type` field.
    pub fn tag(&self) -> (r: &'static str)
        ensures
            r@ == self.spec_tag(),
    {
        match self {
            NotificationSubject::Relay { .. } => "relay",
            NotificationSubject::Transaction { .. } => "transaction",
            NotificationSubject::Profile { .. } => "profile",
        }
    }
}

/// A notification for a customer: what it is about and the rendered data.
#[derive(Debug, PartialEq)]
pub struct CustomerNotificationPayload {
    pub subject: NotificationSubject,
    pub data: JsonValue,
}

/// A notification for the platform's operators: how important it is, the
/// rendered data and a free-form subject.
#[derive(Debug, PartialEq)]
pub struct PlatformNotificationPayload {
    pub severity: Severity,
    pub data: JsonValue,
    pub subject: Option<String>,
}

} // verus!

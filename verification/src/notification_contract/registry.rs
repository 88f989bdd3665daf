//! The notification registry: which event types are domain events and which
//! are notifications, which notifications a domain event fires and when, and
//! how a registry document is checked as it is loaded.

use vstd::prelude::*;
use vstd::string::*;
use crate::json::JsonValue;
use crate::message_bus::base::{
    event_count, event_named, lemma_event_at, lemma_event_index, EventType,
};
use crate::notification_contract::parser::{parse_predicate, parse_predicate_spec, ParseError};
use crate::notification_contract::predicates::{spec_matches, Predicate, SpecPredicate};
use crate::text::{debug_str, decimal_text, join_strings, join_texts, str_debug_text, str_equal, texts_of, u64_to_text};

verus! {

/// The registry document version this library reads.
pub const REGISTRY_VERSION: u32 = 1;

/// Why a registry could not be loaded.
#[derive(Debug)]
pub enum RegistryError {
    Msg(String),
    Parse(ParseError),
    Yaml(String),
    Io(String),
}

/// A registry error as a mathematical value; `Parse` holds the message of
/// the predicate parse error.
pub enum SpecRegistryError {
    Msg(Seq<char>),
    Parse(Seq<char>),
    Yaml(Seq<char>),
    Io(Seq<char>),
}

impl View for RegistryError {
    type V = SpecRegistryError;

    open spec fn view(&self) -> SpecRegistryError {
        match self {
            RegistryError::Msg(m) => SpecRegistryError::Msg(m@),
            RegistryError::Parse(ParseError::Msg(m)) => SpecRegistryError::Parse(m@),
            RegistryError::Yaml(m) => SpecRegistryError::Yaml(m@),
            RegistryError::Io(m) => SpecRegistryError::Io(m@),
        }
    }
}

impl RegistryError {
    /// What the error displays as.
    pub open spec fn spec_message(&self) -> Seq<char> {
        match self {
            RegistryError::Msg(m) => "registry: "@ + m@,
            RegistryError::Parse(p) => "registry parse: "@ + p.spec_message(),
            RegistryError::Yaml(m) => "registry yaml: "@ + m@,
            RegistryError::Io(m) => "registry io: "@ + m@,
        }
    }

    /// The error's display text.
    pub fn to_message(&self) -> (r: String)
        ensures
            r@ == self.spec_message(),
    {
        match self {
            RegistryError::Msg(m) => {
                let mut r = "registry: ".to_owned();
                r.append(m.as_str());
                r
            },
            RegistryError::Parse(p) => {
                let mut r = "registry parse: ".to_owned();
                let t = p.to_message();
                r.append(t.as_str());
                r
            },
            RegistryError::Yaml(m) => {
                let mut r = "registry yaml: ".to_owned();
                r.append(m.as_str());
                r
            },
            RegistryError::Io(m) => {
                let mut r = "registry io: ".to_owned();
                r.append(m.as_str());
                r
            },
        }
    }
}

/// Whether an entry is a domain event or a notification.
#[derive(Debug, Clone, Copy, PartialEq, Eq, Structural)]
pub enum VariantKind {
    Domain,
    Notification,
}

/// Who a notification is for.
#[derive(Debug, Clone, Copy, PartialEq, Eq, Structural)]
pub enum Audience {
    Customer,
    Platform,
}

/// How urgent a platform notification is.
#[derive(Debug, Clone, Copy, PartialEq, Eq, Structural)]
pub enum Severity {
    Info,
    Warning,
    Critical,
}

/// Notifications a domain event fires, when its payload meets `when` (always
/// when there is no condition).
#[derive(Debug, PartialEq)]
pub struct NotificationRule {
    pub when: Option<Predicate>,
    pub fires: Vec<EventType>,
}

/// The registry's entry for one event type.
#[derive(Debug, PartialEq)]
pub enum Entry {
    Domain { notifies: Vec<NotificationRule>, reason: Option<String> },
    Notification { audience: Audience, severity: Option<Severity> },
}

/// A rule as a mathematical value.
pub struct SpecRule {
    pub when: Option<SpecPredicate>,
    pub fires: Seq<EventType>,
}

/// An entry as a mathematical value.
pub enum SpecEntry {
    Domain { notifies: Seq<SpecRule>, reason: Option<Seq<char>> },
    Notification { audience: Audience, severity: Option<Severity> },
}

impl View for NotificationRule {
    type V = SpecRule;

    open spec fn view(&self) -> SpecRule {
        SpecRule {
            when: match self.when {
                Some(p) => Some(p@),
                None => None,
            },
            fires: self.fires@,
        }
    }
}

/// The values of a list of rules.
pub open spec fn rules_view(rules: Seq<NotificationRule>) -> Seq<SpecRule> {
    rules.map_values(|r: NotificationRule| r@)
}

/// The value of an optional text.
pub open spec fn opt_text(s: Option<String>) -> Option<Seq<char>> {
    match s {
        Some(t) => Some(t@),
        None => None,
    }
}

impl View for Entry {
    type V = SpecEntry;

    open spec fn view(&self) -> SpecEntry {
        match self {
            Entry::Domain { notifies, reason } => SpecEntry::Domain {
                notifies: rules_view(notifies@),
                reason: opt_text(*reason),
            },
            Entry::Notification { audience, severity } => SpecEntry::Notification {
                audience: *audience,
                severity: *severity,
            },
        }
    }
}

impl Entry {
    /// Whether the entry is a domain event or a notification.
    pub fn kind(&self) -> (r: VariantKind)
        ensures
            r == (match self {
                Entry::Domain { .. } => VariantKind::Domain,
                Entry::Notification { .. } => VariantKind::Notification,
            }),
    {
        match self {
            Entry::Domain { .. } => VariantKind::Domain,
            Entry::Notification { .. } => VariantKind::Notification,
        }
    }
}

// ---------------------------------------------------------------------------
// The registry document as read
// ---------------------------------------------------------------------------

/// A registry document as read, before any check: the version and the
/// entries by event name, in the order the document's map yields them.
#[derive(Debug)]
pub struct RawRegistry {
    pub version: u32,
    pub variants: Vec<(String, RawEntry)>,
}

/// One entry of a registry document as read.
#[derive(Debug)]
pub struct RawEntry {
    pub kind: String,
    pub notifies: Option<Vec<RawRule>>,
    pub reason: Option<String>,
    pub audience: Option<String>,
    pub severity: Option<String>,
}

/// One rule of a domain entry as read.
#[derive(Debug)]
pub struct RawRule {
    pub when: Option<String>,
    pub fires: Vec<String>,
}

/// The event types named by a list of names, or the first name that names
/// none.
pub open spec fn resolve_fires(names: Seq<String>) -> Result<Seq<EventType>, Seq<char>>
    decreases names.len(),
{
    if names.len() == 0 {
        Ok(seq![])
    } else {
        match resolve_fires(names.drop_last()) {
            Err(n) => Err(n),
            Ok(es) => match event_named(names.last()@) {
                Some(e) => Ok(es.push(e)),
                None => Err(names.last()@),
            },
        }
    }
}

/// The start of the messages about the rule at `idx` of an entry, up to the
/// closing bracket.
pub open spec fn rule_prefix(ev: EventType, idx: int) -> Seq<char> {
    ev.spec_name() + ": notifies["@ + decimal_text(idx)
}

/// A message about an entry.
pub open spec fn entry_error(ev: EventType, rest: Seq<char>) -> SpecRegistryError {
    SpecRegistryError::Msg(ev.spec_name() + rest)
}

/// The condition of a rule as read: none, a parsed predicate, or the parse
/// error's message.
pub open spec fn spec_parse_when(when: Option<String>) -> Result<Option<SpecPredicate>, Seq<char>> {
    match when {
        None => Ok(None),
        Some(w) => match parse_predicate_spec(w@) {
            Ok(p) => Ok(Some(p)),
            Err(m) => Err(m),
        },
    }
}

/// How the rule at `idx` of a domain entry is read. An empty `fires` list is
/// reported first, then a condition that does not parse, then an unknown
/// event name.
pub open spec fn spec_parse_rule(ev: EventType, rule: RawRule, idx: int) -> Result<SpecRule, SpecRegistryError> {
    if rule.fires@.len() == 0 {
        Err(SpecRegistryError::Msg(rule_prefix(ev, idx) + "] must declare a non-empty `fires` list"@))
    } else {
        match spec_parse_when(rule.when) {
            Err(m) => Err(SpecRegistryError::Parse(m)),
            Ok(w) => match resolve_fires(rule.fires@) {
                Err(n) => Err(
                    SpecRegistryError::Msg(
                        rule_prefix(ev, idx) + "] fires unknown variant "@ + str_debug_text(n),
                    ),
                ),
                Ok(fs) => Ok(SpecRule { when: w, fires: fs }),
            },
        }
    }
}

/// How the rules of a domain entry are read, in order, up to the first error.
pub open spec fn spec_parse_rules(ev: EventType, rules: Seq<RawRule>) -> Result<Seq<SpecRule>, SpecRegistryError>
    decreases rules.len(),
{
    if rules.len() == 0 {
        Ok(seq![])
    } else {
        match spec_parse_rules(ev, rules.drop_last()) {
            Err(e) => Err(e),
            Ok(done) => match spec_parse_rule(ev, rules.last(), rules.len() - 1) {
                Err(e) => Err(e),
                Ok(r) => Ok(done.push(r)),
            },
        }
    }
}

/// Whether an optional reason is missing or empty.
pub open spec fn reason_empty(reason: Option<String>) -> bool {
    match reason {
        None => true,
        Some(r) => r@.len() == 0,
    }
}

/// How a domain entry is read: it must list its rules; with no rules it
/// must give a reason, and with rules it must not.
pub open spec fn spec_parse_domain(ev: EventType, raw: RawEntry) -> Result<SpecEntry, SpecRegistryError> {
    match raw.notifies {
        None => Err(entry_error(ev, ": domain entry must declare `notifies`"@)),
        Some(rules) => match spec_parse_rules(ev, rules@) {
            Err(e) => Err(e),
            Ok(rs) => if rs.len() == 0 && reason_empty(raw.reason) {
                Err(entry_error(ev, ": empty notifies requires a non-empty `reason`"@))
            } else if rs.len() > 0 && raw.reason is Some {
                Err(entry_error(ev, ": `reason` is only valid when notifies is empty"@))
            } else {
                Ok(SpecEntry::Domain { notifies: rs, reason: opt_text(raw.reason) })
            },
        },
    }
}

/// How a notification entry is read: a customer notification has no
/// severity, a platform notification must have one.
pub open spec fn spec_parse_notification(ev: EventType, raw: RawEntry) -> Result<SpecEntry, SpecRegistryError> {
    match raw.audience {
        None => Err(entry_error(ev, ": notification entry missing audience"@)),
        Some(a) => if a@ == "customer"@ {
            match raw.severity {
                None => Ok(SpecEntry::Notification { audience: Audience::Customer, severity: None }),
                Some(_) => Err(
                    entry_error(ev, ": customer-audience notification must not declare `severity`"@),
                ),
            }
        } else if a@ == "platform"@ {
            match raw.severity {
                None => Err(
                    entry_error(ev, ": platform-audience notification requires a `severity`"@),
                ),
                Some(s) => if s@ == "info"@ {
                    Ok(
                        SpecEntry::Notification {
                            audience: Audience::Platform,
                            severity: Some(Severity::Info),
                        },
                    )
                } else if s@ == "warning"@ {
                    Ok(
                        SpecEntry::Notification {
                            audience: Audience::Platform,
                            severity: Some(Severity::Warning),
                        },
                    )
                } else if s@ == "critical"@ {
                    Ok(
                        SpecEntry::Notification {
                            audience: Audience::Platform,
                            severity: Some(Severity::Critical),
                        },
                    )
                } else {
                    Err(entry_error(ev, ": invalid severity "@ + str_debug_text(s@)))
                },
            }
        } else {
            Err(entry_error(ev, ": invalid audience "@ + str_debug_text(a@)))
        },
    }
}

/// How an entry is read, by its kind.
pub open spec fn spec_parse_entry(ev: EventType, raw: RawEntry) -> Result<SpecEntry, SpecRegistryError> {
    if raw.kind@ == "domain"@ {
        spec_parse_domain(ev, raw)
    } else if raw.kind@ == "notification"@ {
        spec_parse_notification(ev, raw)
    } else {
        Err(entry_error(ev, ": invalid kind "@ + str_debug_text(raw.kind@)))
    }
}

/// An outcome agrees with its mathematical value.
pub open spec fn read_as<T: View>(r: Result<T, RegistryError>, s: Result<T::V, SpecRegistryError>) -> bool {
    match s {
        Ok(v) => r matches Ok(x) && x@ == v,
        Err(e) => r matches Err(x) && x@ == e,
    }
}

/// The error of an entry: the event's name, then `rest`.
fn entry_message(ev: EventType, rest: &str) -> (e: RegistryError)
    ensures
        e@ == entry_error(ev, rest@),
{
    let mut m = ev.as_str().to_owned();
    m.append(rest);
    RegistryError::Msg(m)
}

/// The error of an entry that quotes a text: the event's name, `rest`, then
/// the text in `Debug` form.
fn entry_message_quoting(ev: EventType, rest: &str, quoted: &str) -> (e: RegistryError)
    ensures
        e@ == entry_error(ev, rest@ + str_debug_text(quoted@)),
{
    let mut m = ev.as_str().to_owned();
    m.append(rest);
    let d = debug_str(quoted);
    m.append(d.as_str());
    proof {
        assert(ev.spec_name() + rest@ + str_debug_text(quoted@) =~= ev.spec_name() + (rest@
            + str_debug_text(quoted@)));
    }
    RegistryError::Msg(m)
}

/// The event types that a rule's names name, or the first name that names none.
fn resolve_names(names: &Vec<String>) -> (r: Result<Vec<EventType>, String>)
    ensures
        match resolve_fires(names@) {
            Ok(es) => r matches Ok(v) && v@ == es,
            Err(n) => r matches Err(x) && x@ == n,
        },
{
    let mut out: Vec<EventType> = Vec::new();
    let mut i: usize = 0;
    while i < names.len()
        invariant
            i <= names@.len(),
            resolve_fires(names@.take(i as int)) == Ok::<Seq<EventType>, Seq<char>>(out@),
        decreases names@.len() - i,
    {
        assert(names@.take(i + 1).drop_last() =~= names@.take(i as int));
        match EventType::try_from_name(names[i].as_str()) {
            Ok(e) => {
                out.push(e);
            },
            Err(_) => {
                proof {
                    lemma_resolve_fires_err_prefix(names@, i as int + 1);
                }
                return Err(names[i].clone());
            },
        }
        i = i + 1;
    }
    assert(names@.take(i as int) =~= names@);
    Ok(out)
}

/// An error in a prefix of the names is the error of the whole list.
proof fn lemma_resolve_fires_err_prefix(names: Seq<String>, k: int)
    requires
        0 <= k <= names.len(),
        resolve_fires(names.take(k)) is Err,
    ensures
        resolve_fires(names) == resolve_fires(names.take(k)),
    decreases names.len() - k,
{
    if k < names.len() {
        assert(names.take(k + 1).drop_last() =~= names.take(k));
        lemma_resolve_fires_err_prefix(names, k + 1);
    } else {
        assert(names.take(k) =~= names);
    }
}

/// Reads the rule at `idx` of a domain entry.
fn parse_rule(ev: EventType, rule: &RawRule, idx: usize) -> (r: Result<NotificationRule, RegistryError>)
    ensures
        read_as(r, spec_parse_rule(ev, *rule, idx as int)),
{
    if rule.fires.len() == 0 {
        let mut m = ev.as_str().to_owned();
        m.append(": notifies[");
        let d = u64_to_text(idx as u64);
        m.append(d.as_str());
        m.append("] must declare a non-empty `fires` list");
        return Err(RegistryError::Msg(m));
    }
    let resolved = resolve_names(&rule.fires);
    let when = match &rule.when {
        None => None,
        Some(w) => match parse_predicate(w.as_str()) {
            Ok(p) => Some(p),
            Err(e) => {
                return Err(RegistryError::Parse(e));
            },
        },
    };
    match resolved {
        Ok(fires) => {
            let r = NotificationRule { when, fires };
            Ok(r)
        },
        Err(n) => {
            let mut m = ev.as_str().to_owned();
            m.append(": notifies[");
            let d = u64_to_text(idx as u64);
            m.append(d.as_str());
            m.append("] fires unknown variant ");
            let q = debug_str(n.as_str());
            m.append(q.as_str());
            Err(RegistryError::Msg(m))
        },
    }
}

/// Reads a domain entry.
fn parse_domain(ev: EventType, raw: &RawEntry) -> (r: Result<Entry, RegistryError>)
    ensures
        read_as(r, spec_parse_domain(ev, *raw)),
{
    let rules_raw = match &raw.notifies {
        Some(rs) => rs,
        None => {
            return Err(entry_message(ev, ": domain entry must declare `notifies`"));
        },
    };
    let mut rules: Vec<NotificationRule> = Vec::new();
    let mut i: usize = 0;
    assert(rules_raw@.take(0) =~= Seq::<RawRule>::empty());
    assert(rules_view(rules@) =~= Seq::<SpecRule>::empty());
    while i < rules_raw.len()
        invariant
            i <= rules_raw@.len(),
            raw.notifies == Some(*rules_raw),
            spec_parse_rules(ev, rules_raw@.take(i as int)) == Ok::<Seq<SpecRule>, SpecRegistryError>(
                rules_view(rules@),
            ),
        decreases rules_raw@.len() - i,
    {
        assert(rules_raw@.take(i + 1).drop_last() =~= rules_raw@.take(i as int));
        match parse_rule(ev, &rules_raw[i], i) {
            Ok(rule) => {
                let ghost before = rules_view(rules@);
                rules.push(rule);
                assert(rules_view(rules@) =~= before.push(rules@.last()@));
            },
            Err(e) => {
                proof {
                    lemma_parse_rules_err_prefix(ev, rules_raw@, i as int + 1);
                }
                return Err(e);
            },
        }
        i = i + 1;
    }
    assert(rules_raw@.take(i as int) =~= rules_raw@);
    let reason_empty = match &raw.reason {
        None => true,
        Some(r) => r.as_str().is_empty(),
    };
    if rules.len() == 0 && reason_empty {
        return Err(entry_message(ev, ": empty notifies requires a non-empty `reason`"));
    }
    if rules.len() != 0 && raw.reason.is_some() {
        return Err(entry_message(ev, ": `reason` is only valid when notifies is empty"));
    }
    let reason = match &raw.reason {
        Some(r) => Some(r.clone()),
        None => None,
    };
    Ok(Entry::Domain { notifies: rules, reason })
}

/// An error in a prefix of the rules is the error of the whole list.
proof fn lemma_parse_rules_err_prefix(ev: EventType, rules: Seq<RawRule>, k: int)
    requires
        0 <= k <= rules.len(),
        spec_parse_rules(ev, rules.take(k)) is Err,
    ensures
        spec_parse_rules(ev, rules) == spec_parse_rules(ev, rules.take(k)),
    decreases rules.len() - k,
{
    if k < rules.len() {
        assert(rules.take(k + 1).drop_last() =~= rules.take(k));
        lemma_parse_rules_err_prefix(ev, rules, k + 1);
    } else {
        assert(rules.take(k) =~= rules);
    }
}

/// Reads a notification entry.
fn parse_notification(ev: EventType, raw: &RawEntry) -> (r: Result<Entry, RegistryError>)
    ensures
        read_as(r, spec_parse_notification(ev, *raw)),
{
    let audience = match &raw.audience {
        None => {
            return Err(entry_message(ev, ": notification entry missing audience"));
        },
        Some(a) => {
            if str_equal(a.as_str(), "customer") {
                Audience::Customer
            } else if str_equal(a.as_str(), "platform") {
                Audience::Platform
            } else {
                return Err(entry_message_quoting(ev, ": invalid audience ", a.as_str()));
            }
        },
    };
    let severity = match audience {
        Audience::Customer => match &raw.severity {
            None => None,
            Some(_) => {
                return Err(
                    entry_message(ev, ": customer-audience notification must not declare `severity`"),
                );
            },
        },
        Audience::Platform => match &raw.severity {
            None => {
                return Err(
                    entry_message(ev, ": platform-audience notification requires a `severity`"),
                );
            },
            Some(s) => {
                if str_equal(s.as_str(), "info") {
                    Some(Severity::Info)
                } else if str_equal(s.as_str(), "warning") {
                    Some(Severity::Warning)
                } else if str_equal(s.as_str(), "critical") {
                    Some(Severity::Critical)
                } else {
                    return Err(entry_message_quoting(ev, ": invalid severity ", s.as_str()));
                }
            },
        },
    };
    Ok(Entry::Notification { audience, severity })
}

/// Reads an entry by its kind.
fn parse_entry(ev: EventType, raw: &RawEntry) -> (r: Result<Entry, RegistryError>)
    ensures
        read_as(r, spec_parse_entry(ev, *raw)),
{
    if str_equal(raw.kind.as_str(), "domain") {
        parse_domain(ev, raw)
    } else if str_equal(raw.kind.as_str(), "notification") {
        parse_notification(ev, raw)
    } else {
        Err(entry_message_quoting(ev, ": invalid kind ", raw.kind.as_str()))
    }
}

// ---------------------------------------------------------------------------
// Loading a registry
// ---------------------------------------------------------------------------

/// The entries of a document read in order, a later entry for an event type
/// replacing an earlier one, up to the first error.
pub open spec fn spec_table(variants: Seq<(String, RawEntry)>) -> Result<Map<EventType, SpecEntry>, SpecRegistryError>
    decreases variants.len(),
{
    if variants.len() == 0 {
        Ok(Map::empty())
    } else {
        match spec_table(variants.drop_last()) {
            Err(e) => Err(e),
            Ok(m) => match event_named(variants.last().0@) {
                None => Err(
                    SpecRegistryError::Msg(
                        "YAML key "@ + str_debug_text(variants.last().0@)
                            + " does not resolve to an EventType variant"@,
                    ),
                ),
                Some(ev) => match spec_parse_entry(ev, variants.last().1) {
                    Err(e) => Err(e),
                    Ok(en) => Ok(m.insert(ev, en)),
                },
            },
        }
    }
}

/// The event types among the first `k` (in declaration order) that have no
/// entry.
pub open spec fn missing_events(m: Map<EventType, SpecEntry>, k: nat) -> Seq<EventType>
    decreases k,
{
    if k == 0 {
        seq![]
    } else {
        let rest = missing_events(m, (k - 1) as nat);
        let e = EventType::spec_at(k - 1);
        if m.dom().contains(e) {
            rest
        } else {
            rest.push(e)
        }
    }
}

/// The `Debug` text of a list of event names.
pub open spec fn names_debug(es: Seq<EventType>) -> Seq<Seq<char>> {
    es.map_values(|e: EventType| str_debug_text(e.spec_name()))
}

/// The message for event types without an entry.
pub open spec fn missing_message(missing: Seq<EventType>) -> Seq<char> {
    "EventType variants missing from registry: ["@ + join_texts(names_debug(missing), ", "@) + "]"@
}

/// The (source, target) pairs of a domain entry's rules, in order.
pub open spec fn rule_pairs(ev: EventType, rules: Seq<SpecRule>) -> Seq<(EventType, EventType)>
    decreases rules.len(),
{
    if rules.len() == 0 {
        seq![]
    } else {
        rule_pairs(ev, rules.drop_last()) + rules.last().fires.map_values(
            |t: EventType| (ev, t),
        )
    }
}

/// The (source, target) pairs of an entry: none for a notification.
pub open spec fn entry_pairs(ev: EventType, en: SpecEntry) -> Seq<(EventType, EventType)> {
    match en {
        SpecEntry::Domain { notifies, .. } => rule_pairs(ev, notifies),
        SpecEntry::Notification { .. } => seq![],
    }
}

/// The (source, target) pairs of the first `k` event types' entries, in
/// declaration order.
pub open spec fn table_pairs(m: Map<EventType, SpecEntry>, k: nat) -> Seq<(EventType, EventType)>
    decreases k,
{
    if k == 0 {
        seq![]
    } else {
        let e = EventType::spec_at(k - 1);
        table_pairs(m, (k - 1) as nat) + if m.dom().contains(e) {
            entry_pairs(e, m[e])
        } else {
            seq![]
        }
    }
}

/// Whether a table holds a notification entry for an event type.
pub open spec fn is_notification_entry(m: Map<EventType, SpecEntry>, e: EventType) -> bool {
    m.dom().contains(e) && m[e] is Notification
}

/// The first pair whose target is not a notification entry.
pub open spec fn first_bad_fire(m: Map<EventType, SpecEntry>, ps: Seq<(EventType, EventType)>) -> Option<(EventType, EventType)>
    decreases ps.len(),
{
    if ps.len() == 0 {
        None
    } else {
        match first_bad_fire(m, ps.drop_last()) {
            Some(x) => Some(x),
            None => if is_notification_entry(m, ps.last().1) {
                None
            } else {
                Some(ps.last())
            },
        }
    }
}

/// The message for a rule that fires something other than a notification.
pub open spec fn fire_message(source: EventType, target: EventType) -> Seq<char> {
    source.spec_name() + ": fires target "@ + target.spec_name()
        + " must be a kind:notification entry"@
}

/// What loading a registry document gives: the version must be the one this
/// library reads; then every entry must read well, every event type must
/// have an entry, and every rule may fire notification entries only. The
/// first failure, in that order, is the error.
pub open spec fn spec_load(raw: RawRegistry) -> Result<Map<EventType, SpecEntry>, SpecRegistryError> {
    if raw.version != REGISTRY_VERSION {
        Err(
            SpecRegistryError::Msg(
                "unsupported registry version "@ + decimal_text(raw.version as int) + "; expected "@
                    + decimal_text(REGISTRY_VERSION as int),
            ),
        )
    } else {
        match spec_table(raw.variants@) {
            Err(e) => Err(e),
            Ok(m) => if missing_events(m, event_count()).len() > 0 {
                Err(SpecRegistryError::Msg(missing_message(missing_events(m, event_count()))))
            } else {
                match first_bad_fire(m, table_pairs(m, event_count())) {
                    Some(p) => Err(SpecRegistryError::Msg(fire_message(p.0, p.1))),
                    None => Ok(m),
                }
            },
        }
    }
}

/// The value of an optional entry.
pub open spec fn slot_view(o: Option<Entry>) -> Option<SpecEntry> {
    match o {
        Some(en) => Some(en@),
        None => None,
    }
}

/// The slots of an event-indexed table hold exactly the entries of `m`.
pub open spec fn slots_hold(slots: Seq<Option<Entry>>, m: Map<EventType, SpecEntry>) -> bool {
    &&& slots.len() == event_count()
    &&& forall|i: int|
        0 <= i < event_count() ==> #[trigger] slot_view(slots[i]) == if m.dom().contains(
            EventType::spec_at(i),
        ) {
            Some(m[EventType::spec_at(i)])
        } else {
            None
        }
}

/// Whether `i` is the first position of `entries` that holds event type `e`.
pub open spec fn first_index_of(entries: Seq<(EventType, Entry)>, e: EventType, i: int) -> bool {
    &&& 0 <= i < entries.len()
    &&& entries[i].0 == e
    &&& forall|j: int| 0 <= j < i ==> (#[trigger] entries[j]).0 != e
}

proof fn lemma_first_index_unique(entries: Seq<(EventType, Entry)>, e: EventType, i: int, j: int)
    requires
        first_index_of(entries, e, i),
        first_index_of(entries, e, j),
    ensures
        i == j,
{
    if i < j {
        assert(entries[i].0 != e);
    } else if j < i {
        assert(entries[j].0 != e);
    }
}

/// The loaded notification registry: one entry per event type.
#[derive(Debug)]
pub struct Registry {
    pub entries: Vec<(EventType, Entry)>,
}

/// Whether a rule's condition lets it fire for a payload; a condition that
/// cannot be evaluated does not.
pub open spec fn rule_fires(when: Option<SpecPredicate>, payload: JsonValue) -> bool {
    match when {
        None => true,
        Some(p) => spec_matches(p, payload) == Ok::<bool, Seq<char>>(true),
    }
}

/// The targets of the rules that fire for a payload, rule by rule.
pub open spec fn fired(rules: Seq<SpecRule>, payload: JsonValue) -> Seq<EventType>
    decreases rules.len(),
{
    if rules.len() == 0 {
        seq![]
    } else {
        fired(rules.drop_last(), payload) + if rule_fires(rules.last().when, payload) {
            rules.last().fires
        } else {
            seq![]
        }
    }
}

/// Whether an optional entry is a notification entry.
pub open spec fn is_notification_value(o: Option<SpecEntry>) -> bool {
    match o {
        Some(SpecEntry::Notification { .. }) => true,
        _ => false,
    }
}

/// An entry is as loading leaves it: a platform notification has a severity
/// and a customer notification has none; every rule of a domain entry fires
/// at least one event, and a domain entry either has no rules and a
/// non-empty reason, or has rules and no reason.
pub open spec fn entry_consistent(en: SpecEntry) -> bool {
    match en {
        SpecEntry::Notification { audience, severity } => (severity is Some) == (audience
            == Audience::Platform),
        SpecEntry::Domain { notifies, reason } => {
            &&& forall|j: int| 0 <= j < notifies.len() ==> (#[trigger] notifies[j]).fires.len() > 0
            &&& (notifies.len() == 0 && (reason matches Some(r) && r.len() > 0)) || (notifies.len()
                > 0 && reason is None)
        },
    }
}

impl Registry {
    /// The entry of an event type: that of the first pair that holds it.
    pub open spec fn spec_get(&self, e: EventType) -> Option<SpecEntry> {
        if exists|i: int| first_index_of(self.entries@, e, i) {
            Some(self.entries@[choose|i: int| first_index_of(self.entries@, e, i)].1@)
        } else {
            None
        }
    }

    /// The registry holds exactly the entries of `m`, one per event type, in
    /// declaration order.
    pub open spec fn holds(&self, m: Map<EventType, SpecEntry>) -> bool {
        &&& self.entries@.len() == event_count()
        &&& forall|i: int|
            0 <= i < event_count() ==> (#[trigger] self.entries@[i]).0 == EventType::spec_at(i)
                && m.dom().contains(EventType::spec_at(i)) && self.entries@[i].1@ == m[EventType::spec_at(
                i,
            )]
    }

    /// A registry as loading guarantees it: every event type has an entry,
    /// rules fire notification entries only, and notifications' audience and
    /// severity agree.
    pub open spec fn well_formed(&self) -> bool {
        &&& forall|e: EventType| #[trigger] self.spec_get(e) is Some
        &&& forall|e: EventType, j: int, t: EventType|
            #![trigger self.spec_get(e), self.spec_get(t), self.spec_fires(e, j, t)]
            self.spec_fires(e, j, t) ==> is_notification_value(self.spec_get(t))
        &&& forall|e: EventType|
            match #[trigger] self.spec_get(e) {
                Some(en) => entry_consistent(en),
                None => true,
            }
    }

    /// Whether rule `j` of event type `e`'s domain entry fires `t`.
    pub open spec fn spec_fires(&self, e: EventType, j: int, t: EventType) -> bool {
        match self.spec_get(e) {
            Some(SpecEntry::Domain { notifies, .. }) => 0 <= j < notifies.len()
                && notifies[j].fires.contains(t),
            _ => false,
        }
    }

    /// The notifications an event with this payload fires.
    pub open spec fn spec_notifications_for(&self, e: EventType, payload: JsonValue) -> Seq<EventType> {
        match self.spec_get(e) {
            Some(SpecEntry::Domain { notifies, .. }) => fired(notifies, payload),
            _ => seq![],
        }
    }

    /// Loads a registry from a document as read.
    pub fn from_raw(raw: &RawRegistry) -> (r: Result<Registry, RegistryError>)
        ensures
            match spec_load(*raw) {
                Ok(m) => r matches Ok(reg) && reg.holds(m) && reg.well_formed() && forall|e: EventType|
                    #[trigger] reg.spec_get(e) == Some(m[e]),
                Err(e) => r matches Err(x) && x@ == e,
            },
    {
        if raw.version != REGISTRY_VERSION {
            let mut msg = "unsupported registry version ".to_owned();
            let v = u64_to_text(raw.version as u64);
            msg.append(v.as_str());
            msg.append("; expected ");
            let w = u64_to_text(REGISTRY_VERSION as u64);
            msg.append(w.as_str());
            return Err(RegistryError::Msg(msg));
        }
        let all = EventType::all();
        // Phase 1: read the entries into a table indexed by event type.
        let mut slots: Vec<Option<Entry>> = Vec::new();
        let mut i: usize = 0;
        while i < 36
            invariant
                i <= 36,
                slots@.len() == i,
                forall|j: int| 0 <= j < i ==> (#[trigger] slots@[j]) is None,
            decreases 36 - i,
        {
            slots.push(None);
            i = i + 1;
        }
        let ghost m0 = Map::<EventType, SpecEntry>::empty();
        assert(slots_hold(slots@, m0));
        let mut k: usize = 0;
        assert(raw.variants@.take(0) =~= Seq::<(String, RawEntry)>::empty());
        while k < raw.variants.len()
            invariant
                raw.version == REGISTRY_VERSION,
                k <= raw.variants@.len(),
                spec_table(raw.variants@.take(k as int)) is Ok,
                slots_hold(slots@, spec_table(raw.variants@.take(k as int))->Ok_0),
            decreases raw.variants@.len() - k,
        {
            let ghost before = spec_table(raw.variants@.take(k as int))->Ok_0;
            assert(raw.variants@.take(k + 1).drop_last() =~= raw.variants@.take(k as int));
            let (name, raw_entry) = &raw.variants[k];
            assert(raw.variants@.take(k + 1).last() == raw.variants@[k as int]);
            let ev = match EventType::try_from_name(name.as_str()) {
                Ok(ev) => ev,
                Err(_) => {
                    let mut msg = "YAML key ".to_owned();
                    let d = debug_str(name.as_str());
                    msg.append(d.as_str());
                    msg.append(" does not resolve to an EventType variant");
                    proof {
                        lemma_table_err_prefix(raw.variants@, k as int + 1);
                        assert(msg@ =~= "YAML key "@ + str_debug_text(name@)
                            + " does not resolve to an EventType variant"@);
                        assert(spec_table(raw.variants@.take(k + 1)) == Err::<
                            Map<EventType, SpecEntry>,
                            SpecRegistryError,
                        >(SpecRegistryError::Msg(msg@)));
                        assert(spec_load(*raw) == Err::<
                            Map<EventType, SpecEntry>,
                            SpecRegistryError,
                        >(SpecRegistryError::Msg(msg@)));
                    }
                    return Err(RegistryError::Msg(msg));
                },
            };
            let entry = match parse_entry(ev, raw_entry) {
                Ok(en) => en,
                Err(e) => {
                    proof {
                        lemma_table_err_prefix(raw.variants@, k as int + 1);
                    }
                    return Err(e);
                },
            };
            let idx = ev.index();
            proof {
                lemma_event_index(ev);
            }
            slots.set(idx, Some(entry));
            proof {
                let after = before.insert(ev, entry@);
                assert forall|j: int| 0 <= j < event_count() implies #[trigger] slot_view(slots@[j])
                    == if after.dom().contains(EventType::spec_at(j)) {
                    Some(after[EventType::spec_at(j)])
                } else {
                    None
                } by {
                    lemma_event_at(j);
                    if j != idx {
                        assert(EventType::spec_at(j) != ev);
                    }
                }
            }
            k = k + 1;
        }
        assert(raw.variants@.take(k as int) =~= raw.variants@);
        let ghost m = spec_table(raw.variants@)->Ok_0;
        // Phase 2: every event type has an entry.
        let mut missing: Vec<String> = Vec::new();
        let mut i: usize = 0;
        while i < 36
            invariant
                i <= 36,
                all@ == EventType::spec_all(),
                slots_hold(slots@, m),
                texts_of(missing@) == names_debug(missing_events(m, i as nat)),
            decreases 36 - i,
        {
            let ghost before = missing_events(m, i as nat);
            assert(slot_view(slots@[i as int]) == if m.dom().contains(EventType::spec_at(i as int)) {
                Some(m[EventType::spec_at(i as int)])
            } else {
                None
            });
            if slots[i].is_none() {
                let d = debug_str(all[i].as_str());
                missing.push(d);
                assert(names_debug(before.push(EventType::spec_at(i as int))) =~= names_debug(
                    before,
                ).push(str_debug_text(EventType::spec_at(i as int).spec_name())));
                assert(texts_of(missing@) =~= texts_of(missing@.drop_last()).push(
                    missing@.last()@,
                ));
            }
            i = i + 1;
        }
        if missing.len() != 0 {
            let mut msg = "EventType variants missing from registry: [".to_owned();
            let joined = join_strings(&missing, ", ");
            msg.append(joined.as_str());
            msg.append("]");
            assert(msg@ =~= missing_message(missing_events(m, event_count())));
            return Err(RegistryError::Msg(msg));
        }
        proof {
            lemma_no_missing_full(m, slots@);
        }
        // Phase 3: every target that a rule fires is a notification entry.
        let pairs = collect_pairs(&slots, Ghost(m));
        let mut p: usize = 0;
        assert(pairs@.take(0) =~= Seq::<(EventType, EventType)>::empty());
        while p < pairs.len()
            invariant
                raw.version == REGISTRY_VERSION,
                spec_table(raw.variants@) == Ok::<Map<EventType, SpecEntry>, SpecRegistryError>(m),
                missing_events(m, event_count()).len() == 0,
                p <= pairs@.len(),
                pairs@ == table_pairs(m, event_count()),
                forall|j: int| 0 <= j < event_count() ==> m.dom().contains(#[trigger] EventType::spec_at(j)),
                slots_hold(slots@, m),
                first_bad_fire(m, pairs@.take(p as int)) is None,
            decreases pairs@.len() - p,
        {
            let (source, target) = pairs[p];
            assert(pairs@.take(p + 1).drop_last() =~= pairs@.take(p as int));
            let t = target.index();
            proof {
                lemma_event_index(target);
            }
            let ok = match &slots[t] {
                Some(Entry::Notification { .. }) => true,
                _ => false,
            };
            if !ok {
                proof {
                    assert(slot_view(slots@[t as int]) == Some(m[EventType::spec_at(t as int)]));
                    assert(pairs@.take(p + 1).last() == (source, target));
                    assert(!is_notification_entry(m, target));
                    lemma_first_bad_prefix(m, pairs@.take(p + 1), pairs@);
                }
                let mut msg = source.as_str().to_owned();
                msg.append(": fires target ");
                msg.append(target.as_str());
                msg.append(" must be a kind:notification entry");
                assert(msg@ =~= fire_message(source, target));
                return Err(RegistryError::Msg(msg));
            }
            p = p + 1;
        }
        assert(pairs@.take(p as int) =~= pairs@);
        // The registry: the entries in declaration order.
        let mut entries: Vec<(EventType, Entry)> = Vec::new();
        while slots.len() > 0
            invariant
                slots@.len() <= 36,
                all@ == EventType::spec_all(),
                entries@.len() == 36 - slots@.len(),
                forall|j: int| 0 <= j < slots@.len() ==> #[trigger] slot_view(slots@[j]) == Some(
                    m[EventType::spec_at(j)],
                ),
                forall|j: int|
                    0 <= j < entries@.len() ==> (#[trigger] entries@[j]).0 == EventType::spec_at(
                        j + slots@.len(),
                    ) && entries@[j].1@ == m[EventType::spec_at(j + slots@.len())],
            decreases slots@.len(),
        {
            let last = slots.len() - 1;
            assert(slot_view(slots@[last as int]) == Some(m[EventType::spec_at(last as int)]));
            let slot = slots.pop();
            match slot {
                Some(Some(en)) => {
                    entries.insert(0, (all[last], en));
                },
                _ => {
                    return vstd::pervasive::unreached();
                },
            }
        }
        let reg = Registry { entries };
        proof {
            lemma_full_table(m);
            assert forall|e: EventType| #[trigger] reg.spec_get(e) == Some(m[e]) by {
                lemma_holds_get(reg, m, e);
            }
            lemma_loaded_well_formed(*raw, reg, m);
        }
        Ok(reg)
    }
}

/// An error in reading a prefix of the document is the error of the whole.
proof fn lemma_table_err_prefix(variants: Seq<(String, RawEntry)>, k: int)
    requires
        0 <= k <= variants.len(),
        spec_table(variants.take(k)) is Err,
    ensures
        spec_table(variants) == spec_table(variants.take(k)),
    decreases variants.len() - k,
{
    if k < variants.len() {
        assert(variants.take(k + 1).drop_last() =~= variants.take(k));
        lemma_table_err_prefix(variants, k + 1);
    } else {
        assert(variants.take(k) =~= variants);
    }
}

/// With nothing missing among the first `k` event types, each of them has an
/// entry.
proof fn lemma_no_missing(m: Map<EventType, SpecEntry>, k: nat)
    requires
        missing_events(m, k).len() == 0,
    ensures
        forall|i: int| 0 <= i < k ==> m.dom().contains(#[trigger] EventType::spec_at(i)),
    decreases k,
{
    if k > 0 {
        lemma_no_missing(m, (k - 1) as nat);
    }
}

/// A table with nothing missing has an entry for every event type.
proof fn lemma_no_missing_full(m: Map<EventType, SpecEntry>, slots: Seq<Option<Entry>>)
    requires
        missing_events(m, event_count()).len() == 0,
        slots_hold(slots, m),
    ensures
        forall|i: int| 0 <= i < event_count() ==> m.dom().contains(#[trigger] EventType::spec_at(i)),
        forall|i: int|
            0 <= i < event_count() ==> #[trigger] slot_view(slots[i]) == Some(m[EventType::spec_at(i)]),
{
    lemma_no_missing(m, event_count());
}

/// A table with an entry at every position has one for every event type.
proof fn lemma_full_table(m: Map<EventType, SpecEntry>)
    requires
        forall|i: int| 0 <= i < event_count() ==> m.dom().contains(#[trigger] EventType::spec_at(i)),
    ensures
        forall|e: EventType| #[trigger] m.dom().contains(e),
{
    assert forall|e: EventType| #[trigger] m.dom().contains(e) by {
        lemma_event_index(e);
        assert(m.dom().contains(EventType::spec_at(e.spec_index() as int)));
    }
}

/// A registry that holds a table gives each event type's entry of the table.
proof fn lemma_holds_get(reg: Registry, m: Map<EventType, SpecEntry>, e: EventType)
    requires
        reg.holds(m),
    ensures
        reg.spec_get(e) == Some(m[e]),
{
    let i = e.spec_index() as int;
    lemma_event_index(e);
    assert forall|j: int| 0 <= j < i implies (#[trigger] reg.entries@[j]).0 != e by {
        lemma_event_at(j);
    }
    assert(first_index_of(reg.entries@, e, i));
    let c = choose|x: int| first_index_of(reg.entries@, e, x);
    lemma_first_index_unique(reg.entries@, e, i, c);
}

/// The first bad pair of a prefix is the first bad pair of the whole.
proof fn lemma_first_bad_prefix(
    m: Map<EventType, SpecEntry>,
    ps: Seq<(EventType, EventType)>,
    qs: Seq<(EventType, EventType)>,
)
    requires
        ps.len() <= qs.len(),
        qs.take(ps.len() as int) == ps,
        first_bad_fire(m, ps) is Some,
    ensures
        first_bad_fire(m, qs) == first_bad_fire(m, ps),
    decreases qs.len(),
{
    if qs.len() == ps.len() {
        assert(qs =~= ps);
    } else {
        assert(qs.drop_last().take(ps.len() as int) =~= ps);
        lemma_first_bad_prefix(m, ps, qs.drop_last());
    }
}

/// With no bad pair, every pair's target is a notification entry.
proof fn lemma_first_bad_none(m: Map<EventType, SpecEntry>, ps: Seq<(EventType, EventType)>, k: int)
    requires
        first_bad_fire(m, ps) is None,
        0 <= k < ps.len(),
    ensures
        is_notification_entry(m, ps[k].1),
    decreases ps.len(),
{
    if k < ps.len() - 1 {
        assert(ps.drop_last()[k] == ps[k]);
        lemma_first_bad_none(m, ps.drop_last(), k);
    }
}

/// A target that rule `j` fires appears among the entry's pairs.
proof fn lemma_rule_pairs_contains(ev: EventType, rules: Seq<SpecRule>, j: int, t: EventType)
    requires
        0 <= j < rules.len(),
        rules[j].fires.contains(t),
    ensures
        rule_pairs(ev, rules).contains((ev, t)),
    decreases rules.len(),
{
    let front = rule_pairs(ev, rules.drop_last());
    let back = rules.last().fires.map_values(|x: EventType| (ev, x));
    if j == rules.len() - 1 {
        let idx = choose|idx: int| 0 <= idx < rules[j].fires.len() && rules[j].fires[idx] == t;
        assert((front + back)[front.len() + idx] == (ev, t));
    } else {
        assert(rules.drop_last()[j] == rules[j]);
        lemma_rule_pairs_contains(ev, rules.drop_last(), j, t);
        let idx = choose|idx: int| 0 <= idx < front.len() && front[idx] == (ev, t);
        assert((front + back)[idx] == (ev, t));
    }
}

/// A pair of the entry of one of the first `k` event types appears among
/// the table's pairs.
proof fn lemma_table_pairs_contains(
    m: Map<EventType, SpecEntry>,
    k: nat,
    e: EventType,
    x: (EventType, EventType),
)
    requires
        e.spec_index() < k,
        m.dom().contains(e),
        entry_pairs(e, m[e]).contains(x),
    ensures
        table_pairs(m, k).contains(x),
    decreases k,
{
    lemma_event_index(e);
    let front = table_pairs(m, (k - 1) as nat);
    let at = EventType::spec_at(k - 1);
    let back = if m.dom().contains(at) {
        entry_pairs(at, m[at])
    } else {
        seq![]
    };
    assert(table_pairs(m, k) == front + back);
    if e.spec_index() == k - 1 {
        let idx = choose|idx: int| 0 <= idx < back.len() && back[idx] == x;
        assert((front + back)[front.len() + idx] == x);
    } else {
        lemma_table_pairs_contains(m, (k - 1) as nat, e, x);
        let idx = choose|idx: int| 0 <= idx < front.len() && front[idx] == x;
        assert((front + back)[idx] == x);
    }
}

/// Every entry that reading a document gives is consistent.
proof fn lemma_table_consistent(variants: Seq<(String, RawEntry)>)
    requires
        spec_table(variants) is Ok,
    ensures
        forall|e: EventType|
            (#[trigger] spec_table(variants)->Ok_0.dom().contains(e)) ==> entry_consistent(
                spec_table(variants)->Ok_0[e],
            ),
    decreases variants.len(),
{
    if variants.len() > 0 {
        lemma_table_consistent(variants.drop_last());
        match event_named(variants.last().0@) {
            Some(ev) => lemma_parse_entry_consistent(ev, variants.last().1),
            None => {},
        }
    }
}

/// Resolving a list of names gives one event type per name.
proof fn lemma_resolve_fires_len(names: Seq<String>)
    requires
        resolve_fires(names) is Ok,
    ensures
        resolve_fires(names)->Ok_0.len() == names.len(),
    decreases names.len(),
{
    if names.len() > 0 {
        lemma_resolve_fires_len(names.drop_last());
    }
}

/// Every rule that reading gives fires at least one event type.
proof fn lemma_parse_rules_fire(ev: EventType, rules: Seq<RawRule>)
    requires
        spec_parse_rules(ev, rules) is Ok,
    ensures
        spec_parse_rules(ev, rules)->Ok_0.len() == rules.len(),
        forall|j: int|
            0 <= j < rules.len() ==> (#[trigger] spec_parse_rules(ev, rules)->Ok_0[j]).fires.len() > 0,
    decreases rules.len(),
{
    if rules.len() > 0 {
        lemma_parse_rules_fire(ev, rules.drop_last());
        let last = rules.last();
        lemma_resolve_fires_len(last.fires@);
        let rs = spec_parse_rules(ev, rules)->Ok_0;
        let done = spec_parse_rules(ev, rules.drop_last())->Ok_0;
        assert forall|j: int| 0 <= j < rules.len() implies (#[trigger] rs[j]).fires.len() > 0 by {
            if j < rules.len() - 1 {
                assert(rs[j] == done[j]);
            }
        }
    }
}

/// Every entry that reading gives is consistent.
proof fn lemma_parse_entry_consistent(ev: EventType, raw: RawEntry)
    requires
        spec_parse_entry(ev, raw) is Ok,
    ensures
        entry_consistent(spec_parse_entry(ev, raw)->Ok_0),
{
    if raw.kind@ == "domain"@ {
        match raw.notifies {
            Some(rules) => {
                lemma_parse_rules_fire(ev, rules@);
            },
            None => {},
        }
    }
}

/// A loaded registry is well formed.
proof fn lemma_loaded_well_formed(raw: RawRegistry, reg: Registry, m: Map<EventType, SpecEntry>)
    requires
        spec_load(raw) == Ok::<Map<EventType, SpecEntry>, SpecRegistryError>(m),
        reg.holds(m),
        forall|e: EventType| #[trigger] reg.spec_get(e) == Some(m[e]),
        forall|e: EventType| #[trigger] m.dom().contains(e),
    ensures
        reg.well_formed(),
{
    lemma_table_consistent(raw.variants@);
    assert forall|e: EventType, j: int, t: EventType|
        #![trigger reg.spec_get(e), reg.spec_get(t), reg.spec_fires(e, j, t)]
        reg.spec_fires(e, j, t) implies is_notification_value(reg.spec_get(t)) by {
        assert(reg.spec_get(e) == Some(m[e]));
        assert(reg.spec_get(t) == Some(m[t]));
        let notifies = m[e]->Domain_notifies;
        lemma_rule_pairs_contains(e, notifies, j, t);
        lemma_event_index(e);
        lemma_table_pairs_contains(m, event_count(), e, (e, t));
        let ps = table_pairs(m, event_count());
        let idx = choose|idx: int| 0 <= idx < ps.len() && ps[idx] == (e, t);
        lemma_first_bad_none(m, ps, idx);
    }
    assert forall|e: EventType|
        match #[trigger] reg.spec_get(e) {
            Some(en) => entry_consistent(en),
            None => true,
        } by {
        assert(reg.spec_get(e) == Some(m[e]));
    }
}

/// The pairs of the table held in `slots`, in declaration order.
fn collect_pairs(slots: &Vec<Option<Entry>>, Ghost(m): Ghost<Map<EventType, SpecEntry>>) -> (r: Vec<
    (EventType, EventType),
>)
    requires
        slots_hold(slots@, m),
        forall|i: int| 0 <= i < event_count() ==> m.dom().contains(#[trigger] EventType::spec_at(i)),
    ensures
        r@ == table_pairs(m, event_count()),
{
    let all = EventType::all();
    let mut out: Vec<(EventType, EventType)> = Vec::new();
    let mut i: usize = 0;
    while i < slots.len()
        invariant
            i <= slots@.len(),
            slots_hold(slots@, m),
            all@ == EventType::spec_all(),
            forall|j: int| 0 <= j < event_count() ==> m.dom().contains(#[trigger] EventType::spec_at(j)),
            out@ == table_pairs(m, i as nat),
        decreases slots@.len() - i,
    {
        let ghost ev_i = EventType::spec_at(i as int);
        assert(slot_view(slots@[i as int]) == Some(m[ev_i]));
        assert(m.dom().contains(ev_i));
        let ghost base = table_pairs(m, i as nat);
        match &slots[i] {
            Some(Entry::Domain { notifies, .. }) => {
                let ev = all[i];
                let ghost rv = rules_view(notifies@);
                assert(m[ev_i] == SpecEntry::Domain { notifies: rv, reason: m[ev_i]->Domain_reason });
                assert(rv.take(0) =~= Seq::<SpecRule>::empty());
                assert(base + rule_pairs(ev, rv.take(0)) =~= base);
                let mut j: usize = 0;
                while j < notifies.len()
                    invariant
                        j <= notifies@.len(),
                        rv == rules_view(notifies@),
                        ev == ev_i,
                        out@ == base + rule_pairs(ev, rv.take(j as int)),
                    decreases notifies@.len() - j,
                {
                    let rule = &notifies[j];
                    let ghost mid = out@;
                    assert(rule.fires@.take(0).map_values(|t: EventType| (ev, t)) =~= Seq::<
                        (EventType, EventType),
                    >::empty());
                    assert(mid + rule.fires@.take(0).map_values(|t: EventType| (ev, t)) =~= mid);
                    let mut k: usize = 0;
                    while k < rule.fires.len()
                        invariant
                            k <= rule.fires@.len(),
                            out@ == mid + rule.fires@.take(k as int).map_values(
                                |t: EventType| (ev, t),
                            ),
                        decreases rule.fires@.len() - k,
                    {
                        let t = rule.fires[k];
                        out.push((ev, t));
                        assert(rule.fires@.take(k + 1).map_values(|x: EventType| (ev, x))
                            =~= rule.fires@.take(k as int).map_values(|x: EventType| (ev, x)).push(
                            (ev, t),
                        ));
                        assert(out@ =~= mid + rule.fires@.take(k + 1).map_values(
                            |x: EventType| (ev, x),
                        ));
                        k = k + 1;
                    }
                    assert(rule.fires@.take(k as int) =~= rule.fires@);
                    assert(rv.take(j + 1).drop_last() =~= rv.take(j as int));
                    assert(rv.take(j + 1).last() == rv[j as int]);
                    assert(rv[j as int].fires == rule.fires@);
                    assert(out@ =~= base + rule_pairs(ev, rv.take(j + 1)));
                    j = j + 1;
                }
                assert(rv.take(j as int) =~= rv);
            },
            _ => {
                assert(base + seq![] =~= base);
            },
        }
        i = i + 1;
    }
    out
}

impl Registry {
    /// The entry of an event type.
    pub fn get(&self, e: EventType) -> (r: Option<&Entry>)
        ensures
            match r {
                Some(x) => self.spec_get(e) == Some(x@),
                None => self.spec_get(e) is None,
            },
    {
        let mut i: usize = 0;
        while i < self.entries.len()
            invariant
                i <= self.entries@.len(),
                forall|j: int| 0 <= j < i ==> (#[trigger] self.entries@[j]).0 != e,
            decreases self.entries@.len() - i,
        {
            if self.entries[i].0 == e {
                proof {
                    assert(first_index_of(self.entries@, e, i as int));
                    let c = choose|x: int| first_index_of(self.entries@, e, x);
                    lemma_first_index_unique(self.entries@, e, i as int, c);
                }
                return Some(&self.entries[i].1);
            }
            i = i + 1;
        }
        None
    }

    /// Whether an event type is a notification.
    pub fn is_notification(&self, e: EventType) -> (r: bool)
        ensures
            r == is_notification_value(self.spec_get(e)),
    {
        match self.get(e) {
            Some(Entry::Notification { .. }) => true,
            _ => false,
        }
    }

    /// The audience of a notification; nothing for anything else.
    pub fn audience_of(&self, e: EventType) -> (r: Option<Audience>)
        ensures
            r == match self.spec_get(e) {
                Some(SpecEntry::Notification { audience, .. }) => Some(audience),
                _ => None,
            },
    {
        match self.get(e) {
            Some(Entry::Notification { audience, .. }) => Some(*audience),
            _ => None,
        }
    }

    /// The severity of a notification; nothing for a customer notification
    /// or anything else.
    pub fn severity_of(&self, e: EventType) -> (r: Option<Severity>)
        ensures
            r == match self.spec_get(e) {
                Some(SpecEntry::Notification { severity, .. }) => severity,
                _ => None,
            },
    {
        match self.get(e) {
            Some(Entry::Notification { severity, .. }) => *severity,
            _ => None,
        }
    }

    /// The notifications a domain event with this payload fires: the targets
    /// of its rules whose condition holds, rule by rule. A condition that
    /// reads a field the payload lacks does not hold. Anything but a domain
    /// event fires nothing.
    pub fn notifications_for(&self, e: EventType, payload: &JsonValue) -> (r: Vec<EventType>)
        ensures
            r@ == self.spec_notifications_for(e, *payload),
    {
        let mut out: Vec<EventType> = Vec::new();
        match self.get(e) {
            Some(Entry::Domain { notifies, .. }) => {
                let ghost rv = rules_view(notifies@);
                let mut i: usize = 0;
                assert(rv.take(0) =~= Seq::<SpecRule>::empty());
                while i < notifies.len()
                    invariant
                        i <= notifies@.len(),
                        rv == rules_view(notifies@),
                        out@ == fired(rv.take(i as int), *payload),
                    decreases notifies@.len() - i,
                {
                    let rule = &notifies[i];
                    let fires = match &rule.when {
                        None => true,
                        Some(p) => match p.matches(payload) {
                            Ok(b) => b,
                            Err(_) => false,
                        },
                    };
                    let ghost before = out@;
                    if fires {
                        let mut k: usize = 0;
                        while k < rule.fires.len()
                            invariant
                                k <= rule.fires@.len(),
                                out@ == before + rule.fires@.take(k as int),
                            decreases rule.fires@.len() - k,
                        {
                            out.push(rule.fires[k]);
                            assert(rule.fires@.take(k + 1) =~= rule.fires@.take(k as int).push(
                                rule.fires@[k as int],
                            ));
                            assert(out@ =~= before + rule.fires@.take(k + 1));
                            k = k + 1;
                        }
                        assert(rule.fires@.take(k as int) =~= rule.fires@);
                    }
                    assert(rv.take(i + 1).drop_last() =~= rv.take(i as int));
                    assert(rv.take(i + 1).last() == rv[i as int]);
                    assert(rule_fires(rv[i as int].when, *payload) == fires);
                    assert(out@ =~= fired(rv.take(i + 1), *payload));
                    i = i + 1;
                }
                assert(rv.take(i as int) =~= rv);
                out
            },
            _ => out,
        }
    }
}

/// Being a notification and having an audience go together.
pub proof fn lemma_notification_has_audience(reg: Registry, e: EventType)
    ensures
        is_notification_value(reg.spec_get(e)) <==> (match reg.spec_get(e) {
            Some(SpecEntry::Notification { audience, .. }) => Some(audience),
            _ => None,
        }) is Some,
{
}

/// In a well-formed registry, a notification has a severity exactly when it
/// is for the platform.
pub proof fn lemma_severity_only_for_platform(reg: Registry, e: EventType)
    requires
        reg.well_formed(),
    ensures
        match reg.spec_get(e) {
            Some(SpecEntry::Notification { audience, severity }) => (severity is Some) == (audience
                == Audience::Platform),
            _ => true,
        },
{
    assert(match reg.spec_get(e) {
        Some(en) => entry_consistent(en),
        None => true,
    });
}

/// In a well-formed registry, every rule of a domain entry fires at least
/// one event, and a domain entry either has no rules and a non-empty reason,
/// or has rules and no reason.
pub proof fn lemma_domain_entries_shaped(reg: Registry, e: EventType)
    requires
        reg.well_formed(),
    ensures
        match reg.spec_get(e) {
            Some(SpecEntry::Domain { notifies, reason }) => {
                &&& forall|j: int| 0 <= j < notifies.len() ==> (#[trigger] notifies[j]).fires.len() > 0
                &&& (notifies.len() == 0 && (reason matches Some(r) && r.len() > 0)) || (notifies.len()
                    > 0 && reason is None)
            },
            _ => true,
        },
{
    assert(match reg.spec_get(e) {
        Some(en) => entry_consistent(en),
        None => true,
    });
}

/// A target of the rules that fire lies in the targets of one of them.
proof fn lemma_fired_contains(rules: Seq<SpecRule>, payload: JsonValue, t: EventType)
    requires
        fired(rules, payload).contains(t),
    ensures
        exists|j: int| 0 <= j < rules.len() && (#[trigger] rules[j]).fires.contains(t),
    decreases rules.len(),
{
    let front = fired(rules.drop_last(), payload);
    let back = if rule_fires(rules.last().when, payload) {
        rules.last().fires
    } else {
        seq![]
    };
    let idx = choose|idx: int| 0 <= idx < (front + back).len() && (front + back)[idx] == t;
    if idx < front.len() {
        assert(front[idx] == t);
        lemma_fired_contains(rules.drop_last(), payload, t);
        let j = choose|j: int| 0 <= j < rules.drop_last().len() && (#[trigger] rules.drop_last()[j]).fires.contains(t);
        assert(rules[j] == rules.drop_last()[j]);
    } else {
        assert(back[idx - front.len()] == t);
        assert(rules[rules.len() - 1].fires.contains(t));
    }
}

/// Every target of a rule that fires lies in the targets of the rules.
proof fn lemma_fired_includes(rules: Seq<SpecRule>, payload: JsonValue, j: int, t: EventType)
    requires
        0 <= j < rules.len(),
        rule_fires(rules[j].when, payload),
        rules[j].fires.contains(t),
    ensures
        fired(rules, payload).contains(t),
    decreases rules.len(),
{
    let front = fired(rules.drop_last(), payload);
    let back = if rule_fires(rules.last().when, payload) {
        rules.last().fires
    } else {
        seq![]
    };
    assert(fired(rules, payload) == front + back);
    if j < rules.len() - 1 {
        assert(rules.drop_last()[j] == rules[j]);
        lemma_fired_includes(rules.drop_last(), payload, j, t);
        let k = choose|k: int| 0 <= k < front.len() && front[k] == t;
        assert((front + back)[k] == t);
    } else {
        let k = choose|k: int| 0 <= k < back.len() && back[k] == t;
        assert((front + back)[front.len() + k] == t);
    }
}

/// What a domain event fires for a payload: every target of every rule whose
/// condition holds on the payload (or that has none), and nothing that is
/// not the target of such a rule. A condition that reads a missing field
/// does not hold.
pub proof fn lemma_notifications_for_targets(reg: Registry, e: EventType, payload: JsonValue, t: EventType)
    ensures
        match reg.spec_get(e) {
            Some(SpecEntry::Domain { notifies, .. }) => reg.spec_notifications_for(e, payload).contains(t)
                <==> exists|j: int|
                0 <= j < notifies.len() && (#[trigger] notifies[j]).fires.contains(t) && match notifies[j].when {
                    None => true,
                    Some(p) => spec_matches(p, payload) == Ok::<bool, Seq<char>>(true),
                },
            _ => !reg.spec_notifications_for(e, payload).contains(t),
        },
{
    match reg.spec_get(e) {
        Some(SpecEntry::Domain { notifies, .. }) => {
            if reg.spec_notifications_for(e, payload).contains(t) {
                lemma_fired_source(notifies, payload, t);
            }
            if exists|j: int|
                0 <= j < notifies.len() && (#[trigger] notifies[j]).fires.contains(t) && match notifies[j].when {
                    None => true,
                    Some(p) => spec_matches(p, payload) == Ok::<bool, Seq<char>>(true),
                } {
                let j = choose|j: int|
                    0 <= j < notifies.len() && (#[trigger] notifies[j]).fires.contains(t) && match notifies[j].when {
                        None => true,
                        Some(p) => spec_matches(p, payload) == Ok::<bool, Seq<char>>(true),
                    };
                lemma_fired_includes(notifies, payload, j, t);
            }
        },
        _ => {},
    }
}

/// A target of the rules that fire is a target of one of them that fires.
proof fn lemma_fired_source(rules: Seq<SpecRule>, payload: JsonValue, t: EventType)
    requires
        fired(rules, payload).contains(t),
    ensures
        exists|j: int|
            0 <= j < rules.len() && (#[trigger] rules[j]).fires.contains(t) && rule_fires(rules[j].when, payload),
    decreases rules.len(),
{
    let front = fired(rules.drop_last(), payload);
    let back = if rule_fires(rules.last().when, payload) {
        rules.last().fires
    } else {
        seq![]
    };
    let idx = choose|idx: int| 0 <= idx < (front + back).len() && (front + back)[idx] == t;
    if idx < front.len() {
        assert(front[idx] == t);
        lemma_fired_source(rules.drop_last(), payload, t);
        let j = choose|j: int|
            0 <= j < rules.drop_last().len() && (#[trigger] rules.drop_last()[j]).fires.contains(t)
                && rule_fires(rules.drop_last()[j].when, payload);
        assert(rules[j] == rules.drop_last()[j]);
    } else {
        assert(back[idx - front.len()] == t);
        assert(rules[rules.len() - 1].fires.contains(t));
    }
}

/// In a well-formed registry, an event fires notification entries only.
pub proof fn lemma_notifications_for_are_notifications(
    reg: Registry,
    e: EventType,
    payload: JsonValue,
    t: EventType,
)
    requires
        reg.well_formed(),
        reg.spec_notifications_for(e, payload).contains(t),
    ensures
        is_notification_value(reg.spec_get(t)),
{
    match reg.spec_get(e) {
        Some(SpecEntry::Domain { notifies, .. }) => {
            lemma_fired_contains(notifies, payload, t);
            let j = choose|j: int| 0 <= j < notifies.len() && (#[trigger] notifies[j]).fires.contains(t);
            assert(reg.spec_fires(e, j, t));
        },
        _ => {},
    }
}

/// A notification fires nothing, whatever the payload.
pub proof fn lemma_notifications_fire_nothing(reg: Registry, e: EventType, payload: JsonValue)
    requires
        is_notification_value(reg.spec_get(e)),
    ensures
        reg.spec_notifications_for(e, payload).len() == 0,
{
}

} // verus!

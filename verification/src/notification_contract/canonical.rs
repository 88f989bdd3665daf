//! The stable JSON projection of a registry, used to compare registries
//! across libraries byte for byte: objects have their members ordered by
//! key, at every depth.

use vstd::prelude::*;
use vstd::string::*;
use vstd::multiset::Multiset;
use crate::json::{
    json_view, items_view, lemma_items_view, lemma_members_view, members_view, JsonNumber,
    JsonValue, JsonView,
};
use crate::message_bus::base::{lemma_event_names_distinct, EventType};
use crate::notification_contract::predicates::{
    literals_view, Literal, Predicate, SpecLiteral, SpecPredicate,
};
use crate::notification_contract::registry::{
    rules_view, Audience, Entry, NotificationRule, Registry, Severity, SpecEntry, SpecRule,
    REGISTRY_VERSION,
};
use crate::text::chars_of;

verus! {

/// Text order: lexicographic by character code, a proper prefix first.
pub open spec fn text_lt(a: Seq<char>, b: Seq<char>) -> bool
    decreases a.len(),
{
    if b.len() == 0 {
        false
    } else if a.len() == 0 {
        true
    } else if a[0] != b[0] {
        a[0] < b[0]
    } else {
        text_lt(a.drop_first(), b.drop_first())
    }
}

/// The text order is asymmetric.
pub proof fn lemma_text_lt_asymmetric(a: Seq<char>, b: Seq<char>)
    requires
        text_lt(a, b),
    ensures
        !text_lt(b, a),
    decreases a.len(),
{
    if a.len() > 0 && b.len() > 0 && a[0] == b[0] {
        lemma_text_lt_asymmetric(a.drop_first(), b.drop_first());
    }
}

/// The text order is transitive.
pub proof fn lemma_text_lt_transitive(a: Seq<char>, b: Seq<char>, c: Seq<char>)
    requires
        text_lt(a, b),
        text_lt(b, c),
    ensures
        text_lt(a, c),
    decreases a.len(),
{
    if a.len() > 0 && b.len() > 0 && c.len() > 0 && a[0] == b[0] && b[0] == c[0] {
        lemma_text_lt_transitive(a.drop_first(), b.drop_first(), c.drop_first());
    }
}

/// Of two different texts, one comes before the other.
pub proof fn lemma_text_lt_total(a: Seq<char>, b: Seq<char>)
    ensures
        text_lt(a, b) || text_lt(b, a) || a == b,
    decreases a.len(),
{
    if a.len() > 0 && b.len() > 0 && a[0] == b[0] {
        lemma_text_lt_total(a.drop_first(), b.drop_first());
        if a.drop_first() == b.drop_first() {
            assert(a =~= seq![a[0]] + a.drop_first());
            assert(b =~= seq![b[0]] + b.drop_first());
        }
    } else if a.len() == 0 && b.len() == 0 {
        assert(a =~= b);
    }
}

/// "Not before" is transitive.
pub proof fn lemma_text_not_lt_transitive(a: Seq<char>, b: Seq<char>, c: Seq<char>)
    requires
        !text_lt(b, a),
        !text_lt(c, b),
    ensures
        !text_lt(c, a),
{
    lemma_text_lt_total(a, b);
    lemma_text_lt_total(b, c);
    if text_lt(c, a) {
        if a == b {
        } else if b == c {
        } else {
            lemma_text_lt_transitive(a, b, c);
            lemma_text_lt_asymmetric(a, c);
        }
    }
}

/// Compares two texts in text order.
pub fn text_less(a: &str, b: &str) -> (r: bool)
    ensures
        r == text_lt(a@, b@),
{
    let x = chars_of(a);
    let y = chars_of(b);
    let mut i: usize = 0;
    assert(x@.skip(0) =~= x@ && y@.skip(0) =~= y@);
    while i < x.len() && i < y.len() && x[i] == y[i]
        invariant
            i <= x@.len(),
            i <= y@.len(),
            x@ == a@,
            y@ == b@,
            text_lt(a@, b@) == text_lt(x@.skip(i as int), y@.skip(i as int)),
        decreases x@.len() - i,
    {
        assert(x@.skip(i as int).drop_first() =~= x@.skip(i + 1));
        assert(y@.skip(i as int).drop_first() =~= y@.skip(i + 1));
        i = i + 1;
    }
    if i == y.len() {
        false
    } else if i == x.len() {
        true
    } else {
        x[i] < y[i]
    }
}

/// Members ordered by key: no member's key comes before its predecessor's.
pub open spec fn members_sorted(s: Seq<(Seq<char>, JsonView)>) -> bool {
    forall|i: int| 0 <= i < s.len() - 1 ==> !text_lt(#[trigger] s[i + 1].0, s[i].0)
}

/// A member put into ordered members: before the first member whose key
/// comes after its own, so after those with an equal key.
pub open spec fn insert_member(s: Seq<(Seq<char>, JsonView)>, m: (Seq<char>, JsonView)) -> Seq<
    (Seq<char>, JsonView),
>
    decreases s.len(),
{
    if s.len() == 0 {
        seq![m]
    } else if text_lt(m.0, s[0].0) {
        seq![m] + s
    } else {
        seq![s[0]] + insert_member(s.drop_first(), m)
    }
}

/// Members ordered by key; members with equal keys keep their order.
pub open spec fn sort_members(s: Seq<(Seq<char>, JsonView)>) -> Seq<(Seq<char>, JsonView)>
    decreases s.len(),
{
    if s.len() == 0 {
        seq![]
    } else {
        insert_member(sort_members(s.drop_last()), s.last())
    }
}

/// The canonical form of a JSON value: arrays keep their order, objects
/// have their members ordered by key, at every depth.
pub open spec fn spec_canonical(v: JsonView) -> JsonView
    decreases v,
{
    match v {
        JsonView::Array(xs) => JsonView::Array(canon_items(xs)),
        JsonView::Object(ms) => JsonView::Object(sort_members(canon_members(ms))),
        other => other,
    }
}

/// The canonical forms of a list of values.
pub open spec fn canon_items(xs: Seq<JsonView>) -> Seq<JsonView>
    decreases xs,
{
    if xs.len() == 0 {
        seq![]
    } else {
        canon_items(xs.drop_last()).push(spec_canonical(xs.last()))
    }
}

/// The members with their values in canonical form.
pub open spec fn canon_members(ms: Seq<(Seq<char>, JsonView)>) -> Seq<(Seq<char>, JsonView)>
    decreases ms,
{
    if ms.len() == 0 {
        seq![]
    } else {
        canon_members(ms.drop_last()).push((ms.last().0, spec_canonical(ms.last().1)))
    }
}

/// Inserting into a list at a position that follows every member whose key
/// does not come after the new key.
proof fn lemma_insert_member_at(s: Seq<(Seq<char>, JsonView)>, m: (Seq<char>, JsonView), p: int)
    requires
        0 <= p <= s.len(),
        forall|j: int| 0 <= j < p ==> !text_lt(m.0, #[trigger] s[j].0),
        p < s.len() ==> text_lt(m.0, s[p].0),
    ensures
        insert_member(s, m) == s.insert(p, m),
    decreases s.len(),
{
    if s.len() == 0 {
        assert(s.insert(p, m) =~= seq![m]);
    } else if p == 0 {
        assert(s.insert(0, m) =~= seq![m] + s);
    } else {
        assert(!text_lt(m.0, s[0].0));
        let t = s.drop_first();
        assert forall|j: int| 0 <= j < p - 1 implies !text_lt(m.0, #[trigger] t[j].0) by {
            assert(t[j] == s[j + 1]);
        }
        if p - 1 < t.len() {
            assert(t[p - 1] == s[p]);
        }
        lemma_insert_member_at(t, m, p - 1);
        assert(seq![s[0]] + t.insert(p - 1, m) =~= s.insert(p, m));
    }
}

/// Putting a member into ordered members keeps them ordered.
pub proof fn lemma_insert_member_sorted(s: Seq<(Seq<char>, JsonView)>, m: (Seq<char>, JsonView))
    requires
        members_sorted(s),
    ensures
        members_sorted(insert_member(s, m)),
        insert_member(s, m).len() == s.len() + 1,
        insert_member(s, m)[0] == m || (s.len() > 0 && insert_member(s, m)[0] == s[0]),
        insert_member(s, m).to_multiset() == s.to_multiset().insert(m),
    decreases s.len(),
{
    broadcast use vstd::seq_lib::group_to_multiset_ensures;

    if s.len() == 0 {
        assert(seq![m].to_multiset() =~= Multiset::empty().insert(m)) by {
            assert(seq![m] =~= Seq::<(Seq<char>, JsonView)>::empty().push(m));
        }
    } else if text_lt(m.0, s[0].0) {
        let r = seq![m] + s;
        assert forall|i: int| 0 <= i < r.len() - 1 implies !text_lt(#[trigger] r[i + 1].0, r[i].0) by {
            if i == 0 {
                assert(r[0] == m && r[1] == s[0]);
                lemma_text_lt_asymmetric(m.0, s[0].0);
            } else {
                assert(r[i] == s[i - 1] && r[i + 1] == s[i]);
                assert(!text_lt(s[(i - 1) + 1].0, s[i - 1].0));
            }
        }
        vstd::seq_lib::lemma_multiset_commutative(seq![m], s);
        assert(seq![m].to_multiset() =~= Multiset::empty().insert(m)) by {
            assert(seq![m] =~= Seq::<(Seq<char>, JsonView)>::empty().push(m));
        }
        assert(r.to_multiset() =~= s.to_multiset().insert(m));
    } else {
        let t = s.drop_first();
        assert(members_sorted(t)) by {
            assert forall|i: int| 0 <= i < t.len() - 1 implies !text_lt(#[trigger] t[i + 1].0, t[i].0) by {
                assert(t[i] == s[i + 1] && t[i + 1] == s[i + 2]);
                assert(!text_lt(s[(i + 1) + 1].0, s[i + 1].0));
            }
        }
        lemma_insert_member_sorted(t, m);
        let rest = insert_member(t, m);
        let r = seq![s[0]] + rest;
        assert forall|i: int| 0 <= i < r.len() - 1 implies !text_lt(#[trigger] r[i + 1].0, r[i].0) by {
            if i == 0 {
                assert(r[0] == s[0] && r[1] == rest[0]);
                if rest[0] == m {
                } else {
                    assert(rest[0] == t[0] && t[0] == s[1]);
                }
            } else {
                assert(r[i] == rest[i - 1] && r[i + 1] == rest[i]);
                assert(!text_lt(rest[(i - 1) + 1].0, rest[i - 1].0));
            }
        }
        vstd::seq_lib::lemma_multiset_commutative(seq![s[0]], rest);
        vstd::seq_lib::lemma_multiset_commutative(seq![s[0]], t);
        assert(seq![s[0]] + t =~= s);
    }
}

/// Sorting orders the members, keeps their number, and loses or adds none.
pub proof fn lemma_sort_members(s: Seq<(Seq<char>, JsonView)>)
    ensures
        members_sorted(sort_members(s)),
        sort_members(s).len() == s.len(),
        sort_members(s).to_multiset() == s.to_multiset(),
    decreases s.len(),
{
    broadcast use vstd::seq_lib::group_to_multiset_ensures;

    if s.len() > 0 {
        lemma_sort_members(s.drop_last());
        lemma_insert_member_sorted(sort_members(s.drop_last()), s.last());
        assert(s.drop_last().push(s.last()) =~= s);
    }
}

/// The members of a canonical object are ordered by key.
pub proof fn lemma_canonical_object_sorted(ms: Seq<(Seq<char>, JsonView)>)
    ensures
        spec_canonical(JsonView::Object(ms)) matches JsonView::Object(ns) && members_sorted(ns)
            && ns.to_multiset() == canon_members(ms).to_multiset(),
{
    lemma_sort_members(canon_members(ms));
}

/// The canonical forms of the first items, item by item.
proof fn lemma_canon_items(xs: Seq<JsonView>)
    ensures
        canon_items(xs).len() == xs.len(),
        forall|i: int| 0 <= i < xs.len() ==> #[trigger] canon_items(xs)[i] == spec_canonical(xs[i]),
    decreases xs.len(),
{
    if xs.len() > 0 {
        lemma_canon_items(xs.drop_last());
        assert forall|i: int| 0 <= i < xs.len() implies #[trigger] canon_items(xs)[i]
            == spec_canonical(xs[i]) by {
            if i < xs.len() - 1 {
                assert(xs.drop_last()[i] == xs[i]);
            }
        }
    }
}

/// Puts a member into members ordered by key.
fn insert_sorted(out: &mut Vec<(String, JsonValue)>, m: (String, JsonValue))
    ensures
        members_view(final(out)@) == insert_member(members_view(old(out)@), (m.0@, json_view(m.1))),
{
    let ghost mv = members_view(out@);
    proof {
        lemma_members_view(out@);
    }
    let mut p: usize = 0;
    while p < out.len() && !text_less(m.0.as_str(), out[p].0.as_str())
        invariant
            p <= out@.len(),
            mv == members_view(out@),
            mv.len() == out@.len(),
            forall|i: int| 0 <= i < out@.len() ==> #[trigger] mv[i] == (out@[i].0@, json_view(out@[i].1)),
            forall|j: int| 0 <= j < p ==> !text_lt(m.0@, #[trigger] mv[j].0),
        decreases out@.len() - p,
    {
        p = p + 1;
    }
    let ghost mm = (m.0@, json_view(m.1));
    proof {
        lemma_insert_member_at(mv, mm, p as int);
    }
    out.insert(p, m);
    proof {
        lemma_members_view(out@);
        assert(members_view(out@) =~= mv.insert(p as int, mm));
    }
}

/// The canonical form of a JSON value: arrays keep their order, objects
/// have their members ordered by key, at every depth.
pub fn canonicalize(v: &JsonValue) -> (r: JsonValue)
    ensures
        json_view(r) == spec_canonical(json_view(*v)),
    decreases v,
{
    match v {
        JsonValue::Null => JsonValue::Null,
        JsonValue::Bool(b) => JsonValue::Bool(*b),
        JsonValue::Number(JsonNumber::Int(i)) => JsonValue::Number(JsonNumber::Int(*i)),
        JsonValue::Number(JsonNumber::Other(s)) => JsonValue::Number(JsonNumber::Other(s.clone())),
        JsonValue::String(s) => JsonValue::String(s.clone()),
        JsonValue::Array(xs) => {
            let ghost xv = items_view(xs@);
            proof {
                lemma_items_view(xs@);
            }
            let mut out: Vec<JsonValue> = Vec::new();
            let mut i: usize = 0;
            while i < xs.len()
                invariant
                    i <= xs@.len(),
                    xv == items_view(xs@),
                    xv.len() == xs@.len(),
                    forall|k: int| 0 <= k < xs@.len() ==> #[trigger] xv[k] == json_view(xs@[k]),
                    items_view(out@) == canon_items(xv.take(i as int)),
                    *v == JsonValue::Array(*xs),
                decreases xs@.len() - i,
            {
                proof {
                    assert(decreases_to!(*v => (*v)->Array_0));
                    assert(decreases_to!((*v)->Array_0 => (*v)->Array_0@));
                    assert(decreases_to!((*v)->Array_0@ => (*v)->Array_0@[i as int]));
                }
                let c = canonicalize(&xs[i]);
                let ghost before = out@;
                out.push(c);
                proof {
                    lemma_items_view(before);
                    lemma_items_view(out@);
                    lemma_canon_items(xv.take(i as int));
                    lemma_canon_items(xv.take(i + 1));
                    assert(items_view(out@) =~= canon_items(xv.take(i + 1))) by {
                        assert forall|k: int| 0 <= k < out@.len() implies #[trigger] items_view(out@)[k]
                            == canon_items(xv.take(i + 1))[k] by {
                            assert(xv.take(i + 1)[k] == xv[k]);
                            if k < i {
                                assert(out@[k] == before[k]);
                                assert(xv.take(i as int)[k] == xv[k]);
                                assert(items_view(before)[k] == json_view(before[k]));
                            } else {
                                assert(out@[k] == c);
                            }
                        }
                    }
                }
                i = i + 1;
            }
            assert(xv.take(i as int) =~= xv);
            JsonValue::Array(out)
        },
        JsonValue::Object(ms) => {
            let ghost mv = members_view(ms@);
            proof {
                lemma_members_view(ms@);
            }
            let mut out: Vec<(String, JsonValue)> = Vec::new();
            let mut i: usize = 0;
            while i < ms.len()
                invariant
                    i <= ms@.len(),
                    mv == members_view(ms@),
                    mv.len() == ms@.len(),
                    forall|k: int| 0 <= k < ms@.len() ==> #[trigger] mv[k] == (ms@[k].0@, json_view(ms@[k].1)),
                    members_view(out@) == sort_members(canon_members(mv.take(i as int))),
                    *v == JsonValue::Object(*ms),
                decreases ms@.len() - i,
            {
                proof {
                    assert(decreases_to!(*v => (*v)->Object_0));
                    assert(decreases_to!((*v)->Object_0 => (*v)->Object_0@));
                    assert(decreases_to!((*v)->Object_0@ => (*v)->Object_0@[i as int]));
                    assert(decreases_to!((*v)->Object_0@[i as int] => (*v)->Object_0@[i as int].1));
                }
                let c = canonicalize(&ms[i].1);
                let key = ms[i].0.clone();
                insert_sorted(&mut out, (key, c));
                proof {
                    assert(mv.take(i + 1).drop_last() =~= mv.take(i as int));
                    let cm = canon_members(mv.take(i + 1));
                    assert(cm.drop_last() =~= canon_members(mv.take(i as int)));
                }
                i = i + 1;
            }
            assert(mv.take(i as int) =~= mv);
            JsonValue::Object(out)
        },
    }
}

// ---------------------------------------------------------------------------
// The projection of a registry
// ---------------------------------------------------------------------------

/// A literal as JSON: a string or a number.
pub open spec fn literal_json(l: SpecLiteral) -> JsonView {
    match l {
        SpecLiteral::Str(s) => JsonView::Str(s),
        SpecLiteral::Int(i) => JsonView::Int(i),
    }
}

/// A list of literals as JSON values.
pub open spec fn literals_json(ls: Seq<SpecLiteral>) -> Seq<JsonView> {
    ls.map_values(|l: SpecLiteral| literal_json(l))
}

/// Event names as JSON strings.
pub open spec fn names_json(es: Seq<EventType>) -> Seq<JsonView> {
    es.map_values(|e: EventType| JsonView::Str(e.spec_name()))
}

/// A predicate as JSON: an object with its operator under `op` and its
/// operands.
pub open spec fn predicate_json(p: SpecPredicate) -> JsonView
    decreases p,
{
    match p {
        SpecPredicate::Equals { field, value } => JsonView::Object(
            seq![("op"@, JsonView::Str("eq"@)), ("field"@, JsonView::Str(field)), ("value"@, literal_json(value))],
        ),
        SpecPredicate::NotEquals { field, value } => JsonView::Object(
            seq![("op"@, JsonView::Str("ne"@)), ("field"@, JsonView::Str(field)), ("value"@, literal_json(value))],
        ),
        SpecPredicate::In { field, values } => JsonView::Object(
            seq![
                ("op"@, JsonView::Str("in"@)),
                ("field"@, JsonView::Str(field)),
                ("values"@, JsonView::Array(literals_json(values))),
            ],
        ),
        SpecPredicate::NotIn { field, values } => JsonView::Object(
            seq![
                ("op"@, JsonView::Str("not_in"@)),
                ("field"@, JsonView::Str(field)),
                ("values"@, JsonView::Array(literals_json(values))),
            ],
        ),
        SpecPredicate::And(l, r) => JsonView::Object(
            seq![("op"@, JsonView::Str("and"@)), ("left"@, predicate_json(*l)), ("right"@, predicate_json(*r))],
        ),
        SpecPredicate::Or(l, r) => JsonView::Object(
            seq![("op"@, JsonView::Str("or"@)), ("left"@, predicate_json(*l)), ("right"@, predicate_json(*r))],
        ),
    }
}

/// A rule as JSON: its condition, or null, and the names it fires.
pub open spec fn rule_json(r: SpecRule) -> JsonView {
    JsonView::Object(
        seq![
            (
                "when"@,
                match r.when {
                    Some(p) => predicate_json(p),
                    None => JsonView::Null,
                },
            ),
            ("fires"@, JsonView::Array(names_json(r.fires))),
        ],
    )
}

/// Rules as JSON values.
pub open spec fn rules_json(rules: Seq<SpecRule>) -> Seq<JsonView> {
    rules.map_values(|r: SpecRule| rule_json(r))
}

/// Registry entries as the members of the `variants` object.
pub open spec fn variants_json(entries: Seq<(EventType, Entry)>) -> Seq<(Seq<char>, JsonView)> {
    entries.map_values(|p: (EventType, Entry)| (p.0.spec_name(), entry_json(p.1@)))
}

/// The lowercase name of an audience.
pub open spec fn audience_name(a: Audience) -> Seq<char> {
    match a {
        Audience::Customer => "customer"@,
        Audience::Platform => "platform"@,
    }
}

/// The lowercase name of a severity.
pub open spec fn severity_name(s: Severity) -> Seq<char> {
    match s {
        Severity::Info => "info"@,
        Severity::Warning => "warning"@,
        Severity::Critical => "critical"@,
    }
}

/// An entry as JSON.
pub open spec fn entry_json(en: SpecEntry) -> JsonView {
    match en {
        SpecEntry::Domain { notifies, reason } => JsonView::Object(
            seq![
                ("kind"@, JsonView::Str("domain"@)),
                ("notifies"@, JsonView::Array(rules_json(notifies))),
                (
                    "reason"@,
                    match reason {
                        Some(t) => JsonView::Str(t),
                        None => JsonView::Null,
                    },
                ),
            ],
        ),
        SpecEntry::Notification { audience, severity } => JsonView::Object(
            seq![
                ("kind"@, JsonView::Str("notification"@)),
                ("audience"@, JsonView::Str(audience_name(audience))),
                (
                    "severity"@,
                    match severity {
                        Some(s) => JsonView::Str(severity_name(s)),
                        None => JsonView::Null,
                    },
                ),
            ],
        ),
    }
}

/// A registry as JSON: its version and its entries by event name.
pub open spec fn registry_json(entries: Seq<(EventType, Entry)>) -> JsonView {
    JsonView::Object(
        seq![
            ("version"@, JsonView::Int(REGISTRY_VERSION as i64)),
            (
                "variants"@,
                JsonView::Object(variants_json(entries)),
            ),
        ],
    )
}

/// A text value.
fn text_value(s: &str) -> (r: JsonValue)
    ensures
        json_view(r) == JsonView::Str(s@),
{
    JsonValue::String(s.to_owned())
}

/// A member of an object.
fn member(key: &str, value: JsonValue) -> (r: (String, JsonValue))
    ensures
        r.0@ == key@,
        r.1 == value,
{
    (key.to_owned(), value)
}

/// An object of three members, in order.
fn object3(a: (String, JsonValue), b: (String, JsonValue), c: (String, JsonValue)) -> (r: JsonValue)
    ensures
        json_view(r) == JsonView::Object(
            seq![(a.0@, json_view(a.1)), (b.0@, json_view(b.1)), (c.0@, json_view(c.1))],
        ),
{
    let ghost (sa, sb, sc) = (a, b, c);
    let v = vec![a, b, c];
    proof {
        lemma_members_view(v@);
        assert(members_view(v@) =~= seq![
            (sa.0@, json_view(sa.1)),
            (sb.0@, json_view(sb.1)),
            (sc.0@, json_view(sc.1)),
        ]);
    }
    JsonValue::Object(v)
}

/// A literal as JSON.
fn literal_to_json(l: &Literal) -> (r: JsonValue)
    ensures
        json_view(r) == literal_json(l@),
{
    match l {
        Literal::Str(s) => JsonValue::String(s.clone()),
        Literal::Int(i) => JsonValue::Number(JsonNumber::Int(*i)),
    }
}

/// A list of literals as a JSON array.
fn literals_to_json(ls: &Vec<Literal>) -> (r: JsonValue)
    ensures
        json_view(r) == JsonView::Array(literals_json(literals_view(ls@))),
{
    let ghost want = literals_json(literals_view(ls@));
    let mut out: Vec<JsonValue> = Vec::new();
    let mut i: usize = 0;
    while i < ls.len()
        invariant
            i <= ls@.len(),
            want == literals_json(literals_view(ls@)),
            out@.len() == i,
            forall|k: int| 0 <= k < i ==> #[trigger] json_view(out@[k]) == want[k],
        decreases ls@.len() - i,
    {
        out.push(literal_to_json(&ls[i]));
        i = i + 1;
    }
    proof {
        lemma_items_view(out@);
        assert(items_view(out@) =~= want);
    }
    JsonValue::Array(out)
}

/// A predicate as JSON.
pub fn predicate_to_json(p: &Predicate) -> (r: JsonValue)
    ensures
        json_view(r) == predicate_json(p@),
    decreases p,
{
    match p {
        Predicate::Equals { field, value } => object3(
            member("op", text_value("eq")),
            member("field", text_value(field.as_str())),
            member("value", literal_to_json(value)),
        ),
        Predicate::NotEquals { field, value } => object3(
            member("op", text_value("ne")),
            member("field", text_value(field.as_str())),
            member("value", literal_to_json(value)),
        ),
        Predicate::In { field, values } => object3(
            member("op", text_value("in")),
            member("field", text_value(field.as_str())),
            member("values", literals_to_json(values)),
        ),
        Predicate::NotIn { field, values } => object3(
            member("op", text_value("not_in")),
            member("field", text_value(field.as_str())),
            member("values", literals_to_json(values)),
        ),
        Predicate::And(l, r) => object3(
            member("op", text_value("and")),
            member("left", predicate_to_json(l)),
            member("right", predicate_to_json(r)),
        ),
        Predicate::Or(l, r) => object3(
            member("op", text_value("or")),
            member("left", predicate_to_json(l)),
            member("right", predicate_to_json(r)),
        ),
    }
}

/// The names of event types as a JSON array.
fn names_to_json(es: &Vec<EventType>) -> (r: JsonValue)
    ensures
        json_view(r) == JsonView::Array(names_json(es@)),
{
    let ghost want = names_json(es@);
    let mut out: Vec<JsonValue> = Vec::new();
    let mut i: usize = 0;
    while i < es.len()
        invariant
            i <= es@.len(),
            want == names_json(es@),
            out@.len() == i,
            forall|k: int| 0 <= k < i ==> #[trigger] json_view(out@[k]) == want[k],
        decreases es@.len() - i,
    {
        out.push(text_value(es[i].as_str()));
        i = i + 1;
    }
    proof {
        lemma_items_view(out@);
        assert(items_view(out@) =~= want);
    }
    JsonValue::Array(out)
}

/// A rule as JSON.
fn rule_to_json(r: &NotificationRule) -> (j: JsonValue)
    ensures
        json_view(j) == rule_json(r@),
{
    let when = match &r.when {
        Some(p) => predicate_to_json(p),
        None => JsonValue::Null,
    };
    let fires = names_to_json(&r.fires);
    let ghost (w, f) = (when, fires);
    let v = vec![member("when", when), member("fires", fires)];
    proof {
        lemma_members_view(v@);
        assert(members_view(v@) =~= seq![("when"@, json_view(w)), ("fires"@, json_view(f))]);
        assert(rule_json(r@)->Object_0 =~= members_view(v@));
    }
    JsonValue::Object(v)
}

/// The rules of a domain entry as a JSON array.
fn rules_to_json(rules: &Vec<NotificationRule>) -> (j: JsonValue)
    ensures
        json_view(j) == JsonView::Array(rules_json(rules_view(rules@))),
{
    let ghost want = rules_json(rules_view(rules@));
    let mut out: Vec<JsonValue> = Vec::new();
    let mut i: usize = 0;
    while i < rules.len()
        invariant
            i <= rules@.len(),
            want == rules_json(rules_view(rules@)),
            out@.len() == i,
            forall|k: int| 0 <= k < i ==> #[trigger] json_view(out@[k]) == want[k],
        decreases rules@.len() - i,
    {
        out.push(rule_to_json(&rules[i]));
        i = i + 1;
    }
    proof {
        lemma_items_view(out@);
        assert(items_view(out@) =~= want);
    }
    JsonValue::Array(out)
}

/// An entry as JSON.
fn entry_to_json(en: &Entry) -> (j: JsonValue)
    ensures
        json_view(j) == entry_json(en@),
{
    match en {
        Entry::Domain { notifies, reason } => {
            let reason_json = match reason {
                Some(t) => text_value(t.as_str()),
                None => JsonValue::Null,
            };
            let rules = rules_to_json(notifies);
            let j = object3(
                member("kind", text_value("domain")),
                member("notifies", rules),
                member("reason", reason_json),
            );
            assert(entry_json(en@)->Object_0 =~= json_view(j)->Object_0);
            j
        },
        Entry::Notification { audience, severity } => {
            let aud = match audience {
                Audience::Customer => "customer",
                Audience::Platform => "platform",
            };
            let sev = match severity {
                Some(Severity::Info) => text_value("info"),
                Some(Severity::Warning) => text_value("warning"),
                Some(Severity::Critical) => text_value("critical"),
                None => JsonValue::Null,
            };
            let j = object3(
                member("kind", text_value("notification")),
                member("audience", text_value(aud)),
                member("severity", sev),
            );
            assert(entry_json(en@)->Object_0 =~= json_view(j)->Object_0);
            j
        },
    }
}

/// The registry's JSON projection in canonical form: its version and its
/// entries by event name, every object ordered by key.
pub fn to_canonical_value(reg: &Registry) -> (r: JsonValue)
    ensures
        json_view(r) == spec_canonical(registry_json(reg.entries@)),
{
    let ghost want = variants_json(reg.entries@);
    let mut variants: Vec<(String, JsonValue)> = Vec::new();
    let mut i: usize = 0;
    while i < reg.entries.len()
        invariant
            i <= reg.entries@.len(),
            want == variants_json(reg.entries@),
            variants@.len() == i,
            forall|k: int|
                0 <= k < i ==> (#[trigger] variants@[k]).0@ == want[k].0 && json_view(variants@[k].1)
                    == want[k].1,
        decreases reg.entries@.len() - i,
    {
        let (e, en) = &reg.entries[i];
        variants.push((e.as_str().to_owned(), entry_to_json(en)));
        i = i + 1;
    }
    let ghost vars = variants;
    proof {
        lemma_members_view(variants@);
        assert(members_view(variants@) =~= want);
    }
    let version = JsonValue::Number(JsonNumber::Int(REGISTRY_VERSION as i64));
    let ghost ver = version;
    let top = vec![member("version", version), member("variants", JsonValue::Object(variants))];
    proof {
        lemma_members_view(top@);
        assert(members_view(top@) =~= seq![
            ("version"@, json_view(ver)),
            ("variants"@, json_view(JsonValue::Object(vars))),
        ]);
    }
    let raw = JsonValue::Object(top);
    canonicalize(&raw)
}

/// In ordered members, no key comes before an earlier one.
proof fn lemma_sorted_pairwise(s: Seq<(Seq<char>, JsonView)>, i: int, j: int)
    requires
        members_sorted(s),
        0 <= i <= j < s.len(),
    ensures
        !text_lt(s[j].0, s[i].0),
    decreases j - i,
{
    if i < j {
        lemma_sorted_pairwise(s, i, j - 1);
        assert(!text_lt(s[(j - 1) + 1].0, s[j - 1].0));
        lemma_text_not_lt_transitive(s[i].0, s[j - 1].0, s[j].0);
    } else {
        lemma_text_lt_total(s[i].0, s[i].0);
        if text_lt(s[i].0, s[i].0) {
            lemma_text_lt_asymmetric(s[i].0, s[i].0);
        }
    }
}

/// Sorting ordered members leaves them as they are.
pub proof fn lemma_sort_sorted_members(s: Seq<(Seq<char>, JsonView)>)
    requires
        members_sorted(s),
    ensures
        sort_members(s) == s,
    decreases s.len(),
{
    if s.len() > 0 {
        let t = s.drop_last();
        assert(members_sorted(t)) by {
            assert forall|i: int| 0 <= i < t.len() - 1 implies !text_lt(#[trigger] t[i + 1].0, t[i].0) by {
                assert(t[i] == s[i] && t[i + 1] == s[i + 1]);
            }
        }
        lemma_sort_sorted_members(t);
        assert forall|j: int| 0 <= j < t.len() implies !text_lt(s.last().0, #[trigger] t[j].0) by {
            lemma_sorted_pairwise(s, j, s.len() - 1);
        }
        lemma_insert_member_at(t, s.last(), t.len() as int);
        assert(t.insert(t.len() as int, s.last()) =~= s);
    }
}

/// The members with canonical values keep their keys, and each value is the
/// canonical form of the old one.
proof fn lemma_canon_members(ms: Seq<(Seq<char>, JsonView)>)
    ensures
        canon_members(ms).len() == ms.len(),
        forall|i: int|
            0 <= i < ms.len() ==> #[trigger] canon_members(ms)[i] == (ms[i].0, spec_canonical(ms[i].1)),
    decreases ms.len(),
{
    if ms.len() > 0 {
        lemma_canon_members(ms.drop_last());
        assert forall|i: int| 0 <= i < ms.len() implies #[trigger] canon_members(ms)[i] == (
            ms[i].0,
            spec_canonical(ms[i].1),
        ) by {
            if i < ms.len() - 1 {
                assert(ms.drop_last()[i] == ms[i]);
            }
        }
    }
}

/// A value in canonical form is its own canonical form: canonicalising
/// twice gives what canonicalising once gives.
pub proof fn lemma_canonical_idempotent(v: JsonView)
    ensures
        spec_canonical(spec_canonical(v)) == spec_canonical(v),
    decreases v,
{
    broadcast use vstd::seq_lib::group_to_multiset_ensures;

    match v {
        JsonView::Array(xs) => {
            assert forall|i: int| 0 <= i < xs.len() implies spec_canonical(spec_canonical(#[trigger] xs[i]))
                == spec_canonical(xs[i]) by {
                lemma_canonical_idempotent(xs[i]);
            }
            let cs = canon_items(xs);
            lemma_canon_items(xs);
            lemma_canon_items(cs);
            assert(canon_items(cs) =~= cs);
        },
        JsonView::Object(ms) => {
            assert forall|i: int| 0 <= i < ms.len() implies spec_canonical(spec_canonical(#[trigger] ms[i].1))
                == spec_canonical(ms[i].1) by {
                lemma_canonical_idempotent(ms[i].1);
            }
            let cm = canon_members(ms);
            let ns = sort_members(cm);
            lemma_canon_members(ms);
            lemma_sort_members(cm);
            lemma_canon_members(ns);
            assert forall|j: int| 0 <= j < ns.len() implies #[trigger] canon_members(ns)[j] == ns[j] by {
                assert(ns.to_multiset().count(ns[j]) > 0);
                assert(cm.to_multiset().count(ns[j]) > 0);
                assert(cm.contains(ns[j]));
                let k = choose|k: int| 0 <= k < cm.len() && cm[k] == ns[j];
                assert(cm[k] == (ms[k].0, spec_canonical(ms[k].1)));
            }
            assert(canon_members(ns) =~= ns);
            lemma_sort_sorted_members(ns);
        },
        _ => {},
    }
}

/// A JSON value as serde_json holds it; the library only hands such values
/// to serde_json.
#[verifier::external_type_specification]
#[verifier::external_body]
pub struct ExSerdeJsonValue(serde_json::Value);

/// The text that `serde_json::to_string_pretty` writes for a JSON value:
/// two-space indentation, `": "` after each key.
pub uninterp spec fn pretty_json_text(v: JsonView) -> Seq<char>;

/// The serde_json form of a JSON value, variant for variant: a number kept
/// as text is read back with `serde_json::from_str` (null if that fails),
/// and an object's members are inserted into a `serde_json::Map` in their
/// order. Nothing is stated of the result, which only `pretty_json` reads.
#[verifier::external_body]
fn serde_value(v: &JsonValue) -> (r: serde_json::Value) {
    match v {
        JsonValue::Null => serde_json::Value::Null,
        JsonValue::Bool(b) => serde_json::Value::Bool(*b),
        JsonValue::Number(JsonNumber::Int(i)) => serde_json::Value::from(*i),
        JsonValue::Number(JsonNumber::Other(s)) => serde_json::from_str(s).unwrap_or(serde_json::Value::Null),
        JsonValue::String(s) => serde_json::Value::String(s.clone()),
        JsonValue::Array(xs) => serde_json::Value::Array(xs.iter().map(serde_value).collect()),
        JsonValue::Object(ms) => serde_json::Value::Object(ms.iter().map(|(k, x)| (k.clone(), serde_value(x))).collect()),
    }
}

/// Pretty-prints a JSON value: `serde_json::to_string_pretty` on its
/// serde_json form. The contract names the text as a function of the
/// value's view. Serialising a `serde_json::Value` into a string cannot
/// fail, so the empty text of the error arm is never returned.
#[verifier::external_body]
fn pretty_json(v: &JsonValue) -> (r: String)
    ensures
        r@ == pretty_json_text(json_view(*v)),
{
    match serde_json::to_string_pretty(&serde_value(v)) {
        Ok(text) => text,
        Err(_) => String::new(),
    }
}

/// The registry's canonical JSON text: its canonical value, members ordered
/// by key, pretty-printed, with a final newline.
pub fn to_canonical_json(reg: &Registry) -> (r: String)
    ensures
        r@ == pretty_json_text(spec_canonical(registry_json(reg.entries@))) + "\n"@,
{
    let value = to_canonical_value(reg);
    let sorted = canonicalize(&value);
    proof {
        lemma_canonical_idempotent(registry_json(reg.entries@));
    }
    let mut out = pretty_json(&sorted);
    out.append("\n");
    out
}

/// The operator name under which the canonical JSON of a predicate records
/// it.
pub open spec fn operator_name(p: SpecPredicate) -> Seq<char> {
    match p {
        SpecPredicate::Equals { .. } => "eq"@,
        SpecPredicate::NotEquals { .. } => "ne"@,
        SpecPredicate::In { .. } => "in"@,
        SpecPredicate::NotIn { .. } => "not_in"@,
        SpecPredicate::And(..) => "and"@,
        SpecPredicate::Or(..) => "or"@,
    }
}

/// The JSON of a predicate is an object that opens with its operator under
/// `op`; a comparison keeps its field under `field`.
pub proof fn lemma_predicate_json_op(p: SpecPredicate)
    ensures
        predicate_json(p) matches JsonView::Object(ms) && ms.len() == 3 && ms[0] == ("op"@, JsonView::Str(
            operator_name(p),
        )),
        match p {
            SpecPredicate::Equals { field, .. } | SpecPredicate::NotEquals { field, .. }
            | SpecPredicate::In { field, .. } | SpecPredicate::NotIn { field, .. } => predicate_json(
                p,
            )->Object_0[1] == ("field"@, JsonView::Str(field)),
            _ => true,
        },
{
}

/// Distinct literals have distinct JSON.
proof fn lemma_literal_json_injective(a: SpecLiteral, b: SpecLiteral)
    requires
        literal_json(a) == literal_json(b),
    ensures
        a == b,
{
}

/// Distinct lists of literals have distinct JSON.
proof fn lemma_literals_json_injective(a: Seq<SpecLiteral>, b: Seq<SpecLiteral>)
    requires
        literals_json(a) == literals_json(b),
    ensures
        a == b,
{
    assert(a.len() == literals_json(a).len());
    assert(b.len() == literals_json(b).len());
    assert forall|i: int| 0 <= i < a.len() implies a[i] == b[i] by {
        assert(literals_json(a)[i] == literal_json(a[i]));
        assert(literals_json(b)[i] == literal_json(b[i]));
        lemma_literal_json_injective(a[i], b[i]);
    }
    assert(a =~= b);
}

/// Predicates with the same operator name are of the same kind.
proof fn lemma_operator_name_determines_variant(p: SpecPredicate, q: SpecPredicate)
    requires
        operator_name(p) == operator_name(q),
    ensures
        (p is Equals) == (q is Equals),
        (p is NotEquals) == (q is NotEquals),
        (p is In) == (q is In),
        (p is NotIn) == (q is NotIn),
        (p is And) == (q is And),
        (p is Or) == (q is Or),
{
    reveal_strlit("eq");
    reveal_strlit("ne");
    reveal_strlit("in");
    reveal_strlit("not_in");
    reveal_strlit("and");
    reveal_strlit("or");
    let a = operator_name(p);
    let b = operator_name(q);
    assert(a.len() == b.len());
    assert(a[0] == b[0]);
}

/// The canonical JSON of a predicate determines it: distinct predicates,
/// such as `==` and `!=` on the same field and value, get distinct JSON.
pub proof fn lemma_predicate_json_injective(p: SpecPredicate, q: SpecPredicate)
    requires
        predicate_json(p) == predicate_json(q),
    ensures
        p == q,
    decreases p,
{
    reveal_strlit("eq");
    reveal_strlit("ne");
    reveal_strlit("in");
    reveal_strlit("not_in");
    reveal_strlit("and");
    reveal_strlit("or");
    lemma_predicate_json_op(p);
    lemma_predicate_json_op(q);
    let mp = predicate_json(p)->Object_0;
    let mq = predicate_json(q)->Object_0;
    assert(mp[0] == mq[0]);
    assert(mp[1] == mq[1]);
    assert(mp[2] == mq[2]);
    assert(operator_name(p) == operator_name(q));
    lemma_operator_name_determines_variant(p, q);
    match p {
        SpecPredicate::Equals { field, value } => {
            assert(q is Equals);
            lemma_literal_json_injective(value, q->Equals_value);
        },
        SpecPredicate::NotEquals { field, value } => {
            assert(q is NotEquals);
            lemma_literal_json_injective(value, q->NotEquals_value);
        },
        SpecPredicate::In { field, values } => {
            assert(q is In);
            lemma_literals_json_injective(values, q->In_values);
        },
        SpecPredicate::NotIn { field, values } => {
            assert(q is NotIn);
            lemma_literals_json_injective(values, q->NotIn_values);
        },
        SpecPredicate::And(l, r) => {
            assert(q is And);
            lemma_predicate_json_injective(*l, *q->And_0);
            lemma_predicate_json_injective(*r, *q->And_1);
        },
        SpecPredicate::Or(l, r) => {
            assert(q is Or);
            lemma_predicate_json_injective(*l, *q->Or_0);
            lemma_predicate_json_injective(*r, *q->Or_1);
        },
    }
}

/// Distinct lists of event types have distinct JSON.
proof fn lemma_names_json_injective(a: Seq<EventType>, b: Seq<EventType>)
    requires
        names_json(a) == names_json(b),
    ensures
        a == b,
{
    assert(a.len() == names_json(a).len());
    assert(b.len() == names_json(b).len());
    assert forall|i: int| 0 <= i < a.len() implies a[i] == b[i] by {
        assert(names_json(a)[i] == JsonView::Str(a[i].spec_name()));
        assert(names_json(b)[i] == JsonView::Str(b[i].spec_name()));
        lemma_event_names_distinct(a[i], b[i]);
    }
    assert(a =~= b);
}

/// Distinct rules have distinct JSON.
proof fn lemma_rule_json_injective(a: SpecRule, b: SpecRule)
    requires
        rule_json(a) == rule_json(b),
    ensures
        a == b,
{
    let ma = rule_json(a)->Object_0;
    let mb = rule_json(b)->Object_0;
    assert(ma[0] == mb[0]);
    assert(ma[1] == mb[1]);
    match a.when {
        Some(p) => {
            lemma_predicate_json_op(p);
            match b.when {
                Some(q) => lemma_predicate_json_injective(p, q),
                None => {},
            }
        },
        None => {
            match b.when {
                Some(q) => lemma_predicate_json_op(q),
                None => {},
            }
        },
    }
    lemma_names_json_injective(a.fires, b.fires);
}

/// Distinct lists of rules have distinct JSON.
proof fn lemma_rules_json_injective(a: Seq<SpecRule>, b: Seq<SpecRule>)
    requires
        rules_json(a) == rules_json(b),
    ensures
        a == b,
{
    assert(a.len() == rules_json(a).len());
    assert(b.len() == rules_json(b).len());
    assert forall|i: int| 0 <= i < a.len() implies a[i] == b[i] by {
        assert(rules_json(a)[i] == rule_json(a[i]));
        assert(rules_json(b)[i] == rule_json(b[i]));
        lemma_rule_json_injective(a[i], b[i]);
    }
    assert(a =~= b);
}

/// The canonical JSON of a registry entry determines it: kind, rules with
/// their conditions and targets, reason, audience and severity.
pub proof fn lemma_entry_json_injective(a: SpecEntry, b: SpecEntry)
    requires
        entry_json(a) == entry_json(b),
    ensures
        a == b,
{
    reveal_strlit("domain");
    reveal_strlit("notification");
    reveal_strlit("customer");
    reveal_strlit("platform");
    reveal_strlit("info");
    reveal_strlit("warning");
    reveal_strlit("critical");
    let ma = entry_json(a)->Object_0;
    let mb = entry_json(b)->Object_0;
    assert(ma[0] == mb[0]);
    assert(ma[1] == mb[1]);
    assert(ma[2] == mb[2]);
    match a {
        SpecEntry::Domain { notifies, reason } => {
            assert("domain"@.len() != "notification"@.len());
            assert(b is Domain);
            lemma_rules_json_injective(notifies, b->Domain_notifies);
        },
        SpecEntry::Notification { audience, severity } => {
            assert("domain"@.len() != "notification"@.len());
            assert(b is Notification);
            let x = audience_name(audience);
            let y = audience_name(b->Notification_audience);
            assert(x == y);
            assert(x[0] == y[0]);
            match (severity, b->Notification_severity) {
                (Some(s), Some(t)) => {
                    let u = severity_name(s);
                    let v = severity_name(t);
                    assert(u == v);
                    assert(u[0] == v[0]);
                },
                _ => {},
            }
        },
    }
}

} // verus!

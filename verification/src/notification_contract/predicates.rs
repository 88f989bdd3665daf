//! Predicates of the notification registry's `when:` rules, and how they match
//! an event's payload.

use vstd::prelude::*;
use vstd::string::*;
use crate::json::JsonValue;
use crate::text::str_equal;

verus! {

/// A rule's condition over the fields of a payload.
#[derive(Debug, PartialEq)]
pub enum Predicate {
    Equals { field: String, value: Literal },
    NotEquals { field: String, value: Literal },
    In { field: String, values: Vec<Literal> },
    NotIn { field: String, values: Vec<Literal> },
    And(Box<Predicate>, Box<Predicate>),
    Or(Box<Predicate>, Box<Predicate>),
}

/// A constant that a field is compared with.
#[derive(Debug, PartialEq)]
pub enum Literal {
    Str(String),
    Int(i64),
}

/// Why a predicate could not be evaluated on a payload.
#[derive(Debug)]
pub enum MatchError {
    MissingField(String),
}

/// A literal as a mathematical value.
pub enum SpecLiteral {
    Str(Seq<char>),
    Int(i64),
}

/// A predicate as a mathematical value.
pub enum SpecPredicate {
    Equals { field: Seq<char>, value: SpecLiteral },
    NotEquals { field: Seq<char>, value: SpecLiteral },
    In { field: Seq<char>, values: Seq<SpecLiteral> },
    NotIn { field: Seq<char>, values: Seq<SpecLiteral> },
    And(Box<SpecPredicate>, Box<SpecPredicate>),
    Or(Box<SpecPredicate>, Box<SpecPredicate>),
}

impl View for Literal {
    type V = SpecLiteral;

    open spec fn view(&self) -> SpecLiteral {
        match self {
            Literal::Str(s) => SpecLiteral::Str(s@),
            Literal::Int(i) => SpecLiteral::Int(*i),
        }
    }
}

/// The values of a list of literals.
pub open spec fn literals_view(v: Seq<Literal>) -> Seq<SpecLiteral> {
    v.map_values(|l: Literal| l@)
}

/// The value of a predicate.
pub open spec fn predicate_view(p: Predicate) -> SpecPredicate
    decreases p,
{
    match p {
        Predicate::Equals { field, value } => SpecPredicate::Equals { field: field@, value: value@ },
        Predicate::NotEquals { field, value } => SpecPredicate::NotEquals {
            field: field@,
            value: value@,
        },
        Predicate::In { field, values } => SpecPredicate::In {
            field: field@,
            values: literals_view(values@),
        },
        Predicate::NotIn { field, values } => SpecPredicate::NotIn {
            field: field@,
            values: literals_view(values@),
        },
        Predicate::And(l, r) => SpecPredicate::And(
            Box::new(predicate_view(*l)),
            Box::new(predicate_view(*r)),
        ),
        Predicate::Or(l, r) => SpecPredicate::Or(
            Box::new(predicate_view(*l)),
            Box::new(predicate_view(*r)),
        ),
    }
}

impl View for Predicate {
    type V = SpecPredicate;

    open spec fn view(&self) -> SpecPredicate {
        predicate_view(*self)
    }
}

/// Whether a literal equals a payload value: a string literal equals a JSON
/// string with the same text, an integer literal a JSON number that fits an
/// `i64` and has the same value; nothing else is equal.
pub open spec fn literal_matches(lit: SpecLiteral, v: JsonValue) -> bool {
    match lit {
        SpecLiteral::Str(s) => v matches JsonValue::String(vs) && vs@ == s,
        SpecLiteral::Int(i) => v.spec_as_i64() == Some(i),
    }
}

/// Whether some literal of a list equals a payload value.
pub open spec fn any_literal_matches(lits: Seq<SpecLiteral>, v: JsonValue) -> bool {
    exists|i: int| 0 <= i < lits.len() && literal_matches(#[trigger] lits[i], v)
}

/// How a predicate evaluates on a payload: the truth value, or the name of a
/// field it reads that the payload lacks. `And` and `Or` evaluate their right
/// side only when the left side does not decide.
pub open spec fn spec_matches(p: SpecPredicate, payload: JsonValue) -> Result<bool, Seq<char>>
    decreases p,
{
    match p {
        SpecPredicate::Equals { field, value } => match payload.spec_get(field) {
            Some(v) => Ok(literal_matches(value, v)),
            None => Err(field),
        },
        SpecPredicate::NotEquals { field, value } => match payload.spec_get(field) {
            Some(v) => Ok(!literal_matches(value, v)),
            None => Err(field),
        },
        SpecPredicate::In { field, values } => match payload.spec_get(field) {
            Some(v) => Ok(any_literal_matches(values, v)),
            None => Err(field),
        },
        SpecPredicate::NotIn { field, values } => match payload.spec_get(field) {
            Some(v) => Ok(!any_literal_matches(values, v)),
            None => Err(field),
        },
        SpecPredicate::And(l, r) => match spec_matches(*l, payload) {
            Ok(true) => spec_matches(*r, payload),
            other => other,
        },
        SpecPredicate::Or(l, r) => match spec_matches(*l, payload) {
            Ok(false) => spec_matches(*r, payload),
            other => other,
        },
    }
}

/// An evaluation's outcome with the missing field's name as text.
pub open spec fn match_outcome(r: Result<bool, MatchError>) -> Result<bool, Seq<char>> {
    match r {
        Ok(b) => Ok(b),
        Err(MatchError::MissingField(f)) => Err(f@),
    }
}

/// Whether a literal equals a payload value.
fn literal_eq(lit: &Literal, v: &JsonValue) -> (r: bool)
    ensures
        r == literal_matches(lit@, *v),
{
    match lit {
        Literal::Str(s) => match v {
            JsonValue::String(vs) => str_equal(s.as_str(), vs.as_str()),
            _ => false,
        },
        Literal::Int(i) => match v.as_i64() {
            Some(j) => j == *i,
            None => false,
        },
    }
}

/// Whether some literal of a list equals a payload value.
fn any_literal_eq(lits: &Vec<Literal>, v: &JsonValue) -> (r: bool)
    ensures
        r == any_literal_matches(literals_view(lits@), *v),
{
    let mut i: usize = 0;
    while i < lits.len()
        invariant
            i <= lits@.len(),
            forall|j: int| 0 <= j < i ==> !literal_matches(#[trigger] literals_view(lits@)[j], *v),
        decreases lits@.len() - i,
    {
        if literal_eq(&lits[i], v) {
            assert(literal_matches(literals_view(lits@)[i as int], *v));
            return true;
        }
        i = i + 1;
    }
    false
}

/// The payload value of a field the predicate reads.
fn lookup<'a>(payload: &'a JsonValue, field: &String) -> (r: Result<&'a JsonValue, MatchError>)
    ensures
        match r {
            Ok(v) => payload.spec_get(field@) == Some(*v),
            Err(MatchError::MissingField(f)) => f@ == field@ && payload.spec_get(field@) is None,
        },
{
    match payload.get(field.as_str()) {
        Some(v) => Ok(v),
        None => Err(MatchError::MissingField(field.clone())),
    }
}

impl Predicate {
    /// Evaluates the predicate on a payload.
    pub fn matches(&self, payload: &JsonValue) -> (r: Result<bool, MatchError>)
        ensures
            match_outcome(r) == spec_matches(self@, *payload),
        decreases self,
    {
        match self {
            Predicate::Equals { field, value } => {
                let v = lookup(payload, field)?;
                Ok(literal_eq(value, v))
            },
            Predicate::NotEquals { field, value } => {
                let v = lookup(payload, field)?;
                Ok(!literal_eq(value, v))
            },
            Predicate::In { field, values } => {
                let v = lookup(payload, field)?;
                Ok(any_literal_eq(values, v))
            },
            Predicate::NotIn { field, values } => {
                let v = lookup(payload, field)?;
                Ok(!any_literal_eq(values, v))
            },
            Predicate::And(l, r) => {
                let a = l.matches(payload)?;
                if !a {
                    return Ok(false);
                }
                r.matches(payload)
            },
            Predicate::Or(l, r) => {
                let a = l.matches(payload)?;
                if a {
                    return Ok(true);
                }
                r.matches(payload)
            },
        }
    }
}

/// `And` does not look at its right side when its left side is false, so a
/// field missing on the right does not matter; `Or` likewise when its left
/// side is true. A field missing on the side that is looked at is reported.
pub proof fn lemma_short_circuit(l: SpecPredicate, r: SpecPredicate, payload: JsonValue)
    ensures
        spec_matches(l, payload) == Ok::<bool, Seq<char>>(false) ==> spec_matches(
            SpecPredicate::And(Box::new(l), Box::new(r)),
            payload,
        ) == Ok::<bool, Seq<char>>(false),
        spec_matches(l, payload) == Ok::<bool, Seq<char>>(true) ==> spec_matches(
            SpecPredicate::Or(Box::new(l), Box::new(r)),
            payload,
        ) == Ok::<bool, Seq<char>>(true),
        spec_matches(l, payload) is Err ==> spec_matches(
            SpecPredicate::And(Box::new(l), Box::new(r)),
            payload,
        ) == spec_matches(l, payload) && spec_matches(
            SpecPredicate::Or(Box::new(l), Box::new(r)),
            payload,
        ) == spec_matches(l, payload),
{
}

/// A comparison reports the field it reads when the payload lacks it.
pub proof fn lemma_missing_field_reported(field: Seq<char>, value: SpecLiteral, payload: JsonValue)
    requires
        payload.spec_get(field) is None,
    ensures
        spec_matches(SpecPredicate::Equals { field, value }, payload) == Err::<bool, Seq<char>>(field),
        spec_matches(SpecPredicate::NotEquals { field, value }, payload) == Err::<bool, Seq<char>>(field),
{
}

/// How a comparison reads a present field: a string literal equals exactly
/// a JSON string with the same text, an integer literal exactly a JSON
/// integer with the same value, and nothing else equals either.
pub proof fn lemma_equals_compares_value(field: Seq<char>, value: SpecLiteral, payload: JsonValue, v: JsonValue)
    requires
        payload.spec_get(field) == Some(v),
    ensures
        spec_matches(SpecPredicate::Equals { field, value }, payload) is Ok,
        spec_matches(SpecPredicate::Equals { field, value }, payload) == Ok::<bool, Seq<char>>(true)
            <==> match value {
            SpecLiteral::Str(s) => v matches JsonValue::String(t) && t@ == s,
            SpecLiteral::Int(i) => v matches JsonValue::Number(crate::json::JsonNumber::Int(j)) && j
                == i,
        },
{
}

/// `!=` is the negation of `==` on a present field, and fails like it on a
/// missing one.
pub proof fn lemma_not_equals_negates(field: Seq<char>, value: SpecLiteral, payload: JsonValue)
    ensures
        spec_matches(SpecPredicate::NotEquals { field, value }, payload) == match spec_matches(
            SpecPredicate::Equals { field, value },
            payload,
        ) {
            Ok(b) => Ok::<bool, Seq<char>>(!b),
            Err(f) => Err(f),
        },
{
}

/// `in` holds exactly when the field equals one of the listed literals, and
/// fails like `==` on a missing field.
pub proof fn lemma_in_is_some_equals(field: Seq<char>, values: Seq<SpecLiteral>, payload: JsonValue)
    ensures
        payload.spec_get(field) is None ==> spec_matches(SpecPredicate::In { field, values }, payload)
            == Err::<bool, Seq<char>>(field),
        payload.spec_get(field) is Some ==> (spec_matches(SpecPredicate::In { field, values }, payload)
            == Ok::<bool, Seq<char>>(true) <==> exists|i: int|
            0 <= i < values.len() && spec_matches(
                SpecPredicate::Equals { field, value: #[trigger] values[i] },
                payload,
            ) == Ok::<bool, Seq<char>>(true)),
        payload.spec_get(field) is Some ==> spec_matches(SpecPredicate::In { field, values }, payload) is Ok,
{
}

/// `not in` is the negation of `in` on a present field, and fails like it on
/// a missing one; so it holds exactly when the field equals none of the
/// listed literals.
pub proof fn lemma_not_in_negates(field: Seq<char>, values: Seq<SpecLiteral>, payload: JsonValue)
    ensures
        spec_matches(SpecPredicate::NotIn { field, values }, payload) == match spec_matches(
            SpecPredicate::In { field, values },
            payload,
        ) {
            Ok(b) => Ok::<bool, Seq<char>>(!b),
            Err(f) => Err(f),
        },
{
}

/// An `in` list of one literal is `==` with it; an empty `in` list never
/// holds on a present field.
pub proof fn lemma_in_small_lists(field: Seq<char>, value: SpecLiteral, payload: JsonValue)
    ensures
        spec_matches(SpecPredicate::In { field, values: seq![value] }, payload) == spec_matches(
            SpecPredicate::Equals { field, value },
            payload,
        ),
        payload.spec_get(field) is Some ==> spec_matches(
            SpecPredicate::In { field, values: Seq::<SpecLiteral>::empty() },
            payload,
        ) == Ok::<bool, Seq<char>>(false),
{
    if let Some(v) = payload.spec_get(field) {
        if literal_matches(value, v) {
            assert(literal_matches(seq![value][0], v));
        }
    }
}

/// When both sides evaluate, `and` is their conjunction and `or` their
/// disjunction.
pub proof fn lemma_and_or_truth(l: SpecPredicate, r: SpecPredicate, payload: JsonValue, a: bool, b: bool)
    requires
        spec_matches(l, payload) == Ok::<bool, Seq<char>>(a),
        spec_matches(r, payload) == Ok::<bool, Seq<char>>(b),
    ensures
        spec_matches(SpecPredicate::And(Box::new(l), Box::new(r)), payload) == Ok::<bool, Seq<char>>(a && b),
        spec_matches(SpecPredicate::Or(Box::new(l), Box::new(r)), payload) == Ok::<bool, Seq<char>>(a || b),
{
}

} // verus!

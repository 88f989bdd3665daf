//! A JSON document as the library reads it: message data, predicate payloads
//! and the registry's canonical projection.

use vstd::prelude::*;
use vstd::string::*;
use crate::text::str_equal;

verus! {

/// A JSON number: one that fits an `i64`, or any other number kept as its
/// decimal text.
#[derive(Debug, Clone, PartialEq)]
pub enum JsonNumber {
    Int(i64),
    Other(String),
}

/// A JSON value. An object keeps its members in order; a key occurs at most
/// once in an object that came from a JSON parser.
#[derive(Debug, PartialEq)]
pub enum JsonValue {
    Null,
    Bool(bool),
    Number(JsonNumber),
    String(String),
    Array(Vec<JsonValue>),
    Object(Vec<(String, JsonValue)>),
}

/// The value of the first member of `members` whose key is `key`.
pub open spec fn member_value(members: Seq<(String, JsonValue)>, key: Seq<char>) -> Option<
    JsonValue,
>
    decreases members.len(),
{
    if members.len() == 0 {
        None
    } else if members[0].0@ == key {
        Some(members[0].1)
    } else {
        member_value(members.drop_first(), key)
    }
}

impl JsonValue {
    /// The member `key` of an object; nothing for any other value.
    pub open spec fn spec_get(self, key: Seq<char>) -> Option<JsonValue> {
        match self {
            JsonValue::Object(members) => member_value(members@, key),
            _ => None,
        }
    }

    /// The integer a value holds when it is a number that fits an `i64`.
    pub open spec fn spec_as_i64(self) -> Option<i64> {
        match self {
            JsonValue::Number(JsonNumber::Int(i)) => Some(i),
            _ => None,
        }
    }

    /// Looks a member up by key in an object: `Value::as_object` then `Map::get`.
    pub fn get(&self, key: &str) -> (r: Option<&JsonValue>)
        ensures
            match r {
                Some(v) => self.spec_get(key@) == Some(*v),
                None => self.spec_get(key@) is None,
            },
    {
        match self {
            JsonValue::Object(members) => {
                let mut i: usize = 0;
                assert(members@.subrange(0, members@.len() as int) =~= members@);
                while i < members.len()
                    invariant
                        i <= members@.len(),
                        self.spec_get(key@) == member_value(members@, key@),
                        member_value(members@, key@) == member_value(
                            members@.subrange(i as int, members@.len() as int),
                            key@,
                        ),
                    decreases members@.len() - i,
                {
                    let ghost rest = members@.subrange(i as int, members@.len() as int);
                    assert(rest[0] == members@[i as int]);
                    if str_equal(members[i].0.as_str(), key) {
                        assert(rest.len() > 0 && rest[0].0@ == key@);
                        assert(member_value(rest, key@) == Some(rest[0].1));
                        return Some(&members[i].1);
                    }
                    assert(rest.drop_first() =~= members@.subrange(i + 1, members@.len() as int));
                    i = i + 1;
                }
                assert(members@.subrange(i as int, members@.len() as int) =~= Seq::<
                    (String, JsonValue),
                >::empty());
                None
            },
            _ => None,
        }
    }

    /// The integer a value holds when it is a number that fits an `i64`.
    pub fn as_i64(&self) -> (r: Option<i64>)
        ensures
            r == self.spec_as_i64(),
    {
        match self {
            JsonValue::Number(JsonNumber::Int(i)) => Some(*i),
            _ => None,
        }
    }
}

/// A JSON value as a mathematical value.
pub enum JsonView {
    Null,
    Bool(bool),
    Int(i64),
    OtherNumber(Seq<char>),
    Str(Seq<char>),
    Array(Seq<JsonView>),
    Object(Seq<(Seq<char>, JsonView)>),
}

/// The value of a JSON value.
pub open spec fn json_view(v: JsonValue) -> JsonView
    decreases v,
{
    match v {
        JsonValue::Null => JsonView::Null,
        JsonValue::Bool(b) => JsonView::Bool(b),
        JsonValue::Number(JsonNumber::Int(i)) => JsonView::Int(i),
        JsonValue::Number(JsonNumber::Other(s)) => JsonView::OtherNumber(s@),
        JsonValue::String(s) => JsonView::Str(s@),
        JsonValue::Array(xs) => JsonView::Array(items_view(xs@)),
        JsonValue::Object(ms) => JsonView::Object(members_view(ms@)),
    }
}

/// The values of a list of JSON values.
pub open spec fn items_view(xs: Seq<JsonValue>) -> Seq<JsonView>
    decreases xs,
{
    if xs.len() == 0 {
        seq![]
    } else {
        seq![json_view(xs[0])] + items_view(xs.drop_first())
    }
}

/// The values of a list of object members.
pub open spec fn members_view(ms: Seq<(String, JsonValue)>) -> Seq<(Seq<char>, JsonView)>
    decreases ms,
{
    if ms.len() == 0 {
        seq![]
    } else {
        seq![(ms[0].0@, json_view(ms[0].1))] + members_view(ms.drop_first())
    }
}

/// The values of a list, element by element.
pub proof fn lemma_items_view(xs: Seq<JsonValue>)
    ensures
        items_view(xs).len() == xs.len(),
        forall|i: int| 0 <= i < xs.len() ==> #[trigger] items_view(xs)[i] == json_view(xs[i]),
    decreases xs.len(),
{
    if xs.len() > 0 {
        lemma_items_view(xs.drop_first());
        assert forall|i: int| 0 <= i < xs.len() implies #[trigger] items_view(xs)[i] == json_view(
            xs[i],
        ) by {
            if i > 0 {
                assert(xs.drop_first()[i - 1] == xs[i]);
            }
        }
    }
}

/// The values of a list of members, member by member.
pub proof fn lemma_members_view(ms: Seq<(String, JsonValue)>)
    ensures
        members_view(ms).len() == ms.len(),
        forall|i: int|
            0 <= i < ms.len() ==> #[trigger] members_view(ms)[i] == (ms[i].0@, json_view(ms[i].1)),
    decreases ms.len(),
{
    if ms.len() > 0 {
        lemma_members_view(ms.drop_first());
        assert forall|i: int| 0 <= i < ms.len() implies #[trigger] members_view(ms)[i] == (
            ms[i].0@,
            json_view(ms[i].1),
        ) by {
            if i > 0 {
                assert(ms.drop_first()[i - 1] == ms[i]);
            }
        }
    }
}

} // verus!

//! Request helpers shared by the service clients: headers, query strings
//! and identifiers.

use vstd::prelude::*;
use vstd::string::*;
use crate::ids::{is_hyphenated_v4_uuid, new_uuid_text};
use crate::models::response::auth::ServiceToken;
use crate::text::{chars_of, join_strings, join_texts, push_char, str_equal, texts_of};

verus! {

/// The date-time format of the services: `YYYY-MM-DD HH:MM:SSZ`.
pub const DATE_TIME_FORMAT: &'static str = "%Y-%m-%d %H:%M:%SZ";

/// The texts of a list of headers.
pub open spec fn headers_view(v: Seq<(String, String)>) -> Seq<(Seq<char>, Seq<char>)> {
    v.map_values(|p: (String, String)| (p.0@, p.1@))
}

/// The headers of a call: a bearer authorisation when there is a token,
/// the client's identifier as its user agent when there is one, and JSON as
/// the content type.
pub open spec fn spec_headers(token: Option<Seq<char>>, client_id: Option<Seq<char>>) -> Seq<(Seq<char>, Seq<char>)> {
    let auth: Seq<(Seq<char>, Seq<char>)> = match token {
        Some(t) => seq![("authorization"@, "Bearer "@ + t)],
        None => seq![],
    };
    let agent: Seq<(Seq<char>, Seq<char>)> = match client_id {
        Some(c) => seq![("user-agent"@, c)],
        None => seq![],
    };
    auth + agent + seq![("content-type"@, "application/json"@)]
}

/// The access token of an optional service token.
pub open spec fn token_text(token: Option<ServiceToken>) -> Option<Seq<char>> {
    match token {
        Some(t) => Some(t.token@),
        None => None,
    }
}

/// The text of an optional string.
pub open spec fn opt_text(s: Option<String>) -> Option<Seq<char>> {
    match s {
        Some(t) => Some(t@),
        None => None,
    }
}

/// Builds the headers of a call, by header name and value.
pub fn generate_headers(token: Option<ServiceToken>, client_id: Option<String>) -> (r: Vec<(String, String)>)
    ensures
        headers_view(r@) == spec_headers(token_text(token), opt_text(client_id)),
{
    let mut r: Vec<(String, String)> = Vec::new();
    match &token {
        Some(t) => {
            let mut v = "Bearer ".to_owned();
            v.append(t.token.as_str());
            r.push(("authorization".to_owned(), v));
        },
        None => {},
    }
    match client_id {
        Some(c) => {
            r.push(("user-agent".to_owned(), c));
        },
        None => {},
    }
    r.push(("content-type".to_owned(), "application/json".to_owned()));
    assert(headers_view(r@) =~= spec_headers(token_text(token), opt_text(client_id)));
    r
}

/// The headers with the authorisation set to a bearer token: an existing
/// authorisation is replaced in place, else one is added at the end.
pub open spec fn spec_with_bearer(headers: Seq<(Seq<char>, Seq<char>)>, token: Seq<char>) -> Seq<(Seq<char>, Seq<char>)> {
    let value = "Bearer "@ + token;
    if exists|i: int| 0 <= i < headers.len() && (#[trigger] headers[i]).0 == "authorization"@ {
        headers.map_values(
            |h: (Seq<char>, Seq<char>)|
                if h.0 == "authorization"@ {
                    ("authorization"@, value)
                } else {
                    h
                },
        )
    } else {
        headers.push(("authorization"@, value))
    }
}

/// Sets the authorisation of a call to a bearer token, as inserting into a
/// header map does.
pub fn with_bearer(headers: Vec<(String, String)>, token: &str) -> (r: Vec<(String, String)>)
    ensures
        headers_view(r@) == spec_with_bearer(headers_view(headers@), token@),
{
    let ghost hv = headers_view(headers@);
    let mut value = "Bearer ".to_owned();
    value.append(token);
    let mut out: Vec<(String, String)> = Vec::new();
    let mut found = false;
    let mut i: usize = 0;
    while i < headers.len()
        invariant
            i <= headers@.len(),
            hv == headers_view(headers@),
            value@ == "Bearer "@ + token@,
            headers_view(out@) == hv.take(i as int).map_values(
                |h: (Seq<char>, Seq<char>)|
                    if h.0 == "authorization"@ {
                        ("authorization"@, "Bearer "@ + token@)
                    } else {
                        h
                    },
            ),
            found == exists|j: int| 0 <= j < i && (#[trigger] hv[j]).0 == "authorization"@,
        decreases headers@.len() - i,
    {
        let (name, v) = &headers[i];
        let ghost before = headers_view(out@);
        if str_equal(name.as_str(), "authorization") {
            out.push(("authorization".to_owned(), value.clone()));
            found = true;
        } else {
            out.push((name.clone(), v.clone()));
        }
        assert(headers_view(out@) =~= before.push(headers_view(out@).last()));
        assert(hv.take(i + 1) =~= hv.take(i as int).push(hv[i as int]));
        i = i + 1;
        assert(headers_view(out@) =~= hv.take(i as int).map_values(
            |h: (Seq<char>, Seq<char>)|
                if h.0 == "authorization"@ {
                    ("authorization"@, "Bearer "@ + token@)
                } else {
                    h
                },
        ));
    }
    assert(hv.take(i as int) =~= hv);
    if !found {
        let ghost before = headers_view(out@);
        out.push(("authorization".to_owned(), value));
        assert(headers_view(out@) =~= before.push(("authorization"@, "Bearer "@ + token@)));
        assert(before =~= hv) by {
            assert forall|j: int| 0 <= j < hv.len() implies before[j] == hv[j] by {
                assert(hv[j].0 != "authorization"@);
            }
        }
    }
    out
}

/// A URL with its query: the parameters joined by `&` after a `?`, or the
/// bare URL when there are none.
pub open spec fn spec_query_url(base: Seq<char>, params: Seq<Seq<char>>) -> Seq<char> {
    if params.len() == 0 {
        base
    } else {
        base + "?"@ + join_texts(params, "&"@)
    }
}

/// Appends the query parameters to a URL.
pub fn query_url(base: &str, params: &Vec<String>) -> (r: String)
    ensures
        r@ == spec_query_url(base@, texts_of(params@)),
{
    let mut r = base.to_owned();
    if params.len() != 0 {
        r.append("?");
        let q = join_strings(params, "&");
        r.append(q.as_str());
    }
    r
}

/// `name=value`.
pub open spec fn param_text(name: Seq<char>, value: Seq<char>) -> Seq<char> {
    name + "="@ + value
}

/// Appends the parameter `name=value`.
pub fn push_param(params: &mut Vec<String>, name: &str, value: &str)
    ensures
        texts_of(final(params)@) == texts_of(old(params)@).push(param_text(name@, value@)),
{
    let mut p = name.to_owned();
    p.append("=");
    p.append(value);
    params.push(p);
    assert(texts_of(params@) =~= texts_of(old(params)@).push(param_text(name@, value@)));
}

/// The text without its hyphens.
pub open spec fn without_hyphens(s: Seq<char>) -> Seq<char>
    decreases s.len(),
{
    if s.len() == 0 {
        seq![]
    } else if s.last() == '-' {
        without_hyphens(s.drop_last())
    } else {
        without_hyphens(s.drop_last()).push(s.last())
    }
}

/// A unique identifier with a prefix: `{prefix}:{uuid}`, a fresh random
/// version-4 UUID without its hyphens. There is no trailing colon.
pub fn generate_id(prefix: &str) -> (r: String)
    ensures
        exists|u: Seq<char>|
            is_hyphenated_v4_uuid(u) && r@ == prefix@ + ":"@ + #[trigger] without_hyphens(u),
{
    let id = new_uuid_text();
    let r = id_from_uuid(prefix, id.as_str());
    assert(is_hyphenated_v4_uuid(id@) && r@ == prefix@ + ":"@ + without_hyphens(id@));
    r
}

/// The identifier for a given UUID text: `{prefix}:{uuid}` with the UUID's
/// hyphens dropped.
pub fn id_from_uuid(prefix: &str, uuid: &str) -> (r: String)
    ensures
        r@ == prefix@ + ":"@ + without_hyphens(uuid@),
{
    let cs = chars_of(uuid);
    let mut r = prefix.to_owned();
    r.append(":");
    let ghost start = r@;
    let mut i: usize = 0;
    while i < cs.len()
        invariant
            i <= cs@.len(),
            cs@ == uuid@,
            r@ == start + without_hyphens(cs@.take(i as int)),
        decreases cs@.len() - i,
    {
        let ghost before = cs@.take(i as int);
        assert(cs@.take(i + 1).drop_last() =~= before);
        if cs[i] != '-' {
            push_char(&mut r, cs[i]);
        }
        i = i + 1;
    }
    assert(cs@.take(i as int) =~= uuid@);
    r
}

} // verus!

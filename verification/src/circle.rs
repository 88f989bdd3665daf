//! The Circle relay service: its bodies and the URLs of its listings.

use vstd::prelude::*;
use vstd::string::*;
use crate::text::{decimal_text, i64_to_text, texts_of};
use crate::util::{param_text, push_param, query_url, spec_query_url};

verus! {

/// One side of a relay address pair to create.
#[derive(Debug)]
pub struct RelayAddressSide {
    pub chain: String,
    pub address: String,
    pub private_key: String,
    pub label: Option<String>,
    pub external_address: Option<String>,
    pub client_domain: Option<String>,
    pub email: Option<String>,
}

/// A relay address pair to create.
#[derive(Debug)]
pub struct CreateRelayAddressPairRequest {
    pub source: RelayAddressSide,
    pub destination: RelayAddressSide,
}

/// A relay address.
#[derive(Debug)]
pub struct RelayAddress {
    pub id: String,
    pub address: String,
    pub chain: String,
    pub active: bool,
    pub label: Option<String>,
    pub counterpart_id: Option<String>,
    pub external_address: Option<String>,
    pub client_domain: Option<String>,
    pub email: Option<String>,
    pub created_at: String,
}

/// A created relay address pair.
#[derive(Debug)]
pub struct RelayAddressPair {
    pub source: RelayAddress,
    pub destination: RelayAddress,
}

/// A Circle deposit address.
#[derive(Debug)]
pub struct CircleAddress {
    pub id: String,
    pub address: String,
    pub address_tag: Option<String>,
    pub chain: String,
    pub currency: String,
    pub purpose: String,
    pub wallet_id: Option<String>,
}

/// The parameter `name=value` when the value is given.
pub open spec fn opt_param(name: Seq<char>, value: Option<Seq<char>>) -> Seq<Seq<char>> {
    match value {
        Some(v) => seq![param_text(name, v)],
        None => seq![],
    }
}

/// The text of an optional string slice.
pub open spec fn opt_str(s: Option<&str>) -> Option<Seq<char>> {
    match s {
        Some(t) => Some(t@),
        None => None,
    }
}

/// The decimal text of an optional number.
pub open spec fn opt_num(n: Option<i32>) -> Option<Seq<char>> {
    match n {
        Some(v) => Some(decimal_text(v as int)),
        None => None,
    }
}

/// Appends `name=value` when the value is given.
fn push_opt(params: &mut Vec<String>, name: &str, value: Option<&str>)
    ensures
        texts_of(final(params)@) == texts_of(old(params)@) + opt_param(name@, opt_str(value)),
{
    match value {
        Some(v) => push_param(params, name, v),
        None => {},
    }
    assert(texts_of(params@) =~= texts_of(old(params)@) + opt_param(name@, opt_str(value)));
}

/// Appends `name=number` when the number is given.
fn push_opt_num(params: &mut Vec<String>, name: &str, value: Option<i32>)
    ensures
        texts_of(final(params)@) == texts_of(old(params)@) + opt_param(name@, opt_num(value)),
{
    match value {
        Some(v) => {
            let t = i64_to_text(v as i64);
            push_param(params, name, t.as_str());
        },
        None => {},
    }
    assert(texts_of(params@) =~= texts_of(old(params)@) + opt_param(name@, opt_num(value)));
}

/// `{host}/relay-addresses`, filtered by chain when one is given.
pub fn relay_addresses_url(host: &str, chain: Option<&str>) -> (r: String)
    ensures
        r@ == spec_query_url(host@ + "/relay-addresses"@, opt_param("chain"@, opt_str(chain))),
{
    let mut base = host.to_owned();
    base.append("/relay-addresses");
    let mut params: Vec<String> = Vec::new();
    push_opt(&mut params, "chain", chain);
    assert(texts_of(params@) =~= opt_param("chain"@, opt_str(chain)));
    query_url(base.as_str(), &params)
}

/// `{host}/circle-addresses`, filtered by chain, currency and purpose when
/// given, in that order.
pub fn circle_addresses_url(host: &str, chain: Option<&str>, currency: Option<&str>, purpose: Option<&str>) -> (r: String)
    ensures
        r@ == spec_query_url(
            host@ + "/circle-addresses"@,
            opt_param("chain"@, opt_str(chain)) + opt_param("currency"@, opt_str(currency))
                + opt_param("purpose"@, opt_str(purpose)),
        ),
{
    let mut base = host.to_owned();
    base.append("/circle-addresses");
    let mut params: Vec<String> = Vec::new();
    assert(texts_of(params@) =~= Seq::<Seq<char>>::empty());
    push_opt(&mut params, "chain", chain);
    push_opt(&mut params, "currency", currency);
    push_opt(&mut params, "purpose", purpose);
    assert(texts_of(params@) =~= opt_param("chain"@, opt_str(chain)) + opt_param(
        "currency"@,
        opt_str(currency),
    ) + opt_param("purpose"@, opt_str(purpose)));
    query_url(base.as_str(), &params)
}

/// The query of a transaction listing: page, page size, chain, status,
/// token (the asset), sender and recipient, each when given, in that order.
pub open spec fn transactions_query(
    page: Option<i32>,
    per_page: Option<i32>,
    chain: Option<&str>,
    status: Option<&str>,
    asset: Option<&str>,
    sender: Option<&str>,
    recipient: Option<&str>,
) -> Seq<Seq<char>> {
    opt_param("page"@, opt_num(page)) + opt_param("per_page"@, opt_num(per_page)) + opt_param(
        "chain"@,
        opt_str(chain),
    ) + opt_param("status"@, opt_str(status)) + opt_param("token"@, opt_str(asset)) + opt_param(
        "sender"@,
        opt_str(sender),
    ) + opt_param("recipient"@, opt_str(recipient))
}

/// `{host}/transactions` with the listing's query.
pub fn transactions_url(
    host: &str,
    page: Option<i32>,
    per_page: Option<i32>,
    chain: Option<&str>,
    status: Option<&str>,
    asset: Option<&str>,
    sender: Option<&str>,
    recipient: Option<&str>,
) -> (r: String)
    ensures
        r@ == spec_query_url(
            host@ + "/transactions"@,
            transactions_query(page, per_page, chain, status, asset, sender, recipient),
        ),
{
    let mut base = host.to_owned();
    base.append("/transactions");
    let mut params: Vec<String> = Vec::new();
    assert(texts_of(params@) =~= Seq::<Seq<char>>::empty());
    push_opt_num(&mut params, "page", page);
    push_opt_num(&mut params, "per_page", per_page);
    push_opt(&mut params, "chain", chain);
    push_opt(&mut params, "status", status);
    push_opt(&mut params, "token", asset);
    push_opt(&mut params, "sender", sender);
    push_opt(&mut params, "recipient", recipient);
    assert(texts_of(params@) =~= transactions_query(
        page,
        per_page,
        chain,
        status,
        asset,
        sender,
        recipient,
    ));
    query_url(base.as_str(), &params)
}

} // verus!

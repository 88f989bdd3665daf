//! The ledger service: its transaction filter and URLs.

use vstd::prelude::*;
use vstd::string::*;

verus! {

/// Filters of a transaction listing; `page` and `limit` paginate.
#[derive(Debug, Clone)]
pub struct TransactionFilterRequest {
    pub sources: Option<Vec<String>>,
    pub transaction_types: Option<Vec<String>>,
    pub statuses: Option<Vec<String>>,
    pub currencies: Option<Vec<String>>,
    pub from_date: Option<String>,
    pub to_date: Option<String>,
    pub payee: Option<String>,
    pub payer: Option<String>,
    pub page: Option<i32>,
    pub limit: Option<i32>,
}

impl Default for TransactionFilterRequest {
    /// No filters, the first page, ten transactions a page.
    fn default() -> (r: TransactionFilterRequest)
        ensures
            r.sources is None,
            r.transaction_types is None,
            r.statuses is None,
            r.currencies is None,
            r.from_date is None,
            r.to_date is None,
            r.payee is None,
            r.payer is None,
            r.page == Some(1i32),
            r.limit == Some(10i32),
    {
        TransactionFilterRequest {
            sources: None,
            transaction_types: None,
            statuses: None,
            currencies: None,
            from_date: None,
            to_date: None,
            payee: None,
            payer: None,
            page: Some(1),
            limit: Some(10),
        }
    }
}

/// The URL of the transaction statuses, or of the transitions of one status.
pub fn statuses_url(host: &str, status: Option<&str>) -> (r: String)
    ensures
        r@ == match status {
            Some(s) => host@ + "/transactions/statuses/transitions/"@ + s@,
            None => host@ + "/transactions/statuses"@,
        },
{
    let mut r = host.to_owned();
    match status {
        Some(s) => {
            r.append("/transactions/statuses/transitions/");
            r.append(s);
        },
        None => r.append("/transactions/statuses"),
    }
    r
}

} // verus!

//! Bodies of the anchors' transaction records.

use vstd::prelude::*;
use vstd::string::*;

verus! {

/// An amount of an asset, as decimal text.
#[derive(Debug, Clone)]
pub struct Amount {
    pub amount: String,
    pub asset: String,
}

/// One fee of a transaction.
#[derive(Debug, Clone)]
pub struct FeeDetail {
    pub name: String,
    pub description: String,
    pub amount: String,
}

/// The fees of a transaction: their total, its asset, and each fee.
#[derive(Debug, Clone)]
pub struct FeeDetails {
    pub total: String,
    pub asset: String,
    pub details: Vec<FeeDetail>,
}

/// A party to a transaction.
#[derive(Debug, Clone)]
pub struct Customer {
    pub account: String,
}

/// The sender and the receiver of a transaction.
#[derive(Debug, Clone)]
pub struct Customers {
    pub sender: Customer,
    pub receiver: Customer,
}

/// Who created a transaction.
#[derive(Debug, Clone)]
pub struct Creator {
    pub account: String,
}

} // verus!

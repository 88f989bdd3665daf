//! Transactions recorded by the dApp before they go to the ledger.

use vstd::prelude::*;
use vstd::string::*;
use crate::ids::{is_hyphenated_uuid, new_uuid_text, utc_now, UtcTimestamp};

verus! {

/// Whether money comes in or goes out.
#[derive(Debug, Clone, Copy, PartialEq, Eq, Structural)]
pub enum TransactionType {
    Deposit,
    Withdraw,
}

/// Where a dApp transaction stands.
#[derive(Debug, Clone, Copy, PartialEq, Eq, Structural)]
pub enum TransactionStatus {
    PendingPayer,
    PendingPayee,
    Completed,
    Failed,
    Cancelled,
}

/// The anchor a transaction came through.
#[derive(Debug, Clone, Copy, PartialEq, Eq, Structural)]
pub enum TransactionSource {
    AnchorSolana,
    AnchorStellar,
}

/// A transaction as the dApp records it before sending it to the ledger.
/// Amounts are decimal texts, to keep their precision.
#[derive(Debug, Clone)]
pub struct Transaction {
    pub id: String,
    pub reference: String,
    pub idempotency_key: String,
    pub transaction_type: TransactionType,
    pub status: TransactionStatus,
    pub incoming_currency: String,
    pub outgoing_currency: String,
    pub value: String,
    pub fee: String,
    pub payer_id: Option<String>,
    pub payee_id: Option<String>,
    pub first_name: Option<String>,
    pub last_name: Option<String>,
    pub wallet_address: String,
    pub source: TransactionSource,
    pub ip_address: Option<String>,
    pub message_id: Option<String>,
    pub queue_sent_at: Option<UtcTimestamp>,
    pub tx_hash: Option<String>,
    pub created_at: UtcTimestamp,
    pub updated_at: UtcTimestamp,
}

impl Transaction {
    /// Two records agree on everything but the time of the last update and
    /// the fields a setter writes: the status, the hash, the queue
    /// information, the payer, the payee and the address.
    pub open spec fn same_identity(&self, other: &Transaction) -> bool {
        &&& self.id == other.id
        &&& self.reference == other.reference
        &&& self.idempotency_key == other.idempotency_key
        &&& self.transaction_type == other.transaction_type
        &&& self.incoming_currency == other.incoming_currency
        &&& self.outgoing_currency == other.outgoing_currency
        &&& self.value == other.value
        &&& self.fee == other.fee
        &&& self.wallet_address == other.wallet_address
        &&& self.source == other.source
        &&& self.created_at == other.created_at
    }

    /// A new record with a fresh UUID for its id, created and updated now,
    /// and no payer, payee, address, queue information or hash yet.
    pub fn new(
        reference: String,
        idempotency_key: String,
        transaction_type: TransactionType,
        status: TransactionStatus,
        incoming_currency: String,
        outgoing_currency: String,
        value: String,
        fee: String,
        wallet_address: String,
        source: TransactionSource,
    ) -> (r: Transaction)
        ensures
            is_hyphenated_uuid(r.id@),
            r.reference == reference,
            r.idempotency_key == idempotency_key,
            r.transaction_type == transaction_type,
            r.status == status,
            r.incoming_currency == incoming_currency,
            r.outgoing_currency == outgoing_currency,
            r.value == value,
            r.fee == fee,
            r.wallet_address == wallet_address,
            r.source == source,
            r.payer_id is None,
            r.payee_id is None,
            r.first_name is None,
            r.last_name is None,
            r.ip_address is None,
            r.message_id is None,
            r.queue_sent_at is None,
            r.tx_hash is None,
            r.created_at == r.updated_at,
    {
        let now = utc_now();
        Transaction {
            id: new_uuid_text(),
            reference,
            idempotency_key,
            transaction_type,
            status,
            incoming_currency,
            outgoing_currency,
            value,
            fee,
            payer_id: None,
            payee_id: None,
            first_name: None,
            last_name: None,
            wallet_address,
            source,
            ip_address: None,
            message_id: None,
            queue_sent_at: None,
            tx_hash: None,
            created_at: now,
            updated_at: now,
        }
    }

    /// Sets the status and refreshes the update time.
    pub fn update_status(&mut self, status: TransactionStatus)
        ensures
            final(self).same_identity(&*old(self)),
            final(self).status == status,
            final(self).payer_id == old(self).payer_id,
            final(self).payee_id == old(self).payee_id,
            final(self).first_name == old(self).first_name,
            final(self).last_name == old(self).last_name,
            final(self).ip_address == old(self).ip_address,
            final(self).message_id == old(self).message_id,
            final(self).queue_sent_at == old(self).queue_sent_at,
            final(self).tx_hash == old(self).tx_hash,
    {
        self.status = status;
        self.updated_at = utc_now();
    }

    /// Records the chain transaction hash and refreshes the update time.
    pub fn set_tx_hash(&mut self, tx_hash: String)
        ensures
            final(self).same_identity(&*old(self)),
            final(self).tx_hash == Some(tx_hash),
            final(self).status == old(self).status,
            final(self).payer_id == old(self).payer_id,
            final(self).payee_id == old(self).payee_id,
            final(self).first_name == old(self).first_name,
            final(self).last_name == old(self).last_name,
            final(self).ip_address == old(self).ip_address,
            final(self).message_id == old(self).message_id,
            final(self).queue_sent_at == old(self).queue_sent_at,
    {
        self.tx_hash = Some(tx_hash);
        self.updated_at = utc_now();
    }

    /// Records the queue message id and when it was sent, and refreshes the
    /// update time.
    pub fn set_queue_info(&mut self, message_id: String)
        ensures
            final(self).same_identity(&*old(self)),
            final(self).message_id == Some(message_id),
            final(self).queue_sent_at is Some,
            final(self).status == old(self).status,
            final(self).payer_id == old(self).payer_id,
            final(self).payee_id == old(self).payee_id,
            final(self).first_name == old(self).first_name,
            final(self).last_name == old(self).last_name,
            final(self).ip_address == old(self).ip_address,
            final(self).tx_hash == old(self).tx_hash,
    {
        self.message_id = Some(message_id);
        self.queue_sent_at = Some(utc_now());
        self.updated_at = utc_now();
    }

    /// Records the payer and the payer's names, and refreshes the update time.
    pub fn set_payer(&mut self, payer_id: String, first_name: Option<String>, last_name: Option<String>)
        ensures
            final(self).same_identity(&*old(self)),
            final(self).payer_id == Some(payer_id),
            final(self).first_name == first_name,
            final(self).last_name == last_name,
            final(self).status == old(self).status,
            final(self).payee_id == old(self).payee_id,
            final(self).ip_address == old(self).ip_address,
            final(self).message_id == old(self).message_id,
            final(self).queue_sent_at == old(self).queue_sent_at,
            final(self).tx_hash == old(self).tx_hash,
    {
        self.payer_id = Some(payer_id);
        self.first_name = first_name;
        self.last_name = last_name;
        self.updated_at = utc_now();
    }

    /// Records the payee and refreshes the update time.
    pub fn set_payee(&mut self, payee_id: String)
        ensures
            final(self).same_identity(&*old(self)),
            final(self).payee_id == Some(payee_id),
            final(self).status == old(self).status,
            final(self).payer_id == old(self).payer_id,
            final(self).first_name == old(self).first_name,
            final(self).last_name == old(self).last_name,
            final(self).ip_address == old(self).ip_address,
            final(self).message_id == old(self).message_id,
            final(self).queue_sent_at == old(self).queue_sent_at,
            final(self).tx_hash == old(self).tx_hash,
    {
        self.payee_id = Some(payee_id);
        self.updated_at = utc_now();
    }

    /// Records the client's IP address and refreshes the update time.
    pub fn set_ip_address(&mut self, ip_address: String)
        ensures
            final(self).same_identity(&*old(self)),
            final(self).ip_address == Some(ip_address),
            final(self).status == old(self).status,
            final(self).payer_id == old(self).payer_id,
            final(self).payee_id == old(self).payee_id,
            final(self).first_name == old(self).first_name,
            final(self).last_name == old(self).last_name,
            final(self).message_id == old(self).message_id,
            final(self).queue_sent_at == old(self).queue_sent_at,
            final(self).tx_hash == old(self).tx_hash,
    {
        self.ip_address = Some(ip_address);
        self.updated_at = utc_now();
    }
}

impl Default for Transaction {
    /// An empty pending deposit through the Solana anchor, worth `0.0` with
    /// no fee, with a fresh UUID for its id, created and updated now.
    fn default() -> (r: Transaction)
        ensures
            is_hyphenated_uuid(r.id@),
            r.reference@.len() == 0,
            r.idempotency_key@.len() == 0,
            r.transaction_type == TransactionType::Deposit,
            r.status == TransactionStatus::PendingPayer,
            r.incoming_currency@.len() == 0,
            r.outgoing_currency@.len() == 0,
            r.value@ == "0.0"@,
            r.fee@ == "0.0"@,
            r.payer_id is None,
            r.payee_id is None,
            r.first_name is None,
            r.last_name is None,
            r.wallet_address@.len() == 0,
            r.source == TransactionSource::AnchorSolana,
            r.ip_address is None,
            r.message_id is None,
            r.queue_sent_at is None,
            r.tx_hash is None,
            r.created_at == r.updated_at,
    {
        let now = utc_now();
        Transaction {
            id: new_uuid_text(),
            reference: String::new(),
            idempotency_key: String::new(),
            transaction_type: TransactionType::Deposit,
            status: TransactionStatus::PendingPayer,
            incoming_currency: String::new(),
            outgoing_currency: String::new(),
            value: "0.0".to_owned(),
            fee: "0.0".to_owned(),
            payer_id: None,
            payee_id: None,
            first_name: None,
            last_name: None,
            wallet_address: String::new(),
            source: TransactionSource::AnchorSolana,
            ip_address: None,
            message_id: None,
            queue_sent_at: None,
            tx_hash: None,
            created_at: now,
            updated_at: now,
        }
    }
}

} // verus!

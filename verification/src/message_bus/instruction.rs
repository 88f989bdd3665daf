//! Instruction payloads: what another service is asked to do.

use vstd::prelude::*;
use vstd::string::*;
use crate::message_bus::base::{
    blank_field_names, built, checked, field_texts, missing_as_check, single_error,
    validate_required_fields, PaymentDirection, TransactionType, ValidationError,
};

verus! {

/// Payload for a ledger payment instruction.
#[derive(Debug, Clone, PartialEq)]
pub struct PaymentPayload {
    pub external_reference: String,
    pub payer_name: Option<String>,
    pub currency: String,
    pub value: String,
    pub source: String,
    pub direction: PaymentDirection,
    pub reference: String,
    pub bank_account_number: Option<String>,
}

impl PaymentPayload {
    /// The names of the required fields that are blank, in checking order.
    pub open spec fn spec_missing(&self) -> Seq<Seq<char>> {
        blank_field_names(seq![("external_reference"@, self.external_reference@), ("currency"@, self.currency@), ("value"@, self.value@), ("source"@, self.source@), ("reference"@, self.reference@)])
    }

    /// What validation reports: nothing when the payload is valid, else the
    /// fields of its error.
    pub open spec fn spec_check(&self) -> Option<Seq<Seq<char>>> {
        missing_as_check(self.spec_missing())
    }

    /// Builds the payload and validates it.
    pub fn new(external_reference: String, currency: String, value: String, source: String, direction: PaymentDirection, reference: String, payer_name: Option<String>, bank_account_number: Option<String>) -> (r: Result<PaymentPayload, ValidationError>)
        ensures
            built(r, (PaymentPayload { external_reference, payer_name, currency, value, source, direction, reference, bank_account_number }), "PaymentPayload"@, (PaymentPayload { external_reference, payer_name, currency, value, source, direction, reference, bank_account_number }).spec_check()),
    {
        let payload = PaymentPayload { external_reference, payer_name, currency, value, source, direction, reference, bank_account_number };
        match payload.validate() {
            Ok(()) => Ok(payload),
            Err(e) => Err(e),
        }
    }

    /// Checks the payload's required fields.
    pub fn validate(&self) -> (r: Result<(), ValidationError>)
        ensures
            checked(r, "PaymentPayload"@, self.spec_check()),
    {
        let fields = [("external_reference", self.external_reference.as_str()), ("currency", self.currency.as_str()), ("value", self.value.as_str()), ("source", self.source.as_str()), ("reference", self.reference.as_str())];
        assert(field_texts(fields@) =~= seq![("external_reference"@, self.external_reference@), ("currency"@, self.currency@), ("value"@, self.value@), ("source"@, self.source@), ("reference"@, self.reference@)]);
        let r = validate_required_fields(&fields, "PaymentPayload");
        r
    }
}

/// Payload for an instruction that reports a payment seen on chain.
#[derive(Debug, Clone, PartialEq)]
pub struct ChainPaymentPayload {
    pub chain: String,
    pub hash: String,
    pub reference: String,
    pub status: String,
    pub transaction_id: Option<String>,
}

impl ChainPaymentPayload {
    /// The names of the required fields that are blank, in checking order.
    pub open spec fn spec_missing(&self) -> Seq<Seq<char>> {
        blank_field_names(seq![("chain"@, self.chain@), ("hash"@, self.hash@), ("reference"@, self.reference@), ("status"@, self.status@)])
    }

    /// What validation reports: nothing when the payload is valid, else the
    /// fields of its error.
    pub open spec fn spec_check(&self) -> Option<Seq<Seq<char>>> {
        missing_as_check(self.spec_missing())
    }

    /// Builds the payload and validates it.
    pub fn new(chain: String, hash: String, reference: String, status: String, transaction_id: Option<String>) -> (r: Result<ChainPaymentPayload, ValidationError>)
        ensures
            built(r, (ChainPaymentPayload { chain, hash, reference, status, transaction_id }), "ChainPaymentPayload"@, (ChainPaymentPayload { chain, hash, reference, status, transaction_id }).spec_check()),
    {
        let payload = ChainPaymentPayload { chain, hash, reference, status, transaction_id };
        match payload.validate() {
            Ok(()) => Ok(payload),
            Err(e) => Err(e),
        }
    }

    /// Checks the payload's required fields.
    pub fn validate(&self) -> (r: Result<(), ValidationError>)
        ensures
            checked(r, "ChainPaymentPayload"@, self.spec_check()),
    {
        let fields = [("chain", self.chain.as_str()), ("hash", self.hash.as_str()), ("reference", self.reference.as_str()), ("status", self.status.as_str())];
        assert(field_texts(fields@) =~= seq![("chain"@, self.chain@), ("hash"@, self.hash@), ("reference"@, self.reference@), ("status"@, self.status@)]);
        let r = validate_required_fields(&fields, "ChainPaymentPayload");
        r
    }
}

/// Payload for a status update instruction.
#[derive(Debug, Clone, PartialEq)]
pub struct StatusUpdatePayload {
    pub reference: String,
    pub status: String,
    pub message: Option<String>,
    pub transaction_id: Option<String>,
}

impl StatusUpdatePayload {
    /// The names of the required fields that are blank, in checking order.
    pub open spec fn spec_missing(&self) -> Seq<Seq<char>> {
        blank_field_names(seq![("reference"@, self.reference@), ("status"@, self.status@)])
    }

    /// What validation reports: nothing when the payload is valid, else the
    /// fields of its error.
    pub open spec fn spec_check(&self) -> Option<Seq<Seq<char>>> {
        missing_as_check(self.spec_missing())
    }

    /// Builds the payload and validates it.
    pub fn new(reference: String, status: String, message: Option<String>, transaction_id: Option<String>) -> (r: Result<StatusUpdatePayload, ValidationError>)
        ensures
            built(r, (StatusUpdatePayload { reference, status, message, transaction_id }), "StatusUpdatePayload"@, (StatusUpdatePayload { reference, status, message, transaction_id }).spec_check()),
    {
        let payload = StatusUpdatePayload { reference, status, message, transaction_id };
        match payload.validate() {
            Ok(()) => Ok(payload),
            Err(e) => Err(e),
        }
    }

    /// Checks the payload's required fields.
    pub fn validate(&self) -> (r: Result<(), ValidationError>)
        ensures
            checked(r, "StatusUpdatePayload"@, self.spec_check()),
    {
        let fields = [("reference", self.reference.as_str()), ("status", self.status.as_str())];
        assert(field_texts(fields@) =~= seq![("reference"@, self.reference@), ("status"@, self.status@)]);
        let r = validate_required_fields(&fields, "StatusUpdatePayload");
        r
    }
}

/// Payload for a correction instruction.
#[derive(Debug, Clone, PartialEq)]
pub struct CorrectionPayload {
    pub reference: String,
    pub value: String,
    pub message: String,
    pub currency: String,
    pub source: String,
}

impl CorrectionPayload {
    /// The names of the required fields that are blank, in checking order.
    pub open spec fn spec_missing(&self) -> Seq<Seq<char>> {
        blank_field_names(seq![("reference"@, self.reference@), ("value"@, self.value@), ("message"@, self.message@), ("currency"@, self.currency@), ("source"@, self.source@)])
    }

    /// What validation reports: nothing when the payload is valid, else the
    /// fields of its error.
    pub open spec fn spec_check(&self) -> Option<Seq<Seq<char>>> {
        missing_as_check(self.spec_missing())
    }

    /// Builds the payload and validates it.
    pub fn new(reference: String, value: String, message: String, currency: String, source: String) -> (r: Result<CorrectionPayload, ValidationError>)
        ensures
            built(r, (CorrectionPayload { reference, value, message, currency, source }), "CorrectionPayload"@, (CorrectionPayload { reference, value, message, currency, source }).spec_check()),
    {
        let payload = CorrectionPayload { reference, value, message, currency, source };
        match payload.validate() {
            Ok(()) => Ok(payload),
            Err(e) => Err(e),
        }
    }

    /// Checks the payload's required fields.
    pub fn validate(&self) -> (r: Result<(), ValidationError>)
        ensures
            checked(r, "CorrectionPayload"@, self.spec_check()),
    {
        let fields = [("reference", self.reference.as_str()), ("value", self.value.as_str()), ("message", self.message.as_str()), ("currency", self.currency.as_str()), ("source", self.source.as_str())];
        assert(field_texts(fields@) =~= seq![("reference"@, self.reference@), ("value"@, self.value@), ("message"@, self.message@), ("currency"@, self.currency@), ("source"@, self.source@)]);
        let r = validate_required_fields(&fields, "CorrectionPayload");
        r
    }
}

/// Payload for a transaction instruction.
#[derive(Debug, Clone, PartialEq)]
pub struct TransactionPayload {
    pub external_reference: String,
    pub source: String,
    pub reference: String,
    pub first_name: String,
    pub last_name: String,
    pub transaction_type: TransactionType,
    pub status: String,
    pub incoming_currency: String,
    pub outgoing_currency: String,
    pub value: String,
    pub fee: String,
    pub payer: Option<String>,
    pub payee: Option<String>,
}

impl TransactionPayload {
    /// The names of the required fields that are blank, in checking order.
    pub open spec fn spec_missing(&self) -> Seq<Seq<char>> {
        blank_field_names(seq![("external_reference"@, self.external_reference@), ("source"@, self.source@), ("reference"@, self.reference@), ("first_name"@, self.first_name@), ("last_name"@, self.last_name@), ("status"@, self.status@), ("incoming_currency"@, self.incoming_currency@), ("outgoing_currency"@, self.outgoing_currency@), ("value"@, self.value@), ("fee"@, self.fee@)])
    }

    /// What validation reports: nothing when the payload is valid, else the
    /// fields of its error.
    pub open spec fn spec_check(&self) -> Option<Seq<Seq<char>>> {
        if self.transaction_type == TransactionType::Deposit && self.payer is None {
            Some(seq!["payer (required for DEPOSIT transactions)"@])
        } else if self.transaction_type == TransactionType::Withdraw && self.payee is None {
            Some(seq!["payee (required for WITHDRAW transactions)"@])
        } else {
            missing_as_check(self.spec_missing())
        }
    }

    /// Builds the payload and validates it.
    pub fn new(external_reference: String, source: String, reference: String, first_name: String, last_name: String, transaction_type: TransactionType, status: String, incoming_currency: String, outgoing_currency: String, value: String, fee: String, payer: Option<String>, payee: Option<String>) -> (r: Result<TransactionPayload, ValidationError>)
        ensures
            built(r, (TransactionPayload { external_reference, source, reference, first_name, last_name, transaction_type, status, incoming_currency, outgoing_currency, value, fee, payer, payee }), "TransactionPayload"@, (TransactionPayload { external_reference, source, reference, first_name, last_name, transaction_type, status, incoming_currency, outgoing_currency, value, fee, payer, payee }).spec_check()),
    {
        let payload = TransactionPayload { external_reference, source, reference, first_name, last_name, transaction_type, status, incoming_currency, outgoing_currency, value, fee, payer, payee };
        match payload.validate() {
            Ok(()) => Ok(payload),
            Err(e) => Err(e),
        }
    }

    /// Checks the payload's required fields.
    pub fn validate(&self) -> (r: Result<(), ValidationError>)
        ensures
            checked(r, "TransactionPayload"@, self.spec_check()),
    {
        match self.transaction_type {
            TransactionType::Deposit => {
                if self.payer.is_none() {
                    return Err(single_error("TransactionPayload", "payer (required for DEPOSIT transactions)"));
                }
            },
            TransactionType::Withdraw => {
                if self.payee.is_none() {
                    return Err(single_error("TransactionPayload", "payee (required for WITHDRAW transactions)"));
                }
            },
            _ => {},
        }
        let fields = [("external_reference", self.external_reference.as_str()), ("source", self.source.as_str()), ("reference", self.reference.as_str()), ("first_name", self.first_name.as_str()), ("last_name", self.last_name.as_str()), ("status", self.status.as_str()), ("incoming_currency", self.incoming_currency.as_str()), ("outgoing_currency", self.outgoing_currency.as_str()), ("value", self.value.as_str()), ("fee", self.fee.as_str())];
        assert(field_texts(fields@) =~= seq![("external_reference"@, self.external_reference@), ("source"@, self.source@), ("reference"@, self.reference@), ("first_name"@, self.first_name@), ("last_name"@, self.last_name@), ("status"@, self.status@), ("incoming_currency"@, self.incoming_currency@), ("outgoing_currency"@, self.outgoing_currency@), ("value"@, self.value@), ("fee"@, self.fee@)]);
        let r = validate_required_fields(&fields, "TransactionPayload");
        r
    }
}

/// Payload for a banking gateway payment request instruction.
#[derive(Debug, Clone, PartialEq)]
pub struct BankPaymentRequestPayload {
    pub reference: String,
    pub value: String,
    pub currency: String,
    pub profile_id: String,
    pub message: Option<String>,
}

impl BankPaymentRequestPayload {
    /// The names of the required fields that are blank, in checking order.
    pub open spec fn spec_missing(&self) -> Seq<Seq<char>> {
        blank_field_names(seq![("reference"@, self.reference@), ("value"@, self.value@), ("currency"@, self.currency@), ("profile_id"@, self.profile_id@)])
    }

    /// What validation reports: nothing when the payload is valid, else the
    /// fields of its error.
    pub open spec fn spec_check(&self) -> Option<Seq<Seq<char>>> {
        missing_as_check(self.spec_missing())
    }

    /// Builds the payload and validates it.
    pub fn new(reference: String, value: String, currency: String, profile_id: String, message: Option<String>) -> (r: Result<BankPaymentRequestPayload, ValidationError>)
        ensures
            built(r, (BankPaymentRequestPayload { reference, value, currency, profile_id, message }), "BankPaymentRequestPayload"@, (BankPaymentRequestPayload { reference, value, currency, profile_id, message }).spec_check()),
    {
        let payload = BankPaymentRequestPayload { reference, value, currency, profile_id, message };
        match payload.validate() {
            Ok(()) => Ok(payload),
            Err(e) => Err(e),
        }
    }

    /// Checks the payload's required fields.
    pub fn validate(&self) -> (r: Result<(), ValidationError>)
        ensures
            checked(r, "BankPaymentRequestPayload"@, self.spec_check()),
    {
        let fields = [("reference", self.reference.as_str()), ("value", self.value.as_str()), ("currency", self.currency.as_str()), ("profile_id", self.profile_id.as_str())];
        assert(field_texts(fields@) =~= seq![("reference"@, self.reference@), ("value"@, self.value@), ("currency"@, self.currency@), ("profile_id"@, self.profile_id@)]);
        let r = validate_required_fields(&fields, "BankPaymentRequestPayload");
        r
    }
}

/// Payload for a profile update instruction.
#[derive(Debug, Clone, PartialEq)]
pub struct UpdateProfilePayload {
    pub profile_id: String,
    pub address_line_1: Option<String>,
    pub address_line_2: Option<String>,
    pub bank_account_number: Option<String>,
    pub bank_number: Option<String>,
    pub tax_id: Option<String>,
    pub tax_id_name: Option<String>,
    pub id_country_code: Option<String>,
    pub suspended_at: Option<String>,
    pub deleted_at: Option<String>,
}

impl UpdateProfilePayload {
    /// Builds the payload; it has no required fields.
    pub fn new(profile_id: String, address_line_1: Option<String>, address_line_2: Option<String>, bank_account_number: Option<String>, bank_number: Option<String>, tax_id: Option<String>, tax_id_name: Option<String>, id_country_code: Option<String>, suspended_at: Option<String>, deleted_at: Option<String>) -> (r: UpdateProfilePayload)
        ensures
            r == (UpdateProfilePayload { profile_id, address_line_1, address_line_2, bank_account_number, bank_number, tax_id, tax_id_name, id_country_code, suspended_at, deleted_at }),
    {
        UpdateProfilePayload { profile_id, address_line_1, address_line_2, bank_account_number, bank_number, tax_id, tax_id_name, id_country_code, suspended_at, deleted_at }
    }
}

/// Payload for a mint instruction, which turns fiat into a crypto asset.
#[derive(Debug, Clone, PartialEq)]
pub struct MintPayload {
    pub value: String,
    pub currency: String,
    pub reference: String,
    pub chain: String,
    pub message: Option<String>,
}

impl MintPayload {
    /// The names of the required fields that are blank, in checking order.
    pub open spec fn spec_missing(&self) -> Seq<Seq<char>> {
        blank_field_names(seq![("value"@, self.value@), ("currency"@, self.currency@), ("reference"@, self.reference@), ("chain"@, self.chain@)])
    }

    /// What validation reports: nothing when the payload is valid, else the
    /// fields of its error.
    pub open spec fn spec_check(&self) -> Option<Seq<Seq<char>>> {
        missing_as_check(self.spec_missing())
    }

    /// Builds the payload and validates it.
    pub fn new(value: String, currency: String, reference: String, chain: String, message: Option<String>) -> (r: Result<MintPayload, ValidationError>)
        ensures
            built(r, (MintPayload { value, currency, reference, chain, message }), "MintPayload"@, (MintPayload { value, currency, reference, chain, message }).spec_check()),
    {
        let payload = MintPayload { value, currency, reference, chain, message };
        match payload.validate() {
            Ok(()) => Ok(payload),
            Err(e) => Err(e),
        }
    }

    /// Checks the payload's required fields.
    pub fn validate(&self) -> (r: Result<(), ValidationError>)
        ensures
            checked(r, "MintPayload"@, self.spec_check()),
    {
        let fields = [("value", self.value.as_str()), ("currency", self.currency.as_str()), ("reference", self.reference.as_str()), ("chain", self.chain.as_str())];
        assert(field_texts(fields@) =~= seq![("value"@, self.value@), ("currency"@, self.currency@), ("reference"@, self.reference@), ("chain"@, self.chain@)]);
        let r = validate_required_fields(&fields, "MintPayload");
        r
    }
}

/// Payload for a burn instruction, which turns a crypto asset into fiat.
#[derive(Debug, Clone, PartialEq)]
pub struct BurnPayload {
    pub value: String,
    pub currency: String,
    pub reference: String,
    pub chain: String,
    pub message: Option<String>,
}

impl BurnPayload {
    /// The names of the required fields that are blank, in checking order.
    pub open spec fn spec_missing(&self) -> Seq<Seq<char>> {
        blank_field_names(seq![("value"@, self.value@), ("currency"@, self.currency@), ("reference"@, self.reference@), ("chain"@, self.chain@)])
    }

    /// What validation reports: nothing when the payload is valid, else the
    /// fields of its error.
    pub open spec fn spec_check(&self) -> Option<Seq<Seq<char>>> {
        missing_as_check(self.spec_missing())
    }

    /// Builds the payload and validates it.
    pub fn new(value: String, currency: String, reference: String, chain: String, message: Option<String>) -> (r: Result<BurnPayload, ValidationError>)
        ensures
            built(r, (BurnPayload { value, currency, reference, chain, message }), "BurnPayload"@, (BurnPayload { value, currency, reference, chain, message }).spec_check()),
    {
        let payload = BurnPayload { value, currency, reference, chain, message };
        match payload.validate() {
            Ok(()) => Ok(payload),
            Err(e) => Err(e),
        }
    }

    /// Checks the payload's required fields.
    pub fn validate(&self) -> (r: Result<(), ValidationError>)
        ensures
            checked(r, "BurnPayload"@, self.spec_check()),
    {
        let fields = [("value", self.value.as_str()), ("currency", self.currency.as_str()), ("reference", self.reference.as_str()), ("chain", self.chain.as_str())];
        assert(field_texts(fields@) =~= seq![("value"@, self.value@), ("currency"@, self.currency@), ("reference"@, self.reference@), ("chain"@, self.chain@)]);
        let r = validate_required_fields(&fields, "BurnPayload");
        r
    }
}

} // verus!

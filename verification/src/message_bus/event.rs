//! Event payloads: what happened, mostly for notification purposes.

use vstd::prelude::*;
use vstd::string::*;
use crate::message_bus::base::{
    blank_field_names, built, checked, field_texts, missing_as_check, single_error,
    validate_required_fields, TransactionType, ValidationError,
};
use crate::text::{lowercase_text, str_equal, to_lowercase};

verus! {

/// Payload for a new transaction event, mainly for notification purposes.
#[derive(Debug, Clone, PartialEq)]
pub struct NewTransactionEventPayload {
    pub created_at: String,
    pub kind: TransactionType,
    pub reference: String,
    pub source: String,
}

impl NewTransactionEventPayload {
    /// The names of the required fields that are blank, in checking order.
    pub open spec fn spec_missing(&self) -> Seq<Seq<char>> {
        blank_field_names(seq![("created_at"@, self.created_at@), ("reference"@, self.reference@), ("source"@, self.source@)])
    }

    /// What validation reports: nothing when the payload is valid, else the
    /// fields of its error.
    pub open spec fn spec_check(&self) -> Option<Seq<Seq<char>>> {
        missing_as_check(self.spec_missing())
    }

    /// Builds the payload and validates it.
    pub fn new(created_at: String, kind: TransactionType, reference: String, source: String) -> (r: Result<NewTransactionEventPayload, ValidationError>)
        ensures
            built(r, (NewTransactionEventPayload { created_at, kind, reference, source }), "NewTransactionEventPayload"@, (NewTransactionEventPayload { created_at, kind, reference, source }).spec_check()),
    {
        let payload = NewTransactionEventPayload { created_at, kind, reference, source };
        match payload.validate() {
            Ok(()) => Ok(payload),
            Err(e) => Err(e),
        }
    }

    /// Checks the payload's required fields.
    pub fn validate(&self) -> (r: Result<(), ValidationError>)
        ensures
            checked(r, "NewTransactionEventPayload"@, self.spec_check()),
    {
        let fields = [("created_at", self.created_at.as_str()), ("reference", self.reference.as_str()), ("source", self.source.as_str())];
        assert(field_texts(fields@) =~= seq![("created_at"@, self.created_at@), ("reference"@, self.reference@), ("source"@, self.source@)]);
        let r = validate_required_fields(&fields, "NewTransactionEventPayload");
        r
    }
}

/// Payload for a transaction status update event, for notification purposes.
#[derive(Debug, Clone, PartialEq)]
pub struct TransactionStatusEventPayload {
    pub external_reference: Option<String>,
    pub reference: String,
    pub status: String,
}

impl TransactionStatusEventPayload {
    /// The names of the required fields that are blank, in checking order.
    pub open spec fn spec_missing(&self) -> Seq<Seq<char>> {
        blank_field_names(seq![("reference"@, self.reference@), ("status"@, self.status@)])
    }

    /// What validation reports: nothing when the payload is valid, else the
    /// fields of its error.
    pub open spec fn spec_check(&self) -> Option<Seq<Seq<char>>> {
        missing_as_check(self.spec_missing())
    }

    /// Builds the payload and validates it.
    pub fn new(reference: String, status: String, external_reference: Option<String>) -> (r: Result<TransactionStatusEventPayload, ValidationError>)
        ensures
            built(r, (TransactionStatusEventPayload { external_reference, reference, status }), "TransactionStatusEventPayload"@, (TransactionStatusEventPayload { external_reference, reference, status }).spec_check()),
    {
        let payload = TransactionStatusEventPayload { external_reference, reference, status };
        match payload.validate() {
            Ok(()) => Ok(payload),
            Err(e) => Err(e),
        }
    }

    /// Checks the payload's required fields.
    pub fn validate(&self) -> (r: Result<(), ValidationError>)
        ensures
            checked(r, "TransactionStatusEventPayload"@, self.spec_check()),
    {
        let fields = [("reference", self.reference.as_str()), ("status", self.status.as_str())];
        assert(field_texts(fields@) =~= seq![("reference"@, self.reference@), ("status"@, self.status@)]);
        let r = validate_required_fields(&fields, "TransactionStatusEventPayload");
        r
    }
}

/// Payload telling the business server of a bank payment, so that it can create the matching chain payment.
#[derive(Debug, Clone, PartialEq)]
pub struct BankPaymentEventPayload {
    pub transaction_id: String,
    pub status: String,
    pub reference: String,
    pub message: Option<String>,
}

impl BankPaymentEventPayload {
    /// The names of the required fields that are blank, in checking order.
    pub open spec fn spec_missing(&self) -> Seq<Seq<char>> {
        blank_field_names(seq![("transaction_id"@, self.transaction_id@), ("status"@, self.status@), ("reference"@, self.reference@)])
    }

    /// What validation reports: nothing when the payload is valid, else the
    /// fields of its error.
    pub open spec fn spec_check(&self) -> Option<Seq<Seq<char>>> {
        missing_as_check(self.spec_missing())
    }

    /// Builds the payload and validates it.
    pub fn new(transaction_id: String, status: String, reference: String, message: Option<String>) -> (r: Result<BankPaymentEventPayload, ValidationError>)
        ensures
            built(r, (BankPaymentEventPayload { transaction_id, status, reference, message }), "BankPaymentEventPayload"@, (BankPaymentEventPayload { transaction_id, status, reference, message }).spec_check()),
    {
        let payload = BankPaymentEventPayload { transaction_id, status, reference, message };
        match payload.validate() {
            Ok(()) => Ok(payload),
            Err(e) => Err(e),
        }
    }

    /// Checks the payload's required fields.
    pub fn validate(&self) -> (r: Result<(), ValidationError>)
        ensures
            checked(r, "BankPaymentEventPayload"@, self.spec_check()),
    {
        let fields = [("transaction_id", self.transaction_id.as_str()), ("status", self.status.as_str()), ("reference", self.reference.as_str())];
        assert(field_texts(fields@) =~= seq![("transaction_id"@, self.transaction_id@), ("status"@, self.status@), ("reference"@, self.reference@)]);
        let r = validate_required_fields(&fields, "BankPaymentEventPayload");
        r
    }
}

/// Payload for a payment event.
#[derive(Debug, Clone, PartialEq)]
pub struct PaymentEventPayload {
    pub external_reference: String,
    pub reference: Option<String>,
    pub source: String,
}

impl PaymentEventPayload {
    /// The names of the required fields that are blank, in checking order.
    pub open spec fn spec_missing(&self) -> Seq<Seq<char>> {
        blank_field_names(seq![("external_reference"@, self.external_reference@), ("source"@, self.source@)])
    }

    /// What validation reports: nothing when the payload is valid, else the
    /// fields of its error.
    pub open spec fn spec_check(&self) -> Option<Seq<Seq<char>>> {
        missing_as_check(self.spec_missing())
    }

    /// Builds the payload and validates it.
    pub fn new(external_reference: String, source: String, reference: Option<String>) -> (r: Result<PaymentEventPayload, ValidationError>)
        ensures
            built(r, (PaymentEventPayload { external_reference, reference, source }), "PaymentEventPayload"@, (PaymentEventPayload { external_reference, reference, source }).spec_check()),
    {
        let payload = PaymentEventPayload { external_reference, reference, source };
        match payload.validate() {
            Ok(()) => Ok(payload),
            Err(e) => Err(e),
        }
    }

    /// Checks the payload's required fields.
    pub fn validate(&self) -> (r: Result<(), ValidationError>)
        ensures
            checked(r, "PaymentEventPayload"@, self.spec_check()),
    {
        let fields = [("external_reference", self.external_reference.as_str()), ("source", self.source.as_str())];
        assert(field_texts(fields@) =~= seq![("external_reference"@, self.external_reference@), ("source"@, self.source@)]);
        let r = validate_required_fields(&fields, "PaymentEventPayload");
        r
    }
}

/// Payload for a new profile event.
#[derive(Debug, Clone, PartialEq)]
pub struct ProfileEventPayload {
    pub title: String,
    pub identifier: String,
}

impl ProfileEventPayload {
    /// The names of the required fields that are blank, in checking order.
    pub open spec fn spec_missing(&self) -> Seq<Seq<char>> {
        blank_field_names(seq![("title"@, self.title@), ("identifier"@, self.identifier@)])
    }

    /// What validation reports: nothing when the payload is valid, else the
    /// fields of its error.
    pub open spec fn spec_check(&self) -> Option<Seq<Seq<char>>> {
        missing_as_check(self.spec_missing())
    }

    /// Builds the payload and validates it.
    pub fn new(title: String, identifier: String) -> (r: Result<ProfileEventPayload, ValidationError>)
        ensures
            built(r, (ProfileEventPayload { title, identifier }), "ProfileEventPayload"@, (ProfileEventPayload { title, identifier }).spec_check()),
    {
        let payload = ProfileEventPayload { title, identifier };
        match payload.validate() {
            Ok(()) => Ok(payload),
            Err(e) => Err(e),
        }
    }

    /// Checks the payload's required fields.
    pub fn validate(&self) -> (r: Result<(), ValidationError>)
        ensures
            checked(r, "ProfileEventPayload"@, self.spec_check()),
    {
        let fields = [("title", self.title.as_str()), ("identifier", self.identifier.as_str())];
        assert(field_texts(fields@) =~= seq![("title"@, self.title@), ("identifier"@, self.identifier@)]);
        let r = validate_required_fields(&fields, "ProfileEventPayload");
        r
    }
}

/// Payload for a new user event.
#[derive(Debug, Clone, PartialEq)]
pub struct NewUserEventPayload {
    pub title: String,
    pub identifier: String,
}

impl NewUserEventPayload {
    /// The names of the required fields that are blank, in checking order.
    pub open spec fn spec_missing(&self) -> Seq<Seq<char>> {
        blank_field_names(seq![("title"@, self.title@), ("identifier"@, self.identifier@)])
    }

    /// What validation reports: nothing when the payload is valid, else the
    /// fields of its error.
    pub open spec fn spec_check(&self) -> Option<Seq<Seq<char>>> {
        missing_as_check(self.spec_missing())
    }

    /// Builds the payload and validates it.
    pub fn new(title: String, identifier: String) -> (r: Result<NewUserEventPayload, ValidationError>)
        ensures
            built(r, (NewUserEventPayload { title, identifier }), "NewUserEventPayload"@, (NewUserEventPayload { title, identifier }).spec_check()),
    {
        let payload = NewUserEventPayload { title, identifier };
        match payload.validate() {
            Ok(()) => Ok(payload),
            Err(e) => Err(e),
        }
    }

    /// Checks the payload's required fields.
    pub fn validate(&self) -> (r: Result<(), ValidationError>)
        ensures
            checked(r, "NewUserEventPayload"@, self.spec_check()),
    {
        let fields = [("title", self.title.as_str()), ("identifier", self.identifier.as_str())];
        assert(field_texts(fields@) =~= seq![("title"@, self.title@), ("identifier"@, self.identifier@)]);
        let r = validate_required_fields(&fields, "NewUserEventPayload");
        r
    }
}

/// Payload for a KYC event.
#[derive(Debug, Clone, PartialEq)]
pub struct KycEventPayload {
    pub title: String,
    pub identifier: String,
    pub review_status: Option<String>,
    pub review_result: Option<String>,
}

impl KycEventPayload {
    /// The names of the required fields that are blank, in checking order.
    pub open spec fn spec_missing(&self) -> Seq<Seq<char>> {
        blank_field_names(seq![("title"@, self.title@), ("identifier"@, self.identifier@)])
    }

    /// What validation reports: nothing when the payload is valid, else the
    /// fields of its error.
    pub open spec fn spec_check(&self) -> Option<Seq<Seq<char>>> {
        if self.spec_missing().len() > 0 {
            Some(self.spec_missing())
        } else if self.review_status matches Some(s) && lowercase_text(s@) == "completed"@
            && self.review_result is None {
            Some(seq!["review_result must be provided if review_status is completed"@])
        } else {
            None
        }
    }

    /// Builds the payload and validates it.
    pub fn new(title: String, identifier: String, review_status: Option<String>, review_result: Option<String>) -> (r: Result<KycEventPayload, ValidationError>)
        ensures
            built(r, (KycEventPayload { title, identifier, review_status, review_result }), "KycEventPayload"@, (KycEventPayload { title, identifier, review_status, review_result }).spec_check()),
    {
        let payload = KycEventPayload { title, identifier, review_status, review_result };
        match payload.validate() {
            Ok(()) => Ok(payload),
            Err(e) => Err(e),
        }
    }

    /// Checks the payload's required fields.
    pub fn validate(&self) -> (r: Result<(), ValidationError>)
        ensures
            checked(r, "KycEventPayload"@, self.spec_check()),
    {
        let fields = [("title", self.title.as_str()), ("identifier", self.identifier.as_str())];
        assert(field_texts(fields@) =~= seq![("title"@, self.title@), ("identifier"@, self.identifier@)]);
        let r = validate_required_fields(&fields, "KycEventPayload");
        if r.is_err() {
            return r;
        }
        if let Some(status) = &self.review_status {
            let lowered = to_lowercase(status.as_str());
            if str_equal(lowered.as_str(), "completed") && self.review_result.is_none() {
                return Err(single_error("KycEventPayload", "review_result must be provided if review_status is completed"));
            }
        }
        Ok(())
    }
}

/// Payload for a password reset event.
#[derive(Debug, Clone, PartialEq)]
pub struct PasswordResetEventPayload {
    pub to: String,
    pub subject: String,
}

impl PasswordResetEventPayload {
    /// The names of the required fields that are blank, in checking order.
    pub open spec fn spec_missing(&self) -> Seq<Seq<char>> {
        blank_field_names(seq![("to"@, self.to@), ("subject"@, self.subject@)])
    }

    /// What validation reports: nothing when the payload is valid, else the
    /// fields of its error.
    pub open spec fn spec_check(&self) -> Option<Seq<Seq<char>>> {
        missing_as_check(self.spec_missing())
    }

    /// Builds the payload and validates it.
    pub fn new(to: String, subject: String) -> (r: Result<PasswordResetEventPayload, ValidationError>)
        ensures
            built(r, (PasswordResetEventPayload { to, subject }), "PasswordResetEventPayload"@, (PasswordResetEventPayload { to, subject }).spec_check()),
    {
        let payload = PasswordResetEventPayload { to, subject };
        match payload.validate() {
            Ok(()) => Ok(payload),
            Err(e) => Err(e),
        }
    }

    /// Checks the payload's required fields.
    pub fn validate(&self) -> (r: Result<(), ValidationError>)
        ensures
            checked(r, "PasswordResetEventPayload"@, self.spec_check()),
    {
        let fields = [("to", self.to.as_str()), ("subject", self.subject.as_str())];
        assert(field_texts(fields@) =~= seq![("to"@, self.to@), ("subject"@, self.subject@)]);
        let r = validate_required_fields(&fields, "PasswordResetEventPayload");
        r
    }
}

/// Payload for a verification requested event.
#[derive(Debug, Clone, PartialEq)]
pub struct VerificationRequestedEventPayload {
    pub to: String,
    pub subject: String,
}

impl VerificationRequestedEventPayload {
    /// The names of the required fields that are blank, in checking order.
    pub open spec fn spec_missing(&self) -> Seq<Seq<char>> {
        blank_field_names(seq![("to"@, self.to@), ("subject"@, self.subject@)])
    }

    /// What validation reports: nothing when the payload is valid, else the
    /// fields of its error.
    pub open spec fn spec_check(&self) -> Option<Seq<Seq<char>>> {
        missing_as_check(self.spec_missing())
    }

    /// Builds the payload and validates it.
    pub fn new(to: String, subject: String) -> (r: Result<VerificationRequestedEventPayload, ValidationError>)
        ensures
            built(r, (VerificationRequestedEventPayload { to, subject }), "VerificationRequestedEventPayload"@, (VerificationRequestedEventPayload { to, subject }).spec_check()),
    {
        let payload = VerificationRequestedEventPayload { to, subject };
        match payload.validate() {
            Ok(()) => Ok(payload),
            Err(e) => Err(e),
        }
    }

    /// Checks the payload's required fields.
    pub fn validate(&self) -> (r: Result<(), ValidationError>)
        ensures
            checked(r, "VerificationRequestedEventPayload"@, self.spec_check()),
    {
        let fields = [("to", self.to.as_str()), ("subject", self.subject.as_str())];
        assert(field_texts(fields@) =~= seq![("to"@, self.to@), ("subject"@, self.subject@)]);
        let r = validate_required_fields(&fields, "VerificationRequestedEventPayload");
        r
    }
}

} // verus!

//! Message-bus messages: metadata, payloads, and the checks that tie a
//! payload to the instruction type or event that the metadata names.

use vstd::prelude::*;
use vstd::string::*;
use crate::ids::{is_hyphenated_v4_uuid, new_uuid_text, now_rfc3339};
use crate::message_bus::base::{
    blank_field_names, built, checked, field_texts, lemma_blank_field_names, single_error,
    validate_required_fields, EventType, InstructionType, ValidationError,
};
use crate::message_bus::event::{
    BankPaymentEventPayload, KycEventPayload, NewTransactionEventPayload, NewUserEventPayload,
    PasswordResetEventPayload, PaymentEventPayload, ProfileEventPayload,
    TransactionStatusEventPayload, VerificationRequestedEventPayload,
};
use crate::message_bus::instruction::{
    BankPaymentRequestPayload, BurnPayload, ChainPaymentPayload, CorrectionPayload, MintPayload,
    PaymentPayload, StatusUpdatePayload, TransactionPayload, UpdateProfilePayload,
};
use crate::text::is_blank;

verus! {

/// Metadata of a message-bus message.
#[derive(Debug, Clone, PartialEq)]
pub struct MetaData {
    pub source: String,
    pub created_at: String,
    pub token: String,
    pub idempotency_key: String,
    pub instruction_type: Option<InstructionType>,
    pub event: Option<EventType>,
    pub ip_address: Option<String>,
}

/// Message of the metadata error when neither kind is named.
pub open spec fn neither_kind_message() -> Seq<char> {
    "either instruction_type or event must be provided"@
}

/// Message of the metadata error when both kinds are named.
pub open spec fn both_kinds_message() -> Seq<char> {
    "cannot specify both instruction_type and event"@
}

impl MetaData {
    /// The required base fields that are blank, in checking order.
    pub open spec fn spec_missing(&self) -> Seq<Seq<char>> {
        blank_field_names(
            seq![
                ("source"@, self.source@),
                ("created_at"@, self.created_at@),
                ("token"@, self.token@),
                ("idempotency_key"@, self.idempotency_key@),
            ],
        )
    }

    /// What validation reports: nothing for valid metadata, else the fields of
    /// its error. Blank fields come first; then exactly one of the instruction
    /// type and the event must be named.
    pub open spec fn spec_check(&self) -> Option<Seq<Seq<char>>> {
        if self.spec_missing().len() > 0 {
            Some(self.spec_missing())
        } else if self.instruction_type is None && self.event is None {
            Some(seq![neither_kind_message()])
        } else if self.instruction_type is Some && self.event is Some {
            Some(seq![both_kinds_message()])
        } else {
            None
        }
    }

    /// Builds metadata and validates it.
    pub fn new(
        source: String,
        created_at: String,
        token: String,
        idempotency_key: String,
        instruction_type: Option<InstructionType>,
        event: Option<EventType>,
        ip_address: Option<String>,
    ) -> (r: Result<MetaData, ValidationError>)
        ensures
            built(
                r,
                (MetaData {
                    source,
                    created_at,
                    token,
                    idempotency_key,
                    instruction_type,
                    event,
                    ip_address,
                }),
                "MetaData"@,
                (MetaData {
                    source,
                    created_at,
                    token,
                    idempotency_key,
                    instruction_type,
                    event,
                    ip_address,
                }).spec_check(),
            ),
    {
        let metadata = MetaData {
            source,
            created_at,
            token,
            idempotency_key,
            instruction_type,
            event,
            ip_address,
        };
        match metadata.validate() {
            Ok(()) => Ok(metadata),
            Err(e) => Err(e),
        }
    }

    /// Checks the required fields and that exactly one kind is named.
    pub fn validate(&self) -> (r: Result<(), ValidationError>)
        ensures
            checked(r, "MetaData"@, self.spec_check()),
    {
        let fields = [
            ("source", self.source.as_str()),
            ("created_at", self.created_at.as_str()),
            ("token", self.token.as_str()),
            ("idempotency_key", self.idempotency_key.as_str()),
        ];
        assert(field_texts(fields@) =~= seq![
            ("source"@, self.source@),
            ("created_at"@, self.created_at@),
            ("token"@, self.token@),
            ("idempotency_key"@, self.idempotency_key@),
        ]);
        validate_required_fields(&fields, "MetaData")?;
        if self.instruction_type.is_none() && self.event.is_none() {
            return Err(single_error("MetaData", "either instruction_type or event must be provided"));
        }
        if self.instruction_type.is_some() && self.event.is_some() {
            return Err(single_error("MetaData", "cannot specify both instruction_type and event"));
        }
        Ok(())
    }

    /// The payload kind that the metadata calls for when a payload is read:
    /// the instruction type's kind, or the event's when it has one. Nothing
    /// means that any payload shape is accepted.
    pub open spec fn spec_expected_kind(&self) -> Option<PayloadKind> {
        match self.instruction_type {
            Some(it) => Some(instruction_kind(it)),
            None => match self.event {
                Some(e) => event_kind(e),
                None => None,
            },
        }
    }

    /// The payload kind to read a payload as, when the payload is not a plain
    /// string (which is always read as a raw payload).
    pub fn expected_kind(&self) -> (r: Option<PayloadKind>)
        ensures
            r == self.spec_expected_kind(),
    {
        match self.instruction_type {
            Some(it) => Some(kind_for_instruction(it)),
            None => match self.event {
                Some(e) => kind_for_event(e),
                None => None,
            },
        }
    }
}

/// Every payload a message can carry.
#[derive(Debug, Clone, PartialEq)]
pub enum Payload {
    Payment(PaymentPayload),
    StatusUpdate(StatusUpdatePayload),
    Correction(CorrectionPayload),
    Transaction(TransactionPayload),
    BankPaymentRequest(BankPaymentRequestPayload),
    ChainPayment(ChainPaymentPayload),
    UpdateProfile(UpdateProfilePayload),
    Mint(MintPayload),
    Burn(BurnPayload),
    NewTransaction(NewTransactionEventPayload),
    TransactionStatus(TransactionStatusEventPayload),
    PaymentEvent(PaymentEventPayload),
    BankPayment(BankPaymentEventPayload),
    Profile(ProfileEventPayload),
    NewUser(NewUserEventPayload),
    Kyc(KycEventPayload),
    PasswordReset(PasswordResetEventPayload),
    VerificationRequested(VerificationRequestedEventPayload),
    Raw(String),
}

/// The variant of a payload, without its contents.
#[derive(Debug, Clone, Copy, PartialEq, Eq, Structural)]
pub enum PayloadKind {
    Payment,
    StatusUpdate,
    Correction,
    Transaction,
    BankPaymentRequest,
    ChainPayment,
    UpdateProfile,
    Mint,
    Burn,
    NewTransaction,
    TransactionStatus,
    PaymentEvent,
    BankPayment,
    Profile,
    NewUser,
    Kyc,
    PasswordReset,
    VerificationRequested,
    Raw,
}

/// The payload kind that goes with an instruction type.
pub open spec fn instruction_kind(it: InstructionType) -> PayloadKind {
    match it {
        InstructionType::Payment => PayloadKind::Payment,
        InstructionType::StatusUpdate => PayloadKind::StatusUpdate,
        InstructionType::Correction => PayloadKind::Correction,
        InstructionType::Transaction => PayloadKind::Transaction,
        InstructionType::BankPaymentRequest => PayloadKind::BankPaymentRequest,
        InstructionType::ChainPayment => PayloadKind::ChainPayment,
        InstructionType::UpdateProfile => PayloadKind::UpdateProfile,
        InstructionType::Mint => PayloadKind::Mint,
        InstructionType::Burn => PayloadKind::Burn,
    }
}

/// The payload kind that goes with an event, for the events that have one.
pub open spec fn event_kind(e: EventType) -> Option<PayloadKind> {
    match e {
        EventType::NewTransaction => Some(PayloadKind::NewTransaction),
        EventType::TransactionStatusUpdate => Some(PayloadKind::TransactionStatus),
        EventType::Payment => Some(PayloadKind::PaymentEvent),
        EventType::BankPayment => Some(PayloadKind::BankPayment),
        EventType::NewProfile => Some(PayloadKind::Profile),
        EventType::NewUser => Some(PayloadKind::NewUser),
        EventType::KycEvent => Some(PayloadKind::Kyc),
        EventType::PasswordResetRequested => Some(PayloadKind::PasswordReset),
        EventType::VerificationRequested => Some(PayloadKind::VerificationRequested),
        _ => None,
    }
}

/// The payload kind that goes with an instruction type.
pub fn kind_for_instruction(it: InstructionType) -> (r: PayloadKind)
    ensures
        r == instruction_kind(it),
{
    match it {
        InstructionType::Payment => PayloadKind::Payment,
        InstructionType::StatusUpdate => PayloadKind::StatusUpdate,
        InstructionType::Correction => PayloadKind::Correction,
        InstructionType::Transaction => PayloadKind::Transaction,
        InstructionType::BankPaymentRequest => PayloadKind::BankPaymentRequest,
        InstructionType::ChainPayment => PayloadKind::ChainPayment,
        InstructionType::UpdateProfile => PayloadKind::UpdateProfile,
        InstructionType::Mint => PayloadKind::Mint,
        InstructionType::Burn => PayloadKind::Burn,
    }
}

/// The payload kind that goes with an event, for the events that have one.
pub fn kind_for_event(e: EventType) -> (r: Option<PayloadKind>)
    ensures
        r == event_kind(e),
{
    match e {
        EventType::NewTransaction => Some(PayloadKind::NewTransaction),
        EventType::TransactionStatusUpdate => Some(PayloadKind::TransactionStatus),
        EventType::Payment => Some(PayloadKind::PaymentEvent),
        EventType::BankPayment => Some(PayloadKind::BankPayment),
        EventType::NewProfile => Some(PayloadKind::Profile),
        EventType::NewUser => Some(PayloadKind::NewUser),
        EventType::KycEvent => Some(PayloadKind::Kyc),
        EventType::PasswordResetRequested => Some(PayloadKind::PasswordReset),
        EventType::VerificationRequested => Some(PayloadKind::VerificationRequested),
        _ => None,
    }
}

impl Payload {
    /// The variant of the payload.
    pub open spec fn spec_kind(&self) -> PayloadKind {
        match self {
            Payload::Payment(_) => PayloadKind::Payment,
            Payload::StatusUpdate(_) => PayloadKind::StatusUpdate,
            Payload::Correction(_) => PayloadKind::Correction,
            Payload::Transaction(_) => PayloadKind::Transaction,
            Payload::BankPaymentRequest(_) => PayloadKind::BankPaymentRequest,
            Payload::ChainPayment(_) => PayloadKind::ChainPayment,
            Payload::UpdateProfile(_) => PayloadKind::UpdateProfile,
            Payload::Mint(_) => PayloadKind::Mint,
            Payload::Burn(_) => PayloadKind::Burn,
            Payload::NewTransaction(_) => PayloadKind::NewTransaction,
            Payload::TransactionStatus(_) => PayloadKind::TransactionStatus,
            Payload::PaymentEvent(_) => PayloadKind::PaymentEvent,
            Payload::BankPayment(_) => PayloadKind::BankPayment,
            Payload::Profile(_) => PayloadKind::Profile,
            Payload::NewUser(_) => PayloadKind::NewUser,
            Payload::Kyc(_) => PayloadKind::Kyc,
            Payload::PasswordReset(_) => PayloadKind::PasswordReset,
            Payload::VerificationRequested(_) => PayloadKind::VerificationRequested,
            Payload::Raw(_) => PayloadKind::Raw,
        }
    }

    /// The variant of the payload.
    pub fn kind(&self) -> (r: PayloadKind)
        ensures
            r == self.spec_kind(),
    {
        match self {
            Payload::Payment(_) => PayloadKind::Payment,
            Payload::StatusUpdate(_) => PayloadKind::StatusUpdate,
            Payload::Correction(_) => PayloadKind::Correction,
            Payload::Transaction(_) => PayloadKind::Transaction,
            Payload::BankPaymentRequest(_) => PayloadKind::BankPaymentRequest,
            Payload::ChainPayment(_) => PayloadKind::ChainPayment,
            Payload::UpdateProfile(_) => PayloadKind::UpdateProfile,
            Payload::Mint(_) => PayloadKind::Mint,
            Payload::Burn(_) => PayloadKind::Burn,
            Payload::NewTransaction(_) => PayloadKind::NewTransaction,
            Payload::TransactionStatus(_) => PayloadKind::TransactionStatus,
            Payload::PaymentEvent(_) => PayloadKind::PaymentEvent,
            Payload::BankPayment(_) => PayloadKind::BankPayment,
            Payload::Profile(_) => PayloadKind::Profile,
            Payload::NewUser(_) => PayloadKind::NewUser,
            Payload::Kyc(_) => PayloadKind::Kyc,
            Payload::PasswordReset(_) => PayloadKind::PasswordReset,
            Payload::VerificationRequested(_) => PayloadKind::VerificationRequested,
            Payload::Raw(_) => PayloadKind::Raw,
        }
    }
}

/// A complete message-bus message.
#[derive(Debug, Clone, PartialEq)]
pub struct MessageBusMessage {
    pub meta_data: MetaData,
    pub payload: Payload,
}

/// The message of the mismatch error for a kind named `name`.
pub open spec fn mismatch_message(name: Seq<char>) -> Seq<char> {
    "message type "@ + name + ": "@ + name + " requires matching payload type"@
}

/// A validation error described as its class and its fields.
pub open spec fn failed_with(r: Result<(), ValidationError>, e: Option<(Seq<char>, Seq<Seq<char>>)>) -> bool {
    match e {
        None => r is Ok,
        Some((class, fields)) => r matches Err(x) && x.class_name@ == class && x.spec_fields() == fields,
    }
}

impl MessageBusMessage {
    /// What validation of a message reports: the metadata's error first; a
    /// raw payload then passes; otherwise the payload must be of the kind the
    /// instruction type or event calls for.
    pub open spec fn spec_error(&self) -> Option<(Seq<char>, Seq<Seq<char>>)> {
        match self.meta_data.spec_check() {
            Some(f) => Some(("MetaData"@, f)),
            None => if self.payload is Raw {
                None
            } else {
                match self.meta_data.instruction_type {
                    Some(it) => if self.payload.spec_kind() == instruction_kind(it) {
                        None
                    } else {
                        Some(("MessageBusMessage"@, seq![mismatch_message(it.spec_name())]))
                    },
                    None => match self.meta_data.event {
                        Some(e) => if event_kind(e) == Some(self.payload.spec_kind()) {
                            None
                        } else {
                            Some(("MessageBusMessage"@, seq![mismatch_message(e.spec_name())]))
                        },
                        None => Some(("MessageBusMessage"@, seq![neither_kind_message()])),
                    },
                }
            },
        }
    }

    /// Builds a message and validates it.
    pub fn new(meta_data: MetaData, payload: Payload) -> (r: Result<MessageBusMessage, ValidationError>)
        ensures
            match (MessageBusMessage { meta_data, payload }).spec_error() {
                None => r == Ok::<MessageBusMessage, ValidationError>(MessageBusMessage { meta_data, payload }),
                Some((class, fields)) => r matches Err(x) && x.class_name@ == class && x.spec_fields() == fields,
            },
    {
        let message = MessageBusMessage { meta_data, payload };
        match message.validate() {
            Ok(()) => Ok(message),
            Err(e) => Err(e),
        }
    }

    /// Checks the metadata and that the payload fits the named kind.
    pub fn validate(&self) -> (r: Result<(), ValidationError>)
        ensures
            failed_with(r, self.spec_error()),
    {
        self.meta_data.validate()?;
        if matches!(&self.payload, Payload::Raw(_)) {
            return Ok(());
        }
        let kind = self.payload.kind();
        match self.meta_data.instruction_type {
            Some(it) => {
                if kind == kind_for_instruction(it) {
                    Ok(())
                } else {
                    Err(mismatch_error(it.as_str()))
                }
            },
            None => match self.meta_data.event {
                Some(e) => {
                    if kind_for_event(e) == Some(kind) {
                        Ok(())
                    } else {
                        Err(mismatch_error(e.as_str()))
                    }
                },
                None => Err(
                    single_error("MessageBusMessage", "either instruction_type or event must be provided"),
                ),
            },
        }
    }

    /// Builds a message from its parts, with the idempotency key and the
    /// creation time given.
    pub fn create_at(
        source: String,
        payload: Payload,
        service_token: String,
        instruction_type: Option<InstructionType>,
        event: Option<EventType>,
        idempotency_key: String,
        created_at: String,
        ip_address: Option<String>,
    ) -> (r: Result<MessageBusMessage, ValidationError>)
        ensures
            created(
                r,
                MetaData {
                    source,
                    created_at,
                    token: service_token,
                    idempotency_key,
                    instruction_type,
                    event,
                    ip_address,
                },
                payload,
            ),
    {
        let meta_data = MetaData::new(
            source,
            created_at,
            service_token,
            idempotency_key,
            instruction_type,
            event,
            ip_address,
        )?;
        MessageBusMessage::new(meta_data, payload)
    }

    /// Builds a message stamped with the current time; without an idempotency
    /// key, a fresh UUID serves as one.
    pub fn create(
        source: String,
        payload: Payload,
        service_token: String,
        instruction_type: Option<InstructionType>,
        event: Option<EventType>,
        idempotency_key: Option<String>,
        ip_address: Option<String>,
    ) -> (r: Result<MessageBusMessage, ValidationError>)
        ensures
            exists|key: String, created_at: String|
                {
                    &&& (match idempotency_key {
                        Some(k) => key == k,
                        None => is_hyphenated_v4_uuid(key@),
                    })
                    &&& created_at@.len() > 0
                    &&& created_at@.last() == 'Z'
                    &&& #[trigger] created(
                        r,
                        MetaData {
                            source,
                            created_at,
                            token: service_token,
                            idempotency_key: key,
                            instruction_type,
                            event,
                            ip_address,
                        },
                        payload,
                    )
                },
    {
        let key = match idempotency_key {
            Some(k) => k,
            None => new_uuid_text(),
        };
        let created_at = now_rfc3339();
        let ghost k = key;
        let ghost c = created_at;
        let r = MessageBusMessage::create_at(
            source,
            payload,
            service_token,
            instruction_type,
            event,
            key,
            created_at,
            ip_address,
        );
        assert(created(
            r,
            MetaData {
                source,
                created_at: c,
                token: service_token,
                idempotency_key: k,
                instruction_type,
                event,
                ip_address,
            },
            payload,
        ));
        r
    }
}

/// The outcome of building a message from metadata and a payload: the
/// metadata's error, else the message's error, else the message.
pub open spec fn created(r: Result<MessageBusMessage, ValidationError>, meta: MetaData, payload: Payload) -> bool {
    match meta.spec_check() {
        Some(f) => r matches Err(x) && x.class_name@ == "MetaData"@ && x.spec_fields() == f,
        None => match (MessageBusMessage { meta_data: meta, payload }).spec_error() {
            None => r == Ok::<MessageBusMessage, ValidationError>(MessageBusMessage { meta_data: meta, payload }),
            Some((class, fields)) => r matches Err(x) && x.class_name@ == class && x.spec_fields() == fields,
        },
    }
}

/// The error for a payload that does not fit the kind named `name`.
fn mismatch_error(name: &str) -> (e: ValidationError)
    ensures
        e.class_name@ == "MessageBusMessage"@,
        e.spec_fields() == seq![mismatch_message(name@)],
{
    let mut m = String::new();
    m.append("message type ");
    m.append(name);
    m.append(": ");
    m.append(name);
    m.append(" requires matching payload type");
    single_error("MessageBusMessage", m.as_str())
}

/// With valid metadata, a structured payload passes validation exactly when
/// its kind is the one the metadata calls for, the kind a payload is read as
/// (`MetaData::expected_kind`); a raw payload always passes.
pub proof fn lemma_message_accepts_expected_kind(meta: MetaData, payload: Payload)
    requires
        meta.spec_check() is None,
    ensures
        payload is Raw ==> (MessageBusMessage { meta_data: meta, payload }).spec_error() is None,
        !(payload is Raw) ==> ((MessageBusMessage { meta_data: meta, payload }).spec_error() is None
            <==> meta.spec_expected_kind() == Some(payload.spec_kind())),
{
}

/// Under one metadata, at most one kind of structured payload is accepted.
pub proof fn lemma_message_kind_unique(meta: MetaData, p1: Payload, p2: Payload)
    requires
        !(p1 is Raw),
        !(p2 is Raw),
        (MessageBusMessage { meta_data: meta, payload: p1 }).spec_error() is None,
        (MessageBusMessage { meta_data: meta, payload: p2 }).spec_error() is None,
    ensures
        p1.spec_kind() == p2.spec_kind(),
{
}

/// Distinct events never call for the same payload kind, distinct
/// instruction types neither, and no event calls for a kind that an
/// instruction calls for.
pub proof fn lemma_event_kinds_distinct(a: EventType, b: EventType, it: InstructionType, jt: InstructionType)
    ensures
        event_kind(a) is Some && event_kind(a) == event_kind(b) ==> a == b,
        instruction_kind(it) == instruction_kind(jt) ==> it == jt,
        event_kind(a) != Some(instruction_kind(it)),
        instruction_kind(it) != PayloadKind::Raw,
        event_kind(a) != Some(PayloadKind::Raw),
{
}

/// Metadata is valid exactly when its source, creation time, token and
/// idempotency key are not blank and it names exactly one of an instruction
/// type and an event.
pub proof fn lemma_metadata_valid(meta: MetaData)
    ensures
        meta.spec_check() is None <==> {
            &&& !is_blank(meta.source@)
            &&& !is_blank(meta.created_at@)
            &&& !is_blank(meta.token@)
            &&& !is_blank(meta.idempotency_key@)
            &&& (meta.instruction_type is Some) != (meta.event is Some)
        },
{
    let fields = seq![
        ("source"@, meta.source@),
        ("created_at"@, meta.created_at@),
        ("token"@, meta.token@),
        ("idempotency_key"@, meta.idempotency_key@),
    ];
    lemma_blank_field_names(fields);
    assert(fields[0].1 == meta.source@);
    assert(fields[1].1 == meta.created_at@);
    assert(fields[2].1 == meta.token@);
    assert(fields[3].1 == meta.idempotency_key@);
}

/// A message with valid metadata naming an event, and a structured payload
/// of another kind than the event calls for, fails with the message
/// `message type {EVENT}: {EVENT} requires matching payload type`.
pub proof fn lemma_event_mismatch_error(meta: MetaData, payload: Payload, e: EventType)
    requires
        meta.spec_check() is None,
        meta.event == Some(e),
        !(payload is Raw),
        event_kind(e) != Some(payload.spec_kind()),
    ensures
        (MessageBusMessage { meta_data: meta, payload }).spec_error() == Some(
            (
                "MessageBusMessage"@,
                seq!["message type "@ + e.spec_name() + ": "@ + e.spec_name() + " requires matching payload type"@],
            ),
        ),
{
}

} // verus!

//! The enumerations that message-bus messages carry, their wire names, and
//! the check of required text fields.

use vstd::prelude::*;
use vstd::string::*;
use crate::text::{
    is_blank, join_texts, str_equal, str_is_blank, texts_of, to_uppercase, trim_quote_chars,
    trim_quotes, uppercase_text, join_strings,
};

verus! {

/// The kind of an instruction message.
#[derive(Debug, Clone, Copy, PartialEq, Eq, Hash, Structural)]
pub enum InstructionType {
    Payment,
    StatusUpdate,
    Correction,
    Transaction,
    BankPaymentRequest,
    ChainPayment,
    UpdateProfile,
    Mint,
    Burn,
}

impl InstructionType {
    /// The wire name of the instruction type.
    pub open spec fn spec_name(self) -> Seq<char> {
        match self {
            InstructionType::Payment => "PAYMENT"@,
            InstructionType::StatusUpdate => "STATUS_UPDATE"@,
            InstructionType::Correction => "CORRECTION"@,
            InstructionType::Transaction => "TRANSACTION"@,
            InstructionType::BankPaymentRequest => "BANK_PAYMENT_REQUEST"@,
            InstructionType::ChainPayment => "CHAIN_PAYMENT"@,
            InstructionType::UpdateProfile => "UPDATE_PROFILE"@,
            InstructionType::Mint => "MINT"@,
            InstructionType::Burn => "BURN"@,
        }
    }

    /// The wire name of the instruction type, which is also what it displays as.
    pub fn as_str(&self) -> (r: &'static str)
        ensures
            r@ == self.spec_name(),
    {
        match self {
            InstructionType::Payment => "PAYMENT",
            InstructionType::StatusUpdate => "STATUS_UPDATE",
            InstructionType::Correction => "CORRECTION",
            InstructionType::Transaction => "TRANSACTION",
            InstructionType::BankPaymentRequest => "BANK_PAYMENT_REQUEST",
            InstructionType::ChainPayment => "CHAIN_PAYMENT",
            InstructionType::UpdateProfile => "UPDATE_PROFILE",
            InstructionType::Mint => "MINT",
            InstructionType::Burn => "BURN",
        }
    }
}

/// The kind of a transaction.
#[derive(Debug, Clone, Copy, PartialEq, Eq, Hash, Structural)]
pub enum TransactionType {
    Deposit,
    Withdraw,
    Transfer,
}

impl TransactionType {
    /// The wire name of the transaction type.
    pub open spec fn spec_name(self) -> Seq<char> {
        match self {
            TransactionType::Deposit => "DEPOSIT"@,
            TransactionType::Withdraw => "WITHDRAW"@,
            TransactionType::Transfer => "TRANSFER"@,
        }
    }

    /// The wire name of the transaction type, which is also what it displays as.
    pub fn as_str(&self) -> (r: &'static str)
        ensures
            r@ == self.spec_name(),
    {
        match self {
            TransactionType::Deposit => "DEPOSIT",
            TransactionType::Withdraw => "WITHDRAW",
            TransactionType::Transfer => "TRANSFER",
        }
    }
}

/// The direction of a payment.
#[derive(Debug, Clone, Copy, PartialEq, Eq, Hash, Structural)]
pub enum PaymentDirection {
    Inbound,
    Outbound,
    Both,
}

impl PaymentDirection {
    /// The wire name of the payment direction.
    pub open spec fn spec_name(self) -> Seq<char> {
        match self {
            PaymentDirection::Inbound => "INBOUND"@,
            PaymentDirection::Outbound => "OUTBOUND"@,
            PaymentDirection::Both => "BOTH"@,
        }
    }

    /// The wire name of the payment direction, which is also what it displays as.
    pub fn as_str(&self) -> (r: &'static str)
        ensures
            r@ == self.spec_name(),
    {
        match self {
            PaymentDirection::Inbound => "INBOUND",
            PaymentDirection::Outbound => "OUTBOUND",
            PaymentDirection::Both => "BOTH",
        }
    }
}

/// The kind of an event message.
#[derive(Debug, Clone, Copy, PartialEq, Eq, Hash, PartialOrd, Ord, Structural)]
pub enum EventType {
    NewTransaction,
    TransactionStatusUpdate,
    Payment,
    BankPayment,
    NewProfile,
    NewUser,
    VerificationRequested,
    PasswordResetRequested,
    KycEvent,
    AddressOnboarded,
    RelayInitiated,
    RelayCompleted,
    RelayOnboarded,
    RelayStuckDepositing,
    RelayStuckBridging,
    RelayStuckForwarding,
    RelayFailed,
    CircleApi5xxBurst,
    WebhookReprocessorBacklog,
    MintCompleted,
    BurnCompleted,
    MintHeld,
    BurnHeld,
    MintHeldAlert,
    BurnHeldAlert,
    CustomerNotifyFailed,
    MintInfo,
    BurnInfo,
    TransactionFailedAlert,
    TransactionHeldAlert,
    DepositInitiated,
    DepositCompleted,
    DepositFailed,
    WithdrawInitiated,
    WithdrawCompleted,
    WithdrawFailed,
}

/// The number of event types.
pub open spec fn event_count() -> nat {
    36
}

impl EventType {
    /// The wire name of the event type.
    pub open spec fn spec_name(self) -> Seq<char> {
        match self {
            EventType::NewTransaction => "NEW_TRANSACTION"@,
            EventType::TransactionStatusUpdate => "TRANSACTION_STATUS_UPDATE"@,
            EventType::Payment => "PAYMENT"@,
            EventType::BankPayment => "BANK_PAYMENT"@,
            EventType::NewProfile => "NEW_PROFILE"@,
            EventType::NewUser => "NEW_USER"@,
            EventType::VerificationRequested => "VERIFICATION_REQUESTED"@,
            EventType::PasswordResetRequested => "PASSWORD_RESET_REQUESTED"@,
            EventType::KycEvent => "KYC_EVENT"@,
            EventType::AddressOnboarded => "ADDRESS_ONBOARDED"@,
            EventType::RelayInitiated => "RELAY_INITIATED"@,
            EventType::RelayCompleted => "RELAY_COMPLETED"@,
            EventType::RelayOnboarded => "RELAY_ONBOARDED"@,
            EventType::RelayStuckDepositing => "RELAY_STUCK_DEPOSITING"@,
            EventType::RelayStuckBridging => "RELAY_STUCK_BRIDGING"@,
            EventType::RelayStuckForwarding => "RELAY_STUCK_FORWARDING"@,
            EventType::RelayFailed => "RELAY_FAILED"@,
            EventType::CircleApi5xxBurst => "CIRCLE_API_5XX_BURST"@,
            EventType::WebhookReprocessorBacklog => "WEBHOOK_REPROCESSOR_BACKLOG"@,
            EventType::MintCompleted => "MINT_COMPLETED"@,
            EventType::BurnCompleted => "BURN_COMPLETED"@,
            EventType::MintHeld => "MINT_HELD"@,
            EventType::BurnHeld => "BURN_HELD"@,
            EventType::MintHeldAlert => "MINT_HELD_ALERT"@,
            EventType::BurnHeldAlert => "BURN_HELD_ALERT"@,
            EventType::CustomerNotifyFailed => "CUSTOMER_NOTIFY_FAILED"@,
            EventType::MintInfo => "MINT_INFO"@,
            EventType::BurnInfo => "BURN_INFO"@,
            EventType::TransactionFailedAlert => "TRANSACTION_FAILED_ALERT"@,
            EventType::TransactionHeldAlert => "TRANSACTION_HELD_ALERT"@,
            EventType::DepositInitiated => "DEPOSIT_INITIATED"@,
            EventType::DepositCompleted => "DEPOSIT_COMPLETED"@,
            EventType::DepositFailed => "DEPOSIT_FAILED"@,
            EventType::WithdrawInitiated => "WITHDRAW_INITIATED"@,
            EventType::WithdrawCompleted => "WITHDRAW_COMPLETED"@,
            EventType::WithdrawFailed => "WITHDRAW_FAILED"@,
        }
    }

    /// The position of the event type in declaration order, which is also
    /// the order in which event types sort.
    pub open spec fn spec_index(self) -> nat {
        match self {
            EventType::NewTransaction => 0,
            EventType::TransactionStatusUpdate => 1,
            EventType::Payment => 2,
            EventType::BankPayment => 3,
            EventType::NewProfile => 4,
            EventType::NewUser => 5,
            EventType::VerificationRequested => 6,
            EventType::PasswordResetRequested => 7,
            EventType::KycEvent => 8,
            EventType::AddressOnboarded => 9,
            EventType::RelayInitiated => 10,
            EventType::RelayCompleted => 11,
            EventType::RelayOnboarded => 12,
            EventType::RelayStuckDepositing => 13,
            EventType::RelayStuckBridging => 14,
            EventType::RelayStuckForwarding => 15,
            EventType::RelayFailed => 16,
            EventType::CircleApi5xxBurst => 17,
            EventType::WebhookReprocessorBacklog => 18,
            EventType::MintCompleted => 19,
            EventType::BurnCompleted => 20,
            EventType::MintHeld => 21,
            EventType::BurnHeld => 22,
            EventType::MintHeldAlert => 23,
            EventType::BurnHeldAlert => 24,
            EventType::CustomerNotifyFailed => 25,
            EventType::MintInfo => 26,
            EventType::BurnInfo => 27,
            EventType::TransactionFailedAlert => 28,
            EventType::TransactionHeldAlert => 29,
            EventType::DepositInitiated => 30,
            EventType::DepositCompleted => 31,
            EventType::DepositFailed => 32,
            EventType::WithdrawInitiated => 33,
            EventType::WithdrawCompleted => 34,
            EventType::WithdrawFailed => 35,
        }
    }

    /// The event type at a position in declaration order.
    pub open spec fn spec_at(i: int) -> EventType {
        if i == 0 { EventType::NewTransaction } else if i == 1 { EventType::TransactionStatusUpdate } else if i == 2 { EventType::Payment } else if i == 3 { EventType::BankPayment } else if i == 4 { EventType::NewProfile } else if i == 5 { EventType::NewUser } else if i == 6 { EventType::VerificationRequested } else if i == 7 { EventType::PasswordResetRequested } else if i == 8 { EventType::KycEvent } else if i == 9 { EventType::AddressOnboarded } else if i == 10 { EventType::RelayInitiated } else if i == 11 { EventType::RelayCompleted } else if i == 12 { EventType::RelayOnboarded } else if i == 13 { EventType::RelayStuckDepositing } else if i == 14 { EventType::RelayStuckBridging } else if i == 15 { EventType::RelayStuckForwarding } else if i == 16 { EventType::RelayFailed } else if i == 17 { EventType::CircleApi5xxBurst } else if i == 18 { EventType::WebhookReprocessorBacklog } else if i == 19 { EventType::MintCompleted } else if i == 20 { EventType::BurnCompleted } else if i == 21 { EventType::MintHeld } else if i == 22 { EventType::BurnHeld } else if i == 23 { EventType::MintHeldAlert } else if i == 24 { EventType::BurnHeldAlert } else if i == 25 { EventType::CustomerNotifyFailed } else if i == 26 { EventType::MintInfo } else if i == 27 { EventType::BurnInfo } else if i == 28 { EventType::TransactionFailedAlert } else if i == 29 { EventType::TransactionHeldAlert } else if i == 30 { EventType::DepositInitiated } else if i == 31 { EventType::DepositCompleted } else if i == 32 { EventType::DepositFailed } else if i == 33 { EventType::WithdrawInitiated } else if i == 34 { EventType::WithdrawCompleted } else { EventType::WithdrawFailed }
    }

    /// Every event type, in declaration order.
    pub open spec fn spec_all() -> Seq<EventType> {
        Seq::new(event_count(), |i: int| EventType::spec_at(i))
    }

    /// The wire name of the event type, which is also what it displays as.
    pub fn as_str(&self) -> (r: &'static str)
        ensures
            r@ == self.spec_name(),
    {
        match self {
            EventType::NewTransaction => "NEW_TRANSACTION",
            EventType::TransactionStatusUpdate => "TRANSACTION_STATUS_UPDATE",
            EventType::Payment => "PAYMENT",
            EventType::BankPayment => "BANK_PAYMENT",
            EventType::NewProfile => "NEW_PROFILE",
            EventType::NewUser => "NEW_USER",
            EventType::VerificationRequested => "VERIFICATION_REQUESTED",
            EventType::PasswordResetRequested => "PASSWORD_RESET_REQUESTED",
            EventType::KycEvent => "KYC_EVENT",
            EventType::AddressOnboarded => "ADDRESS_ONBOARDED",
            EventType::RelayInitiated => "RELAY_INITIATED",
            EventType::RelayCompleted => "RELAY_COMPLETED",
            EventType::RelayOnboarded => "RELAY_ONBOARDED",
            EventType::RelayStuckDepositing => "RELAY_STUCK_DEPOSITING",
            EventType::RelayStuckBridging => "RELAY_STUCK_BRIDGING",
            EventType::RelayStuckForwarding => "RELAY_STUCK_FORWARDING",
            EventType::RelayFailed => "RELAY_FAILED",
            EventType::CircleApi5xxBurst => "CIRCLE_API_5XX_BURST",
            EventType::WebhookReprocessorBacklog => "WEBHOOK_REPROCESSOR_BACKLOG",
            EventType::MintCompleted => "MINT_COMPLETED",
            EventType::BurnCompleted => "BURN_COMPLETED",
            EventType::MintHeld => "MINT_HELD",
            EventType::BurnHeld => "BURN_HELD",
            EventType::MintHeldAlert => "MINT_HELD_ALERT",
            EventType::BurnHeldAlert => "BURN_HELD_ALERT",
            EventType::CustomerNotifyFailed => "CUSTOMER_NOTIFY_FAILED",
            EventType::MintInfo => "MINT_INFO",
            EventType::BurnInfo => "BURN_INFO",
            EventType::TransactionFailedAlert => "TRANSACTION_FAILED_ALERT",
            EventType::TransactionHeldAlert => "TRANSACTION_HELD_ALERT",
            EventType::DepositInitiated => "DEPOSIT_INITIATED",
            EventType::DepositCompleted => "DEPOSIT_COMPLETED",
            EventType::DepositFailed => "DEPOSIT_FAILED",
            EventType::WithdrawInitiated => "WITHDRAW_INITIATED",
            EventType::WithdrawCompleted => "WITHDRAW_COMPLETED",
            EventType::WithdrawFailed => "WITHDRAW_FAILED",
        }
    }

    /// The position of the event type in declaration order.
    pub fn index(&self) -> (r: usize)
        ensures
            r == self.spec_index(),
    {
        match self {
            EventType::NewTransaction => 0,
            EventType::TransactionStatusUpdate => 1,
            EventType::Payment => 2,
            EventType::BankPayment => 3,
            EventType::NewProfile => 4,
            EventType::NewUser => 5,
            EventType::VerificationRequested => 6,
            EventType::PasswordResetRequested => 7,
            EventType::KycEvent => 8,
            EventType::AddressOnboarded => 9,
            EventType::RelayInitiated => 10,
            EventType::RelayCompleted => 11,
            EventType::RelayOnboarded => 12,
            EventType::RelayStuckDepositing => 13,
            EventType::RelayStuckBridging => 14,
            EventType::RelayStuckForwarding => 15,
            EventType::RelayFailed => 16,
            EventType::CircleApi5xxBurst => 17,
            EventType::WebhookReprocessorBacklog => 18,
            EventType::MintCompleted => 19,
            EventType::BurnCompleted => 20,
            EventType::MintHeld => 21,
            EventType::BurnHeld => 22,
            EventType::MintHeldAlert => 23,
            EventType::BurnHeldAlert => 24,
            EventType::CustomerNotifyFailed => 25,
            EventType::MintInfo => 26,
            EventType::BurnInfo => 27,
            EventType::TransactionFailedAlert => 28,
            EventType::TransactionHeldAlert => 29,
            EventType::DepositInitiated => 30,
            EventType::DepositCompleted => 31,
            EventType::DepositFailed => 32,
            EventType::WithdrawInitiated => 33,
            EventType::WithdrawCompleted => 34,
            EventType::WithdrawFailed => 35,
        }
    }

    /// Every event type, in declaration order.
    pub fn all() -> (r: Vec<EventType>)
        ensures
            r@ == EventType::spec_all(),
    {
        let mut r: Vec<EventType> = Vec::new();
        r.push(EventType::NewTransaction);
        r.push(EventType::TransactionStatusUpdate);
        r.push(EventType::Payment);
        r.push(EventType::BankPayment);
        r.push(EventType::NewProfile);
        r.push(EventType::NewUser);
        r.push(EventType::VerificationRequested);
        r.push(EventType::PasswordResetRequested);
        r.push(EventType::KycEvent);
        r.push(EventType::AddressOnboarded);
        r.push(EventType::RelayInitiated);
        r.push(EventType::RelayCompleted);
        r.push(EventType::RelayOnboarded);
        r.push(EventType::RelayStuckDepositing);
        r.push(EventType::RelayStuckBridging);
        r.push(EventType::RelayStuckForwarding);
        r.push(EventType::RelayFailed);
        r.push(EventType::CircleApi5xxBurst);
        r.push(EventType::WebhookReprocessorBacklog);
        r.push(EventType::MintCompleted);
        r.push(EventType::BurnCompleted);
        r.push(EventType::MintHeld);
        r.push(EventType::BurnHeld);
        r.push(EventType::MintHeldAlert);
        r.push(EventType::BurnHeldAlert);
        r.push(EventType::CustomerNotifyFailed);
        r.push(EventType::MintInfo);
        r.push(EventType::BurnInfo);
        r.push(EventType::TransactionFailedAlert);
        r.push(EventType::TransactionHeldAlert);
        r.push(EventType::DepositInitiated);
        r.push(EventType::DepositCompleted);
        r.push(EventType::DepositFailed);
        r.push(EventType::WithdrawInitiated);
        r.push(EventType::WithdrawCompleted);
        r.push(EventType::WithdrawFailed);
        assert(r@ =~= EventType::spec_all());
        r
    }
}


/// Positions and event types correspond one to one.
pub proof fn lemma_event_index(e: EventType)
    ensures
        e.spec_index() < event_count(),
        EventType::spec_at(e.spec_index() as int) == e,
        EventType::spec_all()[e.spec_index() as int] == e,
{
}

/// Each position below the count names an event type at that position.
pub proof fn lemma_event_at(i: int)
    requires
        0 <= i < event_count(),
    ensures
        EventType::spec_at(i).spec_index() == i,
{
}

/// A few facts that tell the wire names apart: length, first character and
/// fourth character from the end.
spec fn name_key(e: EventType) -> (nat, char, char) {
    match e {
        EventType::NewTransaction => (15, 'N', 'T'),
        EventType::TransactionStatusUpdate => (25, 'T', 'D'),
        EventType::Payment => (7, 'P', 'M'),
        EventType::BankPayment => (12, 'B', 'M'),
        EventType::NewProfile => (11, 'N', 'F'),
        EventType::NewUser => (8, 'N', 'U'),
        EventType::VerificationRequested => (22, 'V', 'S'),
        EventType::PasswordResetRequested => (24, 'P', 'S'),
        EventType::KycEvent => (9, 'K', 'V'),
        EventType::AddressOnboarded => (17, 'A', 'R'),
        EventType::RelayInitiated => (15, 'R', 'A'),
        EventType::RelayCompleted => (15, 'R', 'E'),
        EventType::RelayOnboarded => (15, 'R', 'R'),
        EventType::RelayStuckDepositing => (22, 'R', 'T'),
        EventType::RelayStuckBridging => (20, 'R', 'G'),
        EventType::RelayStuckForwarding => (22, 'R', 'D'),
        EventType::RelayFailed => (12, 'R', 'I'),
        EventType::CircleApi5xxBurst => (20, 'C', 'U'),
        EventType::WebhookReprocessorBacklog => (27, 'W', 'K'),
        EventType::MintCompleted => (14, 'M', 'E'),
        EventType::BurnCompleted => (14, 'B', 'E'),
        EventType::MintHeld => (9, 'M', 'H'),
        EventType::BurnHeld => (9, 'B', 'H'),
        EventType::MintHeldAlert => (15, 'M', 'L'),
        EventType::BurnHeldAlert => (15, 'B', 'L'),
        EventType::CustomerNotifyFailed => (22, 'C', 'I'),
        EventType::MintInfo => (9, 'M', 'I'),
        EventType::BurnInfo => (9, 'B', 'I'),
        EventType::TransactionFailedAlert => (24, 'T', 'L'),
        EventType::TransactionHeldAlert => (22, 'T', 'L'),
        EventType::DepositInitiated => (17, 'D', 'A'),
        EventType::DepositCompleted => (17, 'D', 'E'),
        EventType::DepositFailed => (14, 'D', 'I'),
        EventType::WithdrawInitiated => (18, 'W', 'A'),
        EventType::WithdrawCompleted => (18, 'W', 'E'),
        EventType::WithdrawFailed => (15, 'W', 'I'),
    }
}

proof fn lemma_name_key(e: EventType)
    ensures
        e.spec_name().len() >= 4,
        name_key(e) == (e.spec_name().len(), e.spec_name()[0], e.spec_name()[e.spec_name().len() - 4]),
{
    match e {
        EventType::NewTransaction => { reveal_strlit("NEW_TRANSACTION"); }
        EventType::TransactionStatusUpdate => { reveal_strlit("TRANSACTION_STATUS_UPDATE"); }
        EventType::Payment => { reveal_strlit("PAYMENT"); }
        EventType::BankPayment => { reveal_strlit("BANK_PAYMENT"); }
        EventType::NewProfile => { reveal_strlit("NEW_PROFILE"); }
        EventType::NewUser => { reveal_strlit("NEW_USER"); }
        EventType::VerificationRequested => { reveal_strlit("VERIFICATION_REQUESTED"); }
        EventType::PasswordResetRequested => { reveal_strlit("PASSWORD_RESET_REQUESTED"); }
        EventType::KycEvent => { reveal_strlit("KYC_EVENT"); }
        EventType::AddressOnboarded => { reveal_strlit("ADDRESS_ONBOARDED"); }
        EventType::RelayInitiated => { reveal_strlit("RELAY_INITIATED"); }
        EventType::RelayCompleted => { reveal_strlit("RELAY_COMPLETED"); }
        EventType::RelayOnboarded => { reveal_strlit("RELAY_ONBOARDED"); }
        EventType::RelayStuckDepositing => { reveal_strlit("RELAY_STUCK_DEPOSITING"); }
        EventType::RelayStuckBridging => { reveal_strlit("RELAY_STUCK_BRIDGING"); }
        EventType::RelayStuckForwarding => { reveal_strlit("RELAY_STUCK_FORWARDING"); }
        EventType::RelayFailed => { reveal_strlit("RELAY_FAILED"); }
        EventType::CircleApi5xxBurst => { reveal_strlit("CIRCLE_API_5XX_BURST"); }
        EventType::WebhookReprocessorBacklog => { reveal_strlit("WEBHOOK_REPROCESSOR_BACKLOG"); }
        EventType::MintCompleted => { reveal_strlit("MINT_COMPLETED"); }
        EventType::BurnCompleted => { reveal_strlit("BURN_COMPLETED"); }
        EventType::MintHeld => { reveal_strlit("MINT_HELD"); }
        EventType::BurnHeld => { reveal_strlit("BURN_HELD"); }
        EventType::MintHeldAlert => { reveal_strlit("MINT_HELD_ALERT"); }
        EventType::BurnHeldAlert => { reveal_strlit("BURN_HELD_ALERT"); }
        EventType::CustomerNotifyFailed => { reveal_strlit("CUSTOMER_NOTIFY_FAILED"); }
        EventType::MintInfo => { reveal_strlit("MINT_INFO"); }
        EventType::BurnInfo => { reveal_strlit("BURN_INFO"); }
        EventType::TransactionFailedAlert => { reveal_strlit("TRANSACTION_FAILED_ALERT"); }
        EventType::TransactionHeldAlert => { reveal_strlit("TRANSACTION_HELD_ALERT"); }
        EventType::DepositInitiated => { reveal_strlit("DEPOSIT_INITIATED"); }
        EventType::DepositCompleted => { reveal_strlit("DEPOSIT_COMPLETED"); }
        EventType::DepositFailed => { reveal_strlit("DEPOSIT_FAILED"); }
        EventType::WithdrawInitiated => { reveal_strlit("WITHDRAW_INITIATED"); }
        EventType::WithdrawCompleted => { reveal_strlit("WITHDRAW_COMPLETED"); }
        EventType::WithdrawFailed => { reveal_strlit("WITHDRAW_FAILED"); }
    }
}

/// No two event types share a wire name.
pub proof fn lemma_event_names_distinct(a: EventType, b: EventType)
    requires
        a.spec_name() == b.spec_name(),
    ensures
        a == b,
{
    lemma_name_key(a);
    lemma_name_key(b);
}

impl PaymentDirection {
    /// The direction whose wire name a normalised text is, if any.
    pub open spec fn spec_named(t: Seq<char>) -> Option<PaymentDirection> {
        if t == "INBOUND"@ {
            Some(PaymentDirection::Inbound)
        } else if t == "OUTBOUND"@ {
            Some(PaymentDirection::Outbound)
        } else if t == "BOTH"@ {
            Some(PaymentDirection::Both)
        } else {
            None
        }
    }

    /// Reads a direction from free text: surrounding `"` are dropped, the
    /// rest is upper-cased and must then be one of the wire names.
    pub fn from_text(value: &str) -> (r: Option<PaymentDirection>)
        ensures
            r == PaymentDirection::spec_named(uppercase_text(trim_quotes(value@))),
    {
        let trimmed = trim_quote_chars(value);
        let upper = to_uppercase(trimmed.as_str());
        PaymentDirection::from_wire_name(upper.as_str())
    }

    /// The direction whose wire name is exactly `name`, if any.
    pub fn from_wire_name(name: &str) -> (r: Option<PaymentDirection>)
        ensures
            r == PaymentDirection::spec_named(name@),
    {
        if str_equal(name, "INBOUND") {
            Some(PaymentDirection::Inbound)
        } else if str_equal(name, "OUTBOUND") {
            Some(PaymentDirection::Outbound)
        } else if str_equal(name, "BOTH") {
            Some(PaymentDirection::Both)
        } else {
            None
        }
    }

    /// The direction a message takes when none is given.
    pub fn default_direction() -> (r: PaymentDirection)
        ensures
            r == PaymentDirection::Inbound,
    {
        PaymentDirection::Inbound
    }
}

/// The event type whose wire name is `s`, if any.
pub open spec fn event_named(s: Seq<char>) -> Option<EventType> {
    if exists|e: EventType| e.spec_name() == s {
        Some(choose|e: EventType| e.spec_name() == s)
    } else {
        None
    }
}

/// An event type is the one its wire name names.
pub proof fn lemma_event_named(e: EventType)
    ensures
        event_named(e.spec_name()) == Some(e),
{
    let c = choose|x: EventType| x.spec_name() == e.spec_name();
    lemma_event_names_distinct(c, e);
}

impl EventType {
    /// The event type whose wire name is `s`; the text itself when there is none.
    pub fn try_from_name(s: &str) -> (r: Result<EventType, String>)
        ensures
            match r {
                Ok(e) => e.spec_name() == s@ && event_named(s@) == Some(e),
                Err(x) => x@ == s@ && event_named(s@) is None && forall|e: EventType|
                    e.spec_name() != s@,
            },
    {
        let all = EventType::all();
        let mut i: usize = 0;
        while i < all.len()
            invariant
                i <= all@.len(),
                all@ == EventType::spec_all(),
                forall|j: int| 0 <= j < i ==> (#[trigger] all@[j]).spec_name() != s@,
            decreases all@.len() - i,
        {
            if str_equal(all[i].as_str(), s) {
                proof {
                    lemma_event_named(all@[i as int]);
                }
                return Ok(all[i]);
            }
            i = i + 1;
        }
        assert forall|e: EventType| e.spec_name() != s@ by {
            lemma_event_index(e);
            assert(all@[e.spec_index() as int] == e);
        }
        Err(s.to_owned())
    }
}

/// Reading back the wire name of an event type gives that event type.
pub proof fn lemma_event_name_round_trip(e: EventType, r: Result<EventType, String>)
    requires
        match r {
            Ok(x) => x.spec_name() == e.spec_name(),
            Err(x) => x@ == e.spec_name() && forall|y: EventType| y.spec_name() != e.spec_name(),
        },
    ensures
        r == Ok::<EventType, String>(e),
{
    match r {
        Ok(x) => lemma_event_names_distinct(x, e),
        Err(_) => {
            assert(e.spec_name() == e.spec_name());
        },
    }
}

/// A message payload or metadata that lacks required fields.
#[derive(Debug, Clone)]
pub struct ValidationError {
    pub class_name: String,
    pub fields: Vec<String>,
}

impl ValidationError {
    /// The texts of the reported fields.
    pub open spec fn spec_fields(&self) -> Seq<Seq<char>> {
        texts_of(self.fields@)
    }

    /// What the error displays as: `{class} missing required fields: {a, b}`.
    pub open spec fn spec_message(&self) -> Seq<char> {
        self.class_name@ + " missing required fields: "@ + join_texts(self.spec_fields(), ", "@)
    }

    /// The error's display text.
    pub fn to_message(&self) -> (r: String)
        ensures
            r@ == self.spec_message(),
    {
        let mut r = self.class_name.clone();
        r.append(" missing required fields: ");
        let joined = join_strings(&self.fields, ", ");
        r.append(joined.as_str());
        r
    }
}

/// The names of the fields whose values are blank, in order.
pub open spec fn blank_field_names(fields: Seq<(Seq<char>, Seq<char>)>) -> Seq<Seq<char>>
    decreases fields.len(),
{
    if fields.len() == 0 {
        seq![]
    } else {
        let rest = blank_field_names(fields.drop_last());
        if is_blank(fields.last().1) {
            rest.push(fields.last().0)
        } else {
            rest
        }
    }
}

/// The texts of a list of name and value pairs.
pub open spec fn field_texts(fields: Seq<(&str, &str)>) -> Seq<(Seq<char>, Seq<char>)> {
    fields.map_values(|p: (&str, &str)| (p.0@, p.1@))
}

/// A check's outcome: success when nothing is missing, else the error of
/// `class` that lists `missing`.
pub open spec fn reports(
    r: Result<(), ValidationError>,
    class: Seq<char>,
    missing: Seq<Seq<char>>,
) -> bool {
    if missing.len() == 0 {
        r is Ok
    } else {
        r matches Err(e) && e.class_name@ == class && e.spec_fields() == missing
    }
}

/// Checks that required text fields are not empty or whitespace only.
pub fn validate_required_fields(fields: &[(&str, &str)], class_name: &str) -> (r: Result<
    (),
    ValidationError,
>)
    ensures
        reports(r, class_name@, blank_field_names(field_texts(fields@))),
{
    let mut missing: Vec<String> = Vec::new();
    let mut i: usize = 0;
    while i < fields.len()
        invariant
            i <= fields@.len(),
            texts_of(missing@) == blank_field_names(field_texts(fields@).take(i as int)),
        decreases fields@.len() - i,
    {
        let (name, value) = fields[i];
        if str_is_blank(value) {
            missing.push(name.to_owned());
        }
        i = i + 1;
        assert(field_texts(fields@).take(i as int).drop_last() =~= field_texts(fields@).take(
            i - 1,
        ));
        assert(texts_of(missing@) =~= blank_field_names(field_texts(fields@).take(i as int)));
    }
    assert(field_texts(fields@).take(i as int) =~= field_texts(fields@));
    if missing.len() != 0 {
        return Err(ValidationError { class_name: class_name.to_owned(), fields: missing });
    }
    Ok(())
}

/// A check's outcome when no missing fields means success.
pub open spec fn missing_as_check(missing: Seq<Seq<char>>) -> Option<Seq<Seq<char>>> {
    if missing.len() == 0 {
        None
    } else {
        Some(missing)
    }
}

/// A validation outcome agrees with a check: success when the check finds
/// nothing, else the error of `class` that lists what it found.
pub open spec fn checked(
    r: Result<(), ValidationError>,
    class: Seq<char>,
    check: Option<Seq<Seq<char>>>,
) -> bool {
    match check {
        None => r is Ok,
        Some(f) => r matches Err(e) && e.class_name@ == class && e.spec_fields() == f,
    }
}

/// A constructor's outcome agrees with a check of the value it builds: that
/// value when the check finds nothing, else the error of `class`.
pub open spec fn built<T>(
    r: Result<T, ValidationError>,
    value: T,
    class: Seq<char>,
    check: Option<Seq<Seq<char>>>,
) -> bool {
    match check {
        None => r == Ok::<T, ValidationError>(value),
        Some(f) => r matches Err(e) && e.class_name@ == class && e.spec_fields() == f,
    }
}

/// The error of `class` that carries one message.
pub fn single_error(class: &str, message: &str) -> (e: ValidationError)
    ensures
        e.class_name@ == class@,
        e.spec_fields() == seq![message@],
{
    let mut fields: Vec<String> = Vec::new();
    fields.push(message.to_owned());
    assert(texts_of(fields@) =~= seq![message@]);
    ValidationError { class_name: class.to_owned(), fields }
}

/// The reported fields are exactly the blank ones: none is reported when no
/// value is blank, and a field is reported when its value is blank; each
/// reported name is that of a field with a blank value.
pub proof fn lemma_blank_field_names(fields: Seq<(Seq<char>, Seq<char>)>)
    ensures
        blank_field_names(fields).len() == 0 <==> forall|i: int|
            0 <= i < fields.len() ==> !is_blank(#[trigger] fields[i].1),
        forall|k: int|
            #![trigger blank_field_names(fields)[k]]
            0 <= k < blank_field_names(fields).len() ==> exists|i: int|
                0 <= i < fields.len() && #[trigger] fields[i].0 == blank_field_names(fields)[k]
                    && is_blank(fields[i].1),
        forall|i: int|
            0 <= i < fields.len() && is_blank(#[trigger] fields[i].1) ==> blank_field_names(
                fields,
            ).contains(fields[i].0),
    decreases fields.len(),
{
    if fields.len() > 0 {
        let front = fields.drop_last();
        lemma_blank_field_names(front);
        let rest = blank_field_names(front);
        assert forall|i: int| 0 <= i < front.len() implies front[i] == fields[i] by {}
        assert forall|k: int|
            #![trigger blank_field_names(fields)[k]]
            0 <= k < blank_field_names(fields).len() implies exists|i: int|
            0 <= i < fields.len() && #[trigger] fields[i].0 == blank_field_names(fields)[k]
                && is_blank(fields[i].1) by {
            if k < rest.len() {
                let i = choose|i: int|
                    0 <= i < front.len() && #[trigger] front[i].0 == rest[k] && is_blank(front[i].1);
                assert(fields[i] == front[i]);
            } else {
                assert(fields[fields.len() - 1].0 == blank_field_names(fields)[k]);
            }
        }
        assert forall|i: int|
            0 <= i < fields.len() && is_blank(#[trigger] fields[i].1) implies blank_field_names(
                fields,
            ).contains(fields[i].0) by {
            if i < front.len() {
                assert(fields[i] == front[i]);
                let k = choose|k: int| 0 <= k < rest.len() && rest[k] == front[i].0;
                assert(blank_field_names(fields)[k] == rest[k]);
            } else {
                assert(blank_field_names(fields)[blank_field_names(fields).len() - 1] == fields[i].0);
            }
        }
        if blank_field_names(fields).len() == 0 {
            assert forall|i: int| 0 <= i < fields.len() implies !is_blank(#[trigger] fields[i].1) by {
                if is_blank(fields[i].1) {
                    assert(blank_field_names(fields).contains(fields[i].0));
                }
            }
        }
    }
}

} // verus!

//! Messages exchanged over the message bus: their enumerations, payloads,
//! metadata and envelope.

pub mod base;
pub mod event;
pub mod message;
pub mod notification;
pub mod sqs;
pub mod kafka;
pub mod instruction;

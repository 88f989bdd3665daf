//! Notification helpers: idempotency keys and the notification events.

pub mod events;
pub mod keys;

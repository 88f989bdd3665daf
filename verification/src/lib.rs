//! Message-bus models, notification contracts and service helpers for the
//! Mykobo platform, with their behaviour stated and proved in Verus.

pub mod text;
pub mod anchor;
pub mod circle;
pub mod ledger;
pub mod payment_intent;
pub mod sumsub;
pub mod wallets;
pub mod json;
pub mod ids;
pub mod identity;
pub mod business;
pub mod models;
pub mod util;
pub mod message_bus;
pub mod notification;
pub mod notification_contract;

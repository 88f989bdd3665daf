//! The producer-intended notification registry: its predicate language, its
//! model and checks, and its canonical projection.

pub mod predicates;
pub mod parser;
pub mod registry;
pub mod canonical;

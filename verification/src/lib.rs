//! Building blocks for refined types, values checked against a rule.
//!
//! `result` holds the error that a refusal hands back, carrying the refused
//! value and a message; `rule` holds the trait that a condition implements.

pub mod result;
pub mod rule;

//! Core of an expense and receipt tracking service: the decisions that its
//! HTTP handlers make about what to ask the database, what to store and what
//! to answer, each with a contract that Verus proves.

pub mod authorization;
pub mod entities;
pub mod query;
pub mod specific;
pub mod utils;
pub mod values;

//! Validation of newsletter subscribers: value types that can only be built
//! from text that meets their rules, and the steps that turn a submitted form
//! into a record ready to be stored.

pub mod domain;
pub mod routes;

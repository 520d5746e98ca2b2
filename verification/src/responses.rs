//! Validated domain values and the conversion layer that builds them
//! from wire records.
//!
//! Each conversion is a pure, total function `try_from(wire) ->
//! Result<Domain, UnexpectedResponse>`: it never panics, and its
//! contract states exactly on which wire records it succeeds and what
//! value it then returns.

pub mod channel;
pub mod chat;
pub mod message;
pub mod queries;
pub mod update;
pub mod user;

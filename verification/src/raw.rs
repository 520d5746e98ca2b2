//! Wire records mirroring the remote JSON schema.
//!
//! Every field is optional or loosely typed because the remote API
//! overlays many logical kinds onto one record shape; no invariant is
//! enforced at this layer. The conversion layer in `responses` turns
//! these records into validated domain values.

pub mod chat;
pub mod message;
pub mod order_info;
pub mod queries;
pub mod shipping_address;
pub mod update;
pub mod user;

use vstd::prelude::*;

verus! {

/// The outer envelope common to every response of the remote API:
/// `{ ok, result, description, error_code }`.
#[derive(Debug, Clone, PartialEq)]
pub struct TgResponse<T> {
    pub ok: bool,
    pub result: Option<T>,
    pub description: Option<String>,
    pub error_code: Option<i32>,
}

} // verus!

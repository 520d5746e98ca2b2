//! The wire record for a shipping address.

use vstd::prelude::*;

verus! {

#[derive(Debug, Clone, PartialEq)]
pub struct ShippingAddress {
    pub country_code: String,
    pub state: String,
    pub city: String,
    pub street_line1: String,
    pub street_line2: String,
    pub post_code: String,
}

} // verus!

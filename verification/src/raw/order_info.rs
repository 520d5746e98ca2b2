//! The wire record for order information attached to a payment.

use crate::raw::shipping_address::ShippingAddress;
use vstd::prelude::*;

verus! {

#[derive(Debug, Clone, PartialEq)]
pub struct OrderInfo {
    pub name: Option<String>,
    pub phone_number: Option<String>,
    pub email: Option<String>,
    pub shipping_address: Option<ShippingAddress>,
}

} // verus!

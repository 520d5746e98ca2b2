//! The who-am-I request: no payload at all.

use vstd::prelude::*;

verus! {

#[derive(Debug, Clone, PartialEq)]
pub struct GetMe;

impl GetMe {
    /// The remote method this request is posted to.
    pub fn method(&self) -> (r: &'static str)
        ensures
            r@ == "getMe"@,
    {
        "getMe"
    }
}

} // verus!

//! The first step of the two-step file download: ask for the file's
//! server-relative path by file id.

use vstd::prelude::*;

verus! {

#[derive(Debug, Clone, PartialEq)]
pub struct GetFileRequest {
    pub file_id: String,
}

impl GetFileRequest {
    /// The remote method this request is posted to.
    pub fn method(&self) -> (r: &'static str)
        ensures
            r@ == "getFile"@,
    {
        "getFile"
    }
}

} // verus!

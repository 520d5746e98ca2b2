//! The wire record for a user account.

use vstd::prelude::*;

verus! {

#[derive(Debug, Clone, PartialEq)]
pub struct User {
    pub id: i64,
    pub is_bot: bool,
    pub first_name: String,
    pub last_name: Option<String>,
    pub username: Option<String>,
    pub language_code: Option<String>,
}

} // verus!

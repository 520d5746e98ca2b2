//! The domain value for a user account. The wire record already
//! carries no overlaid kinds, so the mapping is field for field and
//! cannot fail.

use crate::raw;
use vstd::prelude::*;

verus! {

#[derive(Debug, Clone, PartialEq)]
pub struct User {
    pub id: i64,
    pub is_bot: bool,
    pub first_name: String,
    pub last_name: Option<String>,
    pub username: Option<String>,
    pub language_code: Option<String>,
}

/// The domain user a wire user stands for.
pub open spec fn user_value(u: raw::user::User) -> User {
    User {
        id: u.id,
        is_bot: u.is_bot,
        first_name: u.first_name,
        last_name: u.last_name,
        username: u.username,
        language_code: u.language_code,
    }
}

impl User {
    pub fn from_raw(u: raw::user::User) -> (r: User)
        ensures
            r == user_value(u),
    {
        User {
            id: u.id,
            is_bot: u.is_bot,
            first_name: u.first_name,
            last_name: u.last_name,
            username: u.username,
            language_code: u.language_code,
        }
    }

    /// Builds the domain user without consuming the wire record.
    pub fn from_raw_ref(u: &raw::user::User) -> (r: User)
        ensures
            r == user_value(*u),
    {
        User {
            id: u.id,
            is_bot: u.is_bot,
            first_name: u.first_name.clone(),
            last_name: clone_opt_string(&u.last_name),
            username: clone_opt_string(&u.username),
            language_code: clone_opt_string(&u.language_code),
        }
    }
}

/// Clones an optional string, value for value.
pub(crate) fn clone_opt_string(s: &Option<String>) -> (r: Option<String>)
    ensures
        r == *s,
{
    match s {
        Some(x) => Some(x.clone()),
        None => None,
    }
}

} // verus!

//! A chat addressed by numeric id or by public username.

use vstd::prelude::*;

verus! {

#[derive(Debug, Clone, PartialEq)]
pub enum ChatId {
    Id(i64),
    Username(String),
}

} // verus!

//! The chat-action notice (the "typing…" indicator).

use crate::requests::chat_id::ChatId;
use vstd::prelude::*;

verus! {

#[derive(Debug, Clone, PartialEq)]
pub struct SendChatAction {
    pub chat_id: ChatId,
    pub action: ChatAction,
}

#[derive(Debug, Clone, Copy, PartialEq, Eq)]
pub enum ChatAction {
    Typing,
}

impl SendChatAction {
    /// The remote method this request is posted to.
    pub fn method(&self) -> (r: &'static str)
        ensures
            r@ == "sendChatAction"@,
    {
        "sendChatAction"
    }
}

} // verus!

//! The forward-message request.

use crate::requests::chat_id::ChatId;
use vstd::prelude::*;

verus! {

#[derive(Debug, Clone, PartialEq)]
pub struct ForwardMessageRequest {
    pub chat_id: ChatId,
    pub from_chat_id: ChatId,
    pub disable_notification: bool,
    pub message_id: i64,
}

impl ForwardMessageRequest {
    /// The remote method this request is posted to.
    pub fn method(&self) -> (r: &'static str)
        ensures
            r@ == "forwardMessage"@,
    {
        "forwardMessage"
    }
}

} // verus!

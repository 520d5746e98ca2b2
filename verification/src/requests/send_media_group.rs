//! The album request: several photos or videos sent as one group.

use crate::requests::chat_id::ChatId;
use crate::requests::input_media::InputMediaPhoto;
use crate::requests::input_media::InputMediaVideo;
use vstd::prelude::*;

verus! {

#[derive(Debug, Clone, PartialEq)]
pub struct SendMediaGroupRequest {
    pub chat_id: ChatId,
    pub media: Vec<InputMediaGroup>,
    pub disable_notification: bool,
    pub reply_to_message_id: Option<i64>,
}

/// Only photos and videos may appear in an album.
#[derive(Debug, Clone, PartialEq)]
pub enum InputMediaGroup {
    Photo(InputMediaPhoto),
    Video(InputMediaVideo),
}

impl SendMediaGroupRequest {
    /// The remote method this request is posted to.
    pub fn method(&self) -> (r: &'static str)
        ensures
            r@ == "sendMediaGroup"@,
    {
        "sendMediaGroup"
    }
}

} // verus!

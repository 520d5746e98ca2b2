//! The wire record for a chat. One shape stands for private chats,
//! groups, supergroups and channels; the `typ` tag and field presence
//! decide which, and the conversion layer enforces it.

use crate::raw::message::Message;
use vstd::prelude::*;

verus! {

#[derive(Debug, PartialEq)]
pub struct Chat {
    pub id: i64,
    /// The wire `type` tag: `"private"`, `"group"`, `"supergroup"` or
    /// `"channel"`.
    pub typ: String,
    pub title: Option<String>,
    pub username: Option<String>,
    pub first_name: Option<String>,
    pub last_name: Option<String>,
    pub all_members_are_administrators: Option<bool>,
    pub photo: Option<ChatPhoto>,
    pub description: Option<String>,
    pub invite_link: Option<String>,
    pub pinned_message: Option<Box<Message>>,
    pub sticker_set_name: Option<String>,
    pub can_set_sticker_set: Option<bool>,
}

#[derive(Debug, Clone, PartialEq)]
pub struct ChatPhoto {
    pub small_file_id: String,
    pub big_file_id: String,
}

} // verus!

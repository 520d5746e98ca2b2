//! The wire record for one long-poll update.

use crate::raw::message::Message;
use crate::raw::queries::CallbackQuery;
use vstd::prelude::*;

verus! {

#[derive(Debug, PartialEq)]
pub struct Update {
    pub update_id: i64,
    pub message: Option<Message>,
    pub edited_message: Option<Message>,
    pub channel_post: Option<Message>,
    pub edited_channel_post: Option<Message>,
    pub callback_query: Option<CallbackQuery>,
}

} // verus!

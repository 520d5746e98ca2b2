//! Keyboard markup attached to an outbound message.

use vstd::prelude::*;

verus! {

#[derive(Debug, Clone, PartialEq)]
pub enum ReplyMarkup {
    InlineKeyboard(InlineKeyboard),
    ReplyKeyboardMarkup(ReplyKeyboardMarkup),
    ReplyKeyboardRemove(ReplyKeyboardRemove),
    ForceReply(ForceReply),
}

#[derive(Debug, Clone, PartialEq)]
pub struct InlineKeyboard {
    pub inline_keyboard: Vec<Vec<InlineKeyboardButton>>,
}

#[derive(Debug, Clone, PartialEq)]
pub struct ReplyKeyboardMarkup {
    pub keyboard: Vec<Vec<KeyboardButton>>,
    pub resize_keyboard: bool,
    pub one_time_keyboard: bool,
    pub selective: bool,
}

#[derive(Debug, Clone, PartialEq)]
pub struct ReplyKeyboardRemove {
    pub remove_keyboard: bool,
    pub selective: bool,
}

#[derive(Debug, Clone, PartialEq)]
pub struct ForceReply {
    pub force_reply: bool,
    pub selective: bool,
}

#[derive(Debug, Clone, PartialEq)]
pub struct InlineKeyboardButton {
    pub text: String,
    pub url: Option<String>,
    pub callback_data: Option<String>,
    pub switch_inline_query: Option<String>,
    pub switch_inline_query_current_chat: Option<String>,
    pub pay: bool,
}

#[derive(Debug, Clone, PartialEq)]
pub struct KeyboardButton {
    pub text: String,
    pub request_contact: bool,
    pub request_location: bool,
}

} // verus!

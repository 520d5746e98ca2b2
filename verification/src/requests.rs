//! Outbound request payloads: one plain record per remote method,
//! with a constructor that fills the optional knobs with their
//! documented defaults and a `method` function naming the remote
//! method the record is posted to. The transport serializes them
//! outside the library.
//!
//! This module also keeps the first, flat generation of the payload
//! shapes (`GetUpdates`, `SendMessage`); the submodules hold the
//! per-method ones.

pub mod answer_callback_query;
pub mod chat_action;
pub mod chat_id;
pub mod forward_message;
pub mod get_file;
pub mod get_me;
pub mod get_updates;
pub mod input_media;
pub mod reply_markup;
pub mod send;
pub mod send_media_group;
pub mod send_message;

use vstd::prelude::*;

verus! {

/// The flat-generation long-poll request.
#[derive(Debug, Clone, PartialEq)]
pub struct GetUpdates {
    pub offset: Option<i64>,
    pub limit: Option<u32>,
    pub timeout: Option<u32>,
    pub allowed_updates: Option<Vec<AllowedUpdate>>,
}

impl GetUpdates {
    /// A long-poll request with every knob left to the server's
    /// default.
    pub fn new() -> (r: GetUpdates)
        ensures
            r == (GetUpdates { offset: None, limit: None, timeout: None, allowed_updates: None }),
    {
        GetUpdates { offset: None, limit: None, timeout: None, allowed_updates: None }
    }
}

/// The flat-generation send-text request.
#[derive(Debug, Clone, PartialEq)]
pub struct SendMessage {
    pub chat_id: ChatId,
    pub text: String,
    pub parse_mode: Option<ParseMode>,
    pub disable_web_page_preview: Option<bool>,
    pub disable_notification: Option<bool>,
    pub reply_to_message_id: Option<i64>,
}

impl SendMessage {
    /// A text message to the given chat, with every option unset.
    pub fn new(chat_id: ChatId, text: String) -> (r: SendMessage)
        ensures
            r == (SendMessage {
                chat_id,
                text,
                parse_mode: None,
                disable_web_page_preview: None,
                disable_notification: None,
                reply_to_message_id: None,
            }),
    {
        SendMessage {
            chat_id,
            text,
            parse_mode: None,
            disable_web_page_preview: None,
            disable_notification: None,
            reply_to_message_id: None,
        }
    }
}

/// The update kinds a long poll can subscribe to.
#[derive(Debug, Clone, Copy, PartialEq, Eq)]
pub enum AllowedUpdate {
    Message,
    EditedMessage,
    ChannelPost,
    EditedChannelPost,
    InlineQuery,
    ChosenInlineResult,
    CallbackQuery,
    ShippingQuery,
    PreCheckoutQuery,
}

/// A chat addressed by numeric id or by public username.
#[derive(Debug, Clone, PartialEq)]
pub enum ChatId {
    Id(i64),
    Username(String),
}

#[derive(Debug, Clone, Copy, PartialEq, Eq)]
pub enum ParseMode {
    Html,
    Markdown,
}

} // verus!

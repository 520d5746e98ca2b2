//! An earlier generation of the unified send request, kept with its
//! two payload kinds; the payload variant decides the remote method
//! name.

use vstd::prelude::*;

verus! {

#[derive(Debug, Clone, PartialEq)]
pub struct SendMessageRequest {
    pub chat_id: ChatId,
    pub kind: SendMessageKind,
    pub disable_notification: Option<bool>,
    pub reply_to_message_id: Option<i64>,
    pub reply_markup: Option<ReplyMarkup>,
}

#[derive(Debug, Clone, PartialEq)]
pub enum SendMessageKind {
    Text {
        text: String,
        parse_mode: Option<ParseMode>,
        disable_web_page_preview: Option<bool>,
    },
    Audio {
        audio: File,
        caption: Option<String>,
        parse_mode: Option<ParseMode>,
        duration: Option<i32>,
        performer: Option<String>,
        title: Option<String>,
    },
}

/// A file attached by previously uploaded id or by public URL.
#[derive(Debug, Clone, PartialEq)]
pub enum File {
    FileId(String),
    Url(String),
}

/// A chat addressed by numeric id or by public username.
#[derive(Debug, Clone, PartialEq)]
pub enum ChatId {
    Id(i64),
    Username(String),
}

#[derive(Debug, Clone, Copy, PartialEq, Eq)]
pub enum ParseMode {
    Html,
    Markdown,
}

#[derive(Debug, Clone, PartialEq)]
pub enum ReplyMarkup {
    InlineKeyboard { inline_keyboard: Vec<Vec<InlineKeyboardButton>> },
    ReplyKeyboardMarkup {
        keyboard: Vec<Vec<KeyboardButton>>,
        resize_keyboard: bool,
        one_time_keyboard: bool,
        selective: bool,
    },
    ReplyKeyboardRemove { remove_keyboard: bool, selective: bool },
    ForceReply { force_reply: bool, selective: bool },
}

#[derive(Debug, Clone, PartialEq)]
pub struct InlineKeyboardButton {
    pub text: String,
    pub url: Option<String>,
    pub callback_data: Option<String>,
    pub switch_inline_query: Option<String>,
    pub switch_inline_query_current_chat: Option<String>,
    pub pay: bool,
}

#[derive(Debug, Clone, PartialEq)]
pub struct KeyboardButton {
    text: String,
    request_contact: bool,
    request_location: bool,
}

/// The remote method each payload kind is posted to.
pub open spec fn send_kind_method_name(kind: SendMessageKind) -> Seq<char> {
    match kind {
        SendMessageKind::Text { .. } => "sendMessage"@,
        SendMessageKind::Audio { .. } => "sendAudio"@,
    }
}

impl SendMessageRequest {
    /// A send request for the given chat and payload, with delivery
    /// options at their defaults.
    pub fn new(chat_id: ChatId, kind: SendMessageKind) -> (r: SendMessageRequest)
        ensures
            r == (SendMessageRequest {
                chat_id,
                kind,
                disable_notification: None,
                reply_to_message_id: None,
                reply_markup: None,
            }),
    {
        SendMessageRequest {
            chat_id,
            kind,
            disable_notification: None,
            reply_to_message_id: None,
            reply_markup: None,
        }
    }

    /// The remote method this request is posted to, decided by the
    /// payload variant.
    pub fn method(&self) -> (r: &'static str)
        ensures
            r@ == send_kind_method_name(self.kind),
    {
        match &self.kind {
            SendMessageKind::Text { .. } => "sendMessage",
            SendMessageKind::Audio { .. } => "sendAudio",
        }
    }
}

} // verus!

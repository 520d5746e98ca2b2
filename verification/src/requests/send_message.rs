//! The unified send request: one record carrying the chat, the
//! delivery options, and one of eleven content payloads; the payload
//! variant decides the remote method name.
//!
//! Geographic coordinates are stored as IEEE 754 single-precision bit
//! patterns in `u32` fields, bit-exact; the transport turns them back
//! into numbers when serializing.

use crate::requests::chat_id::ChatId;
use crate::requests::reply_markup::ReplyMarkup;
use vstd::prelude::*;

verus! {

#[derive(Debug, Clone, PartialEq)]
pub struct SendMessageRequest {
    pub chat_id: ChatId,
    pub kind: SendMessageKind,
    pub disable_notification: bool,
    pub reply_to_message_id: Option<i64>,
    pub reply_markup: Option<ReplyMarkup>,
}

#[derive(Debug, Clone, PartialEq)]
pub struct SendText {
    pub text: String,
    pub parse_mode: Option<ParseMode>,
    pub disable_web_page_preview: bool,
}

#[derive(Debug, Clone, PartialEq)]
pub struct SendPhoto {
    pub photo: FileKind,
    pub caption: Option<String>,
    pub parse_mode: Option<ParseMode>,
}

#[derive(Debug, Clone, PartialEq)]
pub struct SendAudio {
    pub audio: FileKind,
    pub caption: Option<String>,
    pub parse_mode: Option<ParseMode>,
    pub duration: Option<i32>,
    pub performer: Option<String>,
    pub title: Option<String>,
}

#[derive(Debug, Clone, PartialEq)]
pub struct SendDocument {
    pub document: FileKind,
    pub caption: Option<String>,
    pub parse_mode: Option<ParseMode>,
}

#[derive(Debug, Clone, PartialEq)]
pub struct SendVideo {
    pub video: FileKind,
    pub duration: Option<i64>,
    pub with: Option<i64>,
    pub height: Option<i64>,
    pub caption: Option<String>,
    pub parse_mode: Option<ParseMode>,
    pub supports_streaming: bool,
}

#[derive(Debug, Clone, PartialEq)]
pub struct SendAnimation {
    pub animation: FileKind,
    pub duration: Option<i64>,
    pub with: Option<i64>,
    pub height: Option<i64>,
    pub caption: Option<String>,
    pub parse_mode: Option<ParseMode>,
}

#[derive(Debug, Clone, PartialEq)]
pub struct SendVoice {
    pub voice: FileKind,
    pub caption: Option<String>,
    pub parse_mode: Option<ParseMode>,
    pub duration: Option<i64>,
}

#[derive(Debug, Clone, PartialEq)]
pub struct SendVideoNote {
    pub video_note: FileKind,
    pub duration: Option<i64>,
    pub length: Option<i64>,
}

/// Coordinates hold IEEE 754 single-precision bit patterns.
#[derive(Debug, Clone, PartialEq)]
pub struct SendVenue {
    pub latitude: u32,
    pub longitude: u32,
    pub title: String,
    pub address: String,
    pub foursquare_id: Option<String>,
    pub foursquare_type: Option<String>,
}

/// Coordinates hold IEEE 754 single-precision bit patterns.
#[derive(Debug, Clone, PartialEq)]
pub struct SendLocation {
    pub latitude: u32,
    pub longitude: u32,
    pub live_period: Option<i64>,
}

#[derive(Debug, Clone, PartialEq)]
pub struct SendContact {
    pub phone_number: String,
    pub first_name: String,
    pub last_name: Option<String>,
    pub vcard: Option<String>,
}

#[derive(Debug, Clone, PartialEq)]
pub enum SendMessageKind {
    Text(SendText),
    Photo(SendPhoto),
    Audio(SendAudio),
    Document(SendDocument),
    Video(SendVideo),
    Animation(SendAnimation),
    Voice(SendVoice),
    VideoNote(SendVideoNote),
    Location(SendLocation),
    Venue(SendVenue),
    Contact(SendContact),
}

/// A file attached by previously uploaded id or by public URL.
#[derive(Debug, Clone, PartialEq)]
pub enum FileKind {
    FileId(String),
    Url(String),
}

#[derive(Debug, Clone, Copy, PartialEq, Eq)]
pub enum ParseMode {
    Html,
    Markdown,
}

/// The remote method each content payload is posted to.
pub open spec fn send_method_name(kind: SendMessageKind) -> Seq<char> {
    match kind {
        SendMessageKind::Text(_) => "sendMessage"@,
        SendMessageKind::Photo(_) => "sendPhoto"@,
        SendMessageKind::Audio(_) => "sendAudio"@,
        SendMessageKind::Document(_) => "sendDocument"@,
        SendMessageKind::Video(_) => "sendVideo"@,
        SendMessageKind::Animation(_) => "sendAnimation"@,
        SendMessageKind::Voice(_) => "sendVoice"@,
        SendMessageKind::VideoNote(_) => "sendVideoNote"@,
        SendMessageKind::Location(_) => "sendLocation"@,
        SendMessageKind::Venue(_) => "sendVenue"@,
        SendMessageKind::Contact(_) => "sendContact"@,
    }
}

impl SendMessageRequest {
    /// A send request for the given chat and payload, with delivery
    /// options at their defaults.
    pub fn new(chat_id: ChatId, kind: SendMessageKind) -> (r: SendMessageRequest)
        ensures
            r == (SendMessageRequest {
                chat_id,
                kind,
                disable_notification: false,
                reply_to_message_id: None,
                reply_markup: None,
            }),
    {
        SendMessageRequest {
            chat_id,
            kind,
            disable_notification: false,
            reply_to_message_id: None,
            reply_markup: None,
        }
    }

    /// The remote method this request is posted to, decided by the
    /// payload variant.
    pub fn method(&self) -> (r: &'static str)
        ensures
            r@ == send_method_name(self.kind),
    {
        match &self.kind {
            SendMessageKind::Text(_) => "sendMessage",
            SendMessageKind::Photo(_) => "sendPhoto",
            SendMessageKind::Audio(_) => "sendAudio",
            SendMessageKind::Document(_) => "sendDocument",
            SendMessageKind::Video(_) => "sendVideo",
            SendMessageKind::Animation(_) => "sendAnimation",
            SendMessageKind::Voice(_) => "sendVoice",
            SendMessageKind::VideoNote(_) => "sendVideoNote",
            SendMessageKind::Location(_) => "sendLocation",
            SendMessageKind::Venue(_) => "sendVenue",
            SendMessageKind::Contact(_) => "sendContact",
        }
    }
}

impl SendText {
    /// A text payload with options unset.
    pub fn new(text: String) -> (r: SendText)
        ensures
            r == (SendText { text, parse_mode: None, disable_web_page_preview: false }),
    {
        SendText { text, parse_mode: None, disable_web_page_preview: false }
    }
}

impl SendPhoto {
    /// A photo payload with options unset.
    pub fn new(photo: FileKind) -> (r: SendPhoto)
        ensures
            r == (SendPhoto { photo, caption: None, parse_mode: None }),
    {
        SendPhoto { photo, caption: None, parse_mode: None }
    }
}

impl SendAnimation {
    /// An animation payload with options unset.
    pub fn new(animation: FileKind) -> (r: SendAnimation)
        ensures
            r == (SendAnimation {
                animation,
                duration: None,
                with: None,
                height: None,
                caption: None,
                parse_mode: None,
            }),
    {
        SendAnimation {
            animation,
            duration: None,
            with: None,
            height: None,
            caption: None,
            parse_mode: None,
        }
    }
}

impl SendAudio {
    /// An audio payload with options unset.
    pub fn new(audio: FileKind) -> (r: SendAudio)
        ensures
            r == (SendAudio {
                audio,
                caption: None,
                parse_mode: None,
                duration: None,
                performer: None,
                title: None,
            }),
    {
        SendAudio {
            audio,
            caption: None,
            parse_mode: None,
            duration: None,
            performer: None,
            title: None,
        }
    }
}

impl SendContact {
    /// A contact payload carrying a phone number and first name.
    pub fn new(phone_number: String, first_name: String) -> (r: SendContact)
        ensures
            r == (SendContact { phone_number, first_name, last_name: None, vcard: None }),
    {
        SendContact { phone_number, first_name, last_name: None, vcard: None }
    }
}

impl SendDocument {
    /// A document payload with options unset.
    pub fn new(document: FileKind) -> (r: SendDocument)
        ensures
            r == (SendDocument { document, caption: None, parse_mode: None }),
    {
        SendDocument { document, caption: None, parse_mode: None }
    }
}

impl SendLocation {
    /// A location payload; the coordinates are IEEE 754
    /// single-precision bit patterns.
    pub fn new(latitude: u32, longitude: u32) -> (r: SendLocation)
        ensures
            r == (SendLocation { latitude, longitude, live_period: None }),
    {
        SendLocation { latitude, longitude, live_period: None }
    }
}

impl SendVideoNote {
    /// A video-note payload with options unset.
    pub fn new(video_note: FileKind) -> (r: SendVideoNote)
        ensures
            r == (SendVideoNote { video_note, duration: None, length: None }),
    {
        SendVideoNote { video_note, duration: None, length: None }
    }
}

impl SendVenue {
    /// A venue payload; the coordinates are IEEE 754 single-precision
    /// bit patterns.
    pub fn new(latitude: u32, longitude: u32, title: String, address: String) -> (r: SendVenue)
        ensures
            r == (SendVenue {
                latitude,
                longitude,
                title,
                address,
                foursquare_id: None,
                foursquare_type: None,
            }),
    {
        SendVenue { latitude, longitude, title, address, foursquare_id: None, foursquare_type: None }
    }
}

impl SendVideo {
    /// A video payload with options unset.
    pub fn new(video: FileKind) -> (r: SendVideo)
        ensures
            r == (SendVideo {
                video,
                duration: None,
                with: None,
                height: None,
                caption: None,
                parse_mode: None,
                supports_streaming: false,
            }),
    {
        SendVideo {
            video,
            duration: None,
            with: None,
            height: None,
            caption: None,
            parse_mode: None,
            supports_streaming: false,
        }
    }
}

impl SendVoice {
    /// A voice payload with options unset.
    pub fn new(voice: FileKind) -> (r: SendVoice)
        ensures
            r == (SendVoice { voice, caption: None, parse_mode: None, duration: None }),
    {
        SendVoice { voice, caption: None, parse_mode: None, duration: None }
    }
}

} // verus!

//! The wire record for a message and its payload sub-objects.
//!
//! The one `Message` shape carries every content kind the remote API
//! knows; exactly which optional field is populated decides the kind.
//! Geographic coordinates and mask positions arrive as IEEE 754
//! single-precision numbers; the library stores their bit patterns in
//! `u32` fields, bit-exact, and leaves numeric interpretation to the
//! caller.

use crate::raw::chat::Chat;
use crate::raw::user::User;
use vstd::prelude::*;

verus! {

#[derive(Debug, PartialEq)]
pub struct Message {
    pub message_id: i64,
    pub from: Option<User>,
    /// Seconds since the Unix epoch, as the wire carries it.
    pub date: i64,
    pub chat: Chat,
    pub forward_from: Option<User>,
    pub forward_from_chat: Option<Chat>,
    pub forward_from_message_id: Option<i64>,
    pub forward_signature: Option<String>,
    pub forward_date: Option<i64>,
    pub reply_to_message: Option<Box<Message>>,
    pub edit_date: Option<i64>,
    pub media_group_id: Option<String>,
    pub author_signature: Option<String>,
    pub text: Option<String>,
    pub entities: Option<Vec<MessageEntity>>,
    pub caption_entities: Option<Vec<MessageEntity>>,
    pub audio: Option<Audio>,
    pub document: Option<Document>,
    pub animation: Option<Animation>,
    pub game: Option<Game>,
    pub photo: Option<Vec<PhotoSize>>,
    pub sticker: Option<Sticker>,
    pub video: Option<Video>,
    pub voice: Option<Voice>,
    pub video_note: Option<VideoNote>,
    pub caption: Option<String>,
    pub contact: Option<Contact>,
    pub location: Option<Location>,
    pub venue: Option<Venue>,
    pub new_chat_members: Option<Vec<User>>,
    pub left_chat_member: Option<User>,
    pub new_chat_title: Option<String>,
    pub new_chat_photo: Option<Vec<PhotoSize>>,
    pub delete_chat_photo: Option<bool>,
    pub group_chat_created: Option<bool>,
    pub supergroup_chat_created: Option<bool>,
    pub channel_chat_created: Option<bool>,
    pub migrate_to_chat_id: Option<i64>,
    pub migrate_from_chat_id: Option<i64>,
    pub pinned_message: Option<Box<Message>>,
    pub invoice: Option<Invoice>,
    pub successful_payment: Option<SuccessfulPayment>,
    pub connected_website: Option<String>,
    pub passport_data: Option<PassportData>,
}

/// One annotation over a span of the message text. The span is given
/// in the wire schema's units; the conversion layer reads it as
/// Unicode scalar value indices into the text.
#[derive(Debug, Clone, PartialEq)]
pub struct MessageEntity {
    pub typ: String,
    pub offset: i64,
    pub length: i64,
    pub url: Option<String>,
    pub user: Option<User>,
}

#[derive(Debug, Clone, PartialEq)]
pub struct Audio {
    pub file_id: String,
    pub duration: i64,
    pub performer: Option<String>,
    pub title: Option<String>,
    pub mime_type: Option<String>,
    pub file_size: Option<i64>,
    pub thumb: Option<PhotoSize>,
}

#[derive(Debug, Clone, PartialEq)]
pub struct Document {
    pub file_id: String,
    pub thumb: Option<PhotoSize>,
    pub file_name: Option<String>,
    pub mime_type: Option<String>,
    pub file_size: Option<i64>,
}

#[derive(Debug, Clone, PartialEq)]
pub struct Animation {
    pub file_id: String,
    pub width: i64,
    pub height: i64,
    pub duration: i64,
    pub thumb: Option<PhotoSize>,
    pub file_name: Option<String>,
    pub mime_type: Option<String>,
    pub file_size: Option<String>,
}

#[derive(Debug, Clone, PartialEq)]
pub struct Game {
    pub title: String,
    pub description: String,
    pub photo: Vec<PhotoSize>,
    pub text: Option<String>,
    pub text_entities: Option<MessageEntity>,
    pub animation: Option<Animation>,
}

#[derive(Debug, Clone, PartialEq)]
pub struct PhotoSize {
    pub file_id: String,
    pub width: i64,
    pub height: i64,
    pub file_size: Option<i64>,
}

#[derive(Debug, Clone, PartialEq)]
pub struct Sticker {
    pub file_id: String,
    pub width: i64,
    pub height: i64,
    pub thumb: Option<PhotoSize>,
    pub emoji: Option<String>,
    pub set_name: Option<String>,
    pub mask_position: Option<MaskPosition>,
    pub file_size: Option<i64>,
}

#[derive(Debug, Clone, Copy, PartialEq, Eq)]
pub enum MaskPositionPoint {
    Forehead,
    Eyes,
    Mouth,
    Chin,
}

/// Shift and scale fields hold IEEE 754 single-precision bit patterns.
#[derive(Debug, Clone, PartialEq)]
pub struct MaskPosition {
    pub point: MaskPositionPoint,
    pub x_shift: u32,
    pub y_shift: u32,
    pub scale: u32,
}

#[derive(Debug, Clone, PartialEq)]
pub struct Video {
    pub file_id: String,
    pub width: i64,
    pub height: i64,
    pub duration: i64,
    pub thumb: Option<PhotoSize>,
    pub mime_type: Option<String>,
    pub file_size: Option<String>,
}

#[derive(Debug, Clone, PartialEq)]
pub struct Voice {
    pub file_id: String,
    pub duration: i64,
    pub mime_type: Option<String>,
    pub file_size: Option<i64>,
}

#[derive(Debug, Clone, PartialEq)]
pub struct VideoNote {
    pub file_id: String,
    pub length: i64,
    pub duration: i64,
    pub thumb: Option<PhotoSize>,
    pub file_size: Option<String>,
}

#[derive(Debug, Clone, PartialEq)]
pub struct Contact {
    pub phone_number: String,
    pub first_name: String,
    pub last_name: Option<String>,
    pub user_d: Option<i64>,
    pub vcard: Option<String>,
}

/// Both coordinates hold IEEE 754 single-precision bit patterns.
#[derive(Debug, Clone, PartialEq)]
pub struct Location {
    pub longitude: u32,
    pub latitude: u32,
}

#[derive(Debug, Clone, PartialEq)]
pub struct Venue {
    pub location: Location,
    pub title: String,
    pub address: String,
    pub foursquare_id: Option<String>,
    pub foursquare_type: Option<String>,
}

#[derive(Debug, Clone, PartialEq)]
pub struct Invoice {}

#[derive(Debug, Clone, PartialEq)]
pub struct SuccessfulPayment {}

#[derive(Debug, Clone, PartialEq)]
pub struct PassportData {}

#[derive(Debug, Clone, PartialEq)]
pub struct File {
    pub file_id: String,
    pub file_size: Option<i64>,
    pub file_path: Option<String>,
}

} // verus!

//! The domain value for a message, and the conversion that builds it
//! from the all-optional wire record.
//!
//! A wire message overlays ~28 content kinds onto one record shape.
//! Conversion inspects the content-bearing fields in a fixed,
//! documented priority order (text first, passport data last); the
//! first populated field decides the domain kind, and a record with
//! none of them is rejected. The forward-related fields must form one
//! of two valid tuples or be entirely absent. Entity spans are read as
//! Unicode scalar value indices into the message text; a span that
//! does not fit the text degrades to an `Unknown` entity instead of
//! failing the whole conversion, so conversion is total and never
//! panics.

use crate::error::UnexpectedResponse;
use crate::raw;
use crate::responses::channel::channel_converts;
use crate::responses::channel::channel_error_text;
use crate::responses::channel::channel_value;
use crate::responses::channel::Channel;
use crate::responses::chat::chat_converts;
use crate::responses::chat::chat_error_text;
use crate::responses::chat::chat_value;
use crate::responses::chat::Chat;
use crate::responses::user::user_value;
use crate::responses::user::User;
use crate::text::string_is;
use vstd::prelude::*;

verus! {

#[derive(Debug, PartialEq)]
pub struct Message {
    pub id: i64,
    /// Seconds since the Unix epoch, as the wire carried it.
    pub date: i64,
    pub from: MessageFrom,
    pub forward: Option<Forward>,
    pub edit_date: Option<i64>,
    pub reply_to_message: Option<Box<Message>>,
    pub kind: MessageKind,
}

/// A message is authored by exactly one of a channel identity or a
/// user-in-chat identity, never both.
#[derive(Debug, PartialEq)]
pub enum MessageFrom {
    Channel { channel: Channel, signature: Option<String> },
    User { from: User, chat: Chat },
}

#[derive(Debug, Clone, PartialEq)]
pub struct Forward {
    /// Seconds since the Unix epoch, as the wire carried it.
    pub original_date: i64,
    pub from: ForwardFrom,
}

#[derive(Debug, Clone, PartialEq)]
pub enum ForwardFrom {
    User(User),
    Channel { channel: Channel, original_message_id: i64, original_signature: Option<String> },
}

/// One annotation over the message text, carrying the annotated
/// substring. A tag the library does not recognize, a `text_link`
/// without a URL, a `text_mention` without a user, and a span that
/// does not fit the text all map to `Unknown` rather than failing the
/// conversion.
#[derive(Debug, Clone, PartialEq)]
pub enum MessageEntity {
    Mention(String),
    Hashtag(String),
    Cashtag(String),
    BotCommand(String),
    Url(String),
    Email(String),
    PhoneNumber(String),
    Bold(String),
    Italic(String),
    Code(String),
    Pre(String),
    TextLink { text: String, link: String },
    TextMention { mention: String, user: User },
    Unknown { typ: String, offset: i64, length: i64 },
}

#[derive(Debug, Clone, PartialEq)]
pub struct Caption {
    pub caption: String,
    pub entities: Option<Vec<MessageEntity>>,
}

/// The ~20 mutually exclusive content kinds a message can carry, in
/// the order conversion checks them.
#[derive(Debug, PartialEq)]
pub enum MessageKind {
    Text { text: String, entities: Option<Vec<MessageEntity>> },
    Audio { audio: raw::message::Audio },
    Document { document: raw::message::Document, caption: Option<Caption> },
    Animation { animation: raw::message::Animation, caption: Option<Caption> },
    Game { game: raw::message::Game },
    Photo {
        photo: Vec<raw::message::PhotoSize>,
        caption: Option<Caption>,
        media_group_id: Option<String>,
    },
    Sticker { sticker: raw::message::Sticker },
    Video {
        video: raw::message::Video,
        caption: Option<Caption>,
        media_group_id: Option<String>,
    },
    Voice { voice: raw::message::Voice, caption: Option<Caption> },
    VideoNote { video_note: raw::message::VideoNote },
    Contact { contact: raw::message::Contact },
    Location { location: raw::message::Location },
    Venue { venue: raw::message::Venue },
    NewChatMembers { members: Vec<User> },
    LeftChatMember { member: User },
    NewChatTitle { title: String },
    NewChatPhoto { photo: Vec<raw::message::PhotoSize> },
    DeleteChatPhoto,
    GroupChatCreated,
    SuperGroupChatCreated,
    ChannelChatCreated,
    MigrateToChatId { id: i64 },
    MigrateFromChatId { id: i64 },
    PinnedMessage { message: Box<Message> },
    Invoice { invoice: raw::message::Invoice },
    SuccessfulPayment { successful_payment: raw::message::SuccessfulPayment },
    ConnectedWebsite { connected_website: String },
    PassportData { passport_data: raw::message::PassportData },
}

// ---------------------------------------------------------------------
// Forward resolution: the five forward-related wire fields must form
// one of two valid tuples, or be entirely absent.
// ---------------------------------------------------------------------

/// The forwarded-from-a-channel tuple: a chat, a message id and a date
/// are present, the user is absent (the signature is free).
pub open spec fn forward_shape_channel(
    from: Option<raw::user::User>,
    chat: Option<raw::chat::Chat>,
    id: Option<i64>,
    sign: Option<String>,
    date: Option<i64>,
) -> bool {
    from is None && chat is Some && id is Some && date is Some
}

/// The forwarded-from-a-user tuple: only the user and the date are
/// present.
pub open spec fn forward_shape_user(
    from: Option<raw::user::User>,
    chat: Option<raw::chat::Chat>,
    id: Option<i64>,
    sign: Option<String>,
    date: Option<i64>,
) -> bool {
    from is Some && chat is None && id is None && sign is None && date is Some
}

/// No forward at all: every forward-related field is absent.
pub open spec fn forward_shape_absent(
    from: Option<raw::user::User>,
    chat: Option<raw::chat::Chat>,
    id: Option<i64>,
    sign: Option<String>,
    date: Option<i64>,
) -> bool {
    from is None && chat is None && id is None && sign is None && date is None
}

/// The tuple matches one of the two valid shapes or is absent.
pub open spec fn forward_shape_ok(
    from: Option<raw::user::User>,
    chat: Option<raw::chat::Chat>,
    id: Option<i64>,
    sign: Option<String>,
    date: Option<i64>,
) -> bool {
    ||| forward_shape_channel(from, chat, id, sign, date)
    ||| forward_shape_user(from, chat, id, sign, date)
    ||| forward_shape_absent(from, chat, id, sign, date)
}

/// The tuple resolves to a forward (or to none): the shape is valid
/// and, for the channel shape, the carried chat names a channel.
pub open spec fn forward_args_ok(
    from: Option<raw::user::User>,
    chat: Option<raw::chat::Chat>,
    id: Option<i64>,
    sign: Option<String>,
    date: Option<i64>,
) -> bool {
    if forward_shape_channel(from, chat, id, sign, date) {
        channel_converts(chat->Some_0)
    } else {
        forward_shape_user(from, chat, id, sign, date) || forward_shape_absent(
            from,
            chat,
            id,
            sign,
            date,
        )
    }
}

/// The forward a valid tuple stands for.
pub open spec fn forward_value(
    from: Option<raw::user::User>,
    chat: Option<raw::chat::Chat>,
    id: Option<i64>,
    sign: Option<String>,
    date: Option<i64>,
) -> Option<Forward> {
    if forward_shape_channel(from, chat, id, sign, date) {
        Some(
            Forward {
                original_date: date->Some_0,
                from: ForwardFrom::Channel {
                    channel: channel_value(chat->Some_0),
                    original_message_id: id->Some_0,
                    original_signature: sign,
                },
            },
        )
    } else if forward_shape_user(from, chat, id, sign, date) {
        Some(Forward { original_date: date->Some_0, from: ForwardFrom::User(user_value(from->Some_0)) })
    } else {
        None
    }
}

/// The description carried by the error for a forward tuple outside
/// the two valid shapes.
pub open spec fn forward_error_text() -> Seq<char> {
    "Wrong forward arguments. Expected one of this: chat, id, sign, date or user"@
}

/// Resolves the five forward-related wire fields. Succeeds exactly
/// when they form one of the two valid tuples (with a convertible
/// channel chat for the channel shape) or are entirely absent; any
/// other combination is an error naming the bad combination.
pub fn try_into_forward(
    from: Option<raw::user::User>,
    chat: Option<raw::chat::Chat>,
    id: Option<i64>,
    sign: Option<String>,
    date: Option<i64>,
) -> (r: Result<Option<Forward>, UnexpectedResponse>)
    ensures
        r is Ok <==> forward_args_ok(from, chat, id, sign, date),
        r is Ok ==> r->Ok_0 == forward_value(from, chat, id, sign, date),
        !forward_shape_ok(from, chat, id, sign, date) ==> (r matches Err(
            UnexpectedResponse::ConvertError(s),
        ) && s@ == forward_error_text()),
        forward_shape_channel(from, chat, id, sign, date) && !channel_converts(chat->Some_0) ==> (
        r matches Err(UnexpectedResponse::ConvertError(s)) && s@ == channel_error_text()),
{
    match (from, chat, id, sign, date) {
        (None, Some(chat), Some(id), sign, Some(date)) => match Channel::try_from(chat) {
            Ok(channel) => Ok(
                Some(
                    Forward {
                        original_date: date,
                        from: ForwardFrom::Channel {
                            channel,
                            original_message_id: id,
                            original_signature: sign,
                        },
                    },
                ),
            ),
            Err(e) => Err(e),
        },
        (Some(user), None, None, None, Some(date)) => Ok(
            Some(Forward { original_date: date, from: ForwardFrom::User(User::from_raw(user)) }),
        ),
        (None, None, None, None, None) => Ok(None),
        _ => Err(
            UnexpectedResponse::ConvertError(
                String::from_str(
                    "Wrong forward arguments. Expected one of this: chat, id, sign, date or user",
                ),
            ),
        ),
    }
}

// ---------------------------------------------------------------------
// Author resolution: a sender user makes a user-in-chat identity, no
// sender makes a channel identity.
// ---------------------------------------------------------------------

/// The author resolves: with a sender the chat must be one of the
/// three chat shapes, without one it must name a channel.
pub open spec fn from_ok(from: Option<raw::user::User>, chat: raw::chat::Chat) -> bool {
    if from is Some {
        chat_converts(chat)
    } else {
        channel_converts(chat)
    }
}

/// The author identity the wire fields stand for.
pub open spec fn from_value(
    from: Option<raw::user::User>,
    chat: raw::chat::Chat,
    signature: Option<String>,
) -> MessageFrom {
    if from is Some {
        MessageFrom::User { from: user_value(from->Some_0), chat: chat_value(chat) }
    } else {
        MessageFrom::Channel { channel: channel_value(chat), signature }
    }
}

/// Resolves the author of a message. Succeeds exactly when the chat
/// converts under the shape the sender field dictates.
pub fn try_into_message_from(
    from: Option<raw::user::User>,
    chat: raw::chat::Chat,
    signature: Option<String>,
) -> (r: Result<MessageFrom, UnexpectedResponse>)
    ensures
        r is Ok <==> from_ok(from, chat),
        r is Ok ==> r->Ok_0 == from_value(from, chat, signature),
        from is Some && !chat_converts(chat) ==> (r matches Err(
            UnexpectedResponse::ConvertError(s),
        ) && s@ == chat_error_text()),
        from is None && !channel_converts(chat) ==> (r matches Err(
            UnexpectedResponse::ConvertError(s),
        ) && s@ == channel_error_text()),
{
    match from {
        Some(user) => match Chat::try_from(chat) {
            Ok(chat) => Ok(MessageFrom::User { from: User::from_raw(user), chat }),
            Err(e) => Err(e),
        },
        None => match Channel::try_from(chat) {
            Ok(channel) => Ok(MessageFrom::Channel { channel, signature }),
            Err(e) => Err(e),
        },
    }
}

// ---------------------------------------------------------------------
// Entities: annotations over spans of the message text.
// ---------------------------------------------------------------------

/// Whether an entity span fits the text, reading offset and length as
/// Unicode scalar value counts.
pub open spec fn span_ok(text: Seq<char>, offset: i64, length: i64) -> bool {
    0 <= offset && 0 <= length && offset + length <= text.len()
}

/// The substring of the text an entity annotates.
pub open spec fn captured(text: Seq<char>, offset: i64, length: i64) -> Seq<char> {
    text.subrange(offset as int, offset + length)
}

/// The `Unknown` entity a wire entity degrades to.
pub open spec fn unknown_entity_value(e: raw::message::MessageEntity) -> MessageEntity {
    MessageEntity::Unknown { typ: e.typ, offset: e.offset, length: e.length }
}

/// What entity a wire entity converts to, against the given text. The
/// tag decides the variant; each recognized variant carries exactly
/// the annotated substring; anything else degrades to `Unknown`.
pub open spec fn entity_matches(
    text: Seq<char>,
    e: raw::message::MessageEntity,
    d: MessageEntity,
) -> bool {
    if !span_ok(text, e.offset, e.length) {
        d == unknown_entity_value(e)
    } else {
        let cap = captured(text, e.offset, e.length);
        if e.typ@ == "mention"@ {
            d matches MessageEntity::Mention(s) && s@ == cap
        } else if e.typ@ == "hashtag"@ {
            d matches MessageEntity::Hashtag(s) && s@ == cap
        } else if e.typ@ == "cashtag"@ {
            d matches MessageEntity::Cashtag(s) && s@ == cap
        } else if e.typ@ == "bot_command"@ {
            d matches MessageEntity::BotCommand(s) && s@ == cap
        } else if e.typ@ == "url"@ {
            d matches MessageEntity::Url(s) && s@ == cap
        } else if e.typ@ == "email"@ {
            d matches MessageEntity::Email(s) && s@ == cap
        } else if e.typ@ == "phone_number"@ {
            d matches MessageEntity::PhoneNumber(s) && s@ == cap
        } else if e.typ@ == "bold"@ {
            d matches MessageEntity::Bold(s) && s@ == cap
        } else if e.typ@ == "italic"@ {
            d matches MessageEntity::Italic(s) && s@ == cap
        } else if e.typ@ == "code"@ {
            d matches MessageEntity::Code(s) && s@ == cap
        } else if e.typ@ == "pre"@ {
            d matches MessageEntity::Pre(s) && s@ == cap
        } else if e.typ@ == "text_link"@ {
            match e.url {
                Some(link) => d matches MessageEntity::TextLink { text: s, link: l } && s@ == cap
                    && l == link,
                None => d == unknown_entity_value(e),
            }
        } else if e.typ@ == "text_mention"@ {
            match e.user {
                Some(u) => d matches MessageEntity::TextMention { mention, user } && mention@ == cap
                    && user == user_value(u),
                None => d == unknown_entity_value(e),
            }
        } else {
            d == unknown_entity_value(e)
        }
    }
}

/// Builds the `Unknown` entity for a wire entity, without consuming
/// it.
fn unknown_entity(e: &raw::message::MessageEntity) -> (r: MessageEntity)
    ensures
        r == unknown_entity_value(*e),
{
    MessageEntity::Unknown { typ: e.typ.clone(), offset: e.offset, length: e.length }
}

/// Converts one wire entity against the message text. Total: any
/// shape it does not recognize degrades to `Unknown`.
pub fn convert_entity(text: &str, text_chars: usize, e: &raw::message::MessageEntity) -> (r:
    MessageEntity)
    requires
        text_chars == text@.len(),
    ensures
        entity_matches(text@, *e, r),
{
    let fits = e.offset >= 0 && e.length >= 0 && (e.offset as u64) <= (text_chars as u64) && (
    e.length as u64) <= (text_chars as u64) - (e.offset as u64);
    if !fits {
        return unknown_entity(e);
    }
    let from_i: usize = e.offset as usize;
    let to_i: usize = from_i + (e.length as usize);
    let cap = String::from_str(text.substring_char(from_i, to_i));
    if string_is(&e.typ, "mention") {
        MessageEntity::Mention(cap)
    } else if string_is(&e.typ, "hashtag") {
        MessageEntity::Hashtag(cap)
    } else if string_is(&e.typ, "cashtag") {
        MessageEntity::Cashtag(cap)
    } else if string_is(&e.typ, "bot_command") {
        MessageEntity::BotCommand(cap)
    } else if string_is(&e.typ, "url") {
        MessageEntity::Url(cap)
    } else if string_is(&e.typ, "email") {
        MessageEntity::Email(cap)
    } else if string_is(&e.typ, "phone_number") {
        MessageEntity::PhoneNumber(cap)
    } else if string_is(&e.typ, "bold") {
        MessageEntity::Bold(cap)
    } else if string_is(&e.typ, "italic") {
        MessageEntity::Italic(cap)
    } else if string_is(&e.typ, "code") {
        MessageEntity::Code(cap)
    } else if string_is(&e.typ, "pre") {
        MessageEntity::Pre(cap)
    } else if string_is(&e.typ, "text_link") {
        match &e.url {
            Some(link) => MessageEntity::TextLink { text: cap, link: link.clone() },
            None => unknown_entity(e),
        }
    } else if string_is(&e.typ, "text_mention") {
        match &e.user {
            Some(u) => MessageEntity::TextMention { mention: cap, user: User::from_raw_ref(u) },
            None => unknown_entity(e),
        }
    } else {
        unknown_entity(e)
    }
}

/// Element-wise entity conversion against the same text.
pub open spec fn entities_match(
    text: Seq<char>,
    raws: Seq<raw::message::MessageEntity>,
    doms: Seq<MessageEntity>,
) -> bool {
    &&& doms.len() == raws.len()
    &&& forall|i: int| 0 <= i < raws.len() ==> entity_matches(text, raws[i], #[trigger] doms[i])
}

/// Converts every entity of a list against the message text, keeping
/// the order.
pub fn convert_entities(text: &str, ents: &Vec<raw::message::MessageEntity>) -> (r: Vec<
    MessageEntity,
>)
    ensures
        entities_match(text@, ents@, r@),
{
    let text_chars = text.unicode_len();
    let mut out: Vec<MessageEntity> = Vec::new();
    let mut i: usize = 0;
    while i < ents.len()
        invariant
            text_chars == text@.len(),
            i <= ents@.len(),
            out@.len() == i,
            forall|j: int| 0 <= j < i ==> entity_matches(text@, ents@[j], #[trigger] out@[j]),
        decreases ents@.len() - i,
    {
        let d = convert_entity(text, text_chars, &ents[i]);
        out.push(d);
        i = i + 1;
    }
    out
}

/// Entity conversion lifted to the optional entity list.
pub open spec fn opt_entities_match(
    text: Seq<char>,
    raws: Option<Vec<raw::message::MessageEntity>>,
    doms: Option<Vec<MessageEntity>>,
) -> bool {
    match raws {
        Some(v) => doms matches Some(w) && entities_match(text, v@, w@),
        None => doms is None,
    }
}

/// Converts an optional entity list against the message text.
pub fn convert_opt_entities(text: &str, ents: &Option<Vec<raw::message::MessageEntity>>) -> (r:
    Option<Vec<MessageEntity>>)
    ensures
        opt_entities_match(text@, *ents, r),
{
    match ents {
        Some(v) => Some(convert_entities(text, v)),
        None => None,
    }
}

// ---------------------------------------------------------------------
// Captions: a caption string with its own entities.
// ---------------------------------------------------------------------

/// What caption the optional caption fields stand for: the caption
/// text with its entities converted against that text.
pub open spec fn caption_matches(
    raw_caption: Option<String>,
    raw_ents: Option<Vec<raw::message::MessageEntity>>,
    d: Option<Caption>,
) -> bool {
    match raw_caption {
        Some(c) => d matches Some(cap) && cap.caption == c && opt_entities_match(
            c@,
            raw_ents,
            cap.entities,
        ),
        None => d is None,
    }
}

/// Builds the caption, converting its entities against the caption
/// text itself.
pub fn build_caption(
    caption: Option<String>,
    caption_entities: Option<Vec<raw::message::MessageEntity>>,
) -> (r: Option<Caption>)
    ensures
        caption_matches(caption, caption_entities, r),
{
    match caption {
        Some(c) => {
            let entities = convert_opt_entities(c.as_str(), &caption_entities);
            Some(Caption { caption: c, entities })
        },
        None => None,
    }
}

// ---------------------------------------------------------------------
// Member lists.
// ---------------------------------------------------------------------

/// Element-wise user conversion.
pub open spec fn members_match(raws: Seq<raw::user::User>, doms: Seq<User>) -> bool {
    &&& doms.len() == raws.len()
    &&& forall|i: int| 0 <= i < raws.len() ==> #[trigger] doms[i] == user_value(raws[i])
}

/// Converts a list of wire users, keeping the order.
pub fn convert_users(v: &Vec<raw::user::User>) -> (r: Vec<User>)
    ensures
        members_match(v@, r@),
{
    let mut out: Vec<User> = Vec::new();
    let mut i: usize = 0;
    while i < v.len()
        invariant
            i <= v@.len(),
            out@.len() == i,
            forall|j: int| 0 <= j < i ==> #[trigger] out@[j] == user_value(v@[j]),
        decreases v@.len() - i,
    {
        out.push(User::from_raw_ref(&v[i]));
        i = i + 1;
    }
    out
}

// ---------------------------------------------------------------------
// Kind resolution: the fixed priority order over the content-bearing
// fields.
// ---------------------------------------------------------------------

/// At least one content-bearing field is populated. The disjuncts are
/// listed in the priority order conversion checks them: text, audio,
/// document, animation, game, photo, sticker, video, voice, video
/// note, contact, location, venue, the membership and chat-service
/// notices, the migration notices, pinned message, invoice, payment,
/// connected website, passport data.
pub open spec fn has_kind(m: raw::message::Message) -> bool {
    ||| m.text is Some
    ||| m.audio is Some
    ||| m.document is Some
    ||| m.animation is Some
    ||| m.game is Some
    ||| m.photo is Some
    ||| m.sticker is Some
    ||| m.video is Some
    ||| m.voice is Some
    ||| m.video_note is Some
    ||| m.contact is Some
    ||| m.location is Some
    ||| m.venue is Some
    ||| m.new_chat_members is Some
    ||| m.left_chat_member is Some
    ||| m.new_chat_title is Some
    ||| m.new_chat_photo is Some
    ||| m.delete_chat_photo is Some
    ||| m.group_chat_created is Some
    ||| m.supergroup_chat_created is Some
    ||| m.channel_chat_created is Some
    ||| m.migrate_to_chat_id is Some
    ||| m.migrate_from_chat_id is Some
    ||| m.pinned_message is Some
    ||| m.invoice is Some
    ||| m.successful_payment is Some
    ||| m.connected_website is Some
    ||| m.passport_data is Some
}

/// The priority order reaches the pinned-message slot: every field
/// checked before it is absent and a pinned message is present. Only
/// then does conversion recurse into the pinned message.
pub open spec fn pinned_selected(m: raw::message::Message) -> bool {
    &&& m.text is None
    &&& m.audio is None
    &&& m.document is None
    &&& m.animation is None
    &&& m.game is None
    &&& m.photo is None
    &&& m.sticker is None
    &&& m.video is None
    &&& m.voice is None
    &&& m.video_note is None
    &&& m.contact is None
    &&& m.location is None
    &&& m.venue is None
    &&& m.new_chat_members is None
    &&& m.left_chat_member is None
    &&& m.new_chat_title is None
    &&& m.new_chat_photo is None
    &&& m.delete_chat_photo is None
    &&& m.group_chat_created is None
    &&& m.supergroup_chat_created is None
    &&& m.channel_chat_created is None
    &&& m.migrate_to_chat_id is None
    &&& m.migrate_from_chat_id is None
    &&& m.pinned_message is Some
}

/// What domain kind a wire message resolves to, following the
/// priority order: the first populated field decides, later fields
/// are ignored.
pub open spec fn kind_matches(m: raw::message::Message, k: MessageKind) -> bool
    decreases m, 0nat,
{
    if m.text is Some {
        k matches MessageKind::Text { text, entities } && text == m.text->Some_0
            && opt_entities_match(m.text->Some_0@, m.entities, entities)
    } else if m.audio is Some {
        k == MessageKind::Audio { audio: m.audio->Some_0 }
    } else if m.document is Some {
        k matches MessageKind::Document { document, caption } && document == m.document->Some_0
            && caption_matches(m.caption, m.caption_entities, caption)
    } else if m.animation is Some {
        k matches MessageKind::Animation { animation, caption } && animation == m.animation->Some_0
            && caption_matches(m.caption, m.caption_entities, caption)
    } else if m.game is Some {
        k == MessageKind::Game { game: m.game->Some_0 }
    } else if m.photo is Some {
        k matches MessageKind::Photo { photo, caption, media_group_id } && photo == m.photo->Some_0
            && media_group_id == m.media_group_id && caption_matches(
            m.caption,
            m.caption_entities,
            caption,
        )
    } else if m.sticker is Some {
        k == MessageKind::Sticker { sticker: m.sticker->Some_0 }
    } else if m.video is Some {
        k matches MessageKind::Video { video, caption, media_group_id } && video == m.video->Some_0
            && media_group_id == m.media_group_id && caption_matches(
            m.caption,
            m.caption_entities,
            caption,
        )
    } else if m.voice is Some {
        k matches MessageKind::Voice { voice, caption } && voice == m.voice->Some_0
            && caption_matches(m.caption, m.caption_entities, caption)
    } else if m.video_note is Some {
        k == MessageKind::VideoNote { video_note: m.video_note->Some_0 }
    } else if m.contact is Some {
        k == MessageKind::Contact { contact: m.contact->Some_0 }
    } else if m.location is Some {
        k == MessageKind::Location { location: m.location->Some_0 }
    } else if m.venue is Some {
        k == MessageKind::Venue { venue: m.venue->Some_0 }
    } else if m.new_chat_members is Some {
        k matches MessageKind::NewChatMembers { members } && members_match(
            m.new_chat_members->Some_0@,
            members@,
        )
    } else if m.left_chat_member is Some {
        k == MessageKind::LeftChatMember { member: user_value(m.left_chat_member->Some_0) }
    } else if m.new_chat_title is Some {
        k == MessageKind::NewChatTitle { title: m.new_chat_title->Some_0 }
    } else if m.new_chat_photo is Some {
        k == MessageKind::NewChatPhoto { photo: m.new_chat_photo->Some_0 }
    } else if m.delete_chat_photo is Some {
        k == MessageKind::DeleteChatPhoto
    } else if m.group_chat_created is Some {
        k == MessageKind::GroupChatCreated
    } else if m.supergroup_chat_created is Some {
        k == MessageKind::SuperGroupChatCreated
    } else if m.channel_chat_created is Some {
        k == MessageKind::ChannelChatCreated
    } else if m.migrate_to_chat_id is Some {
        k == MessageKind::MigrateToChatId { id: m.migrate_to_chat_id->Some_0 }
    } else if m.migrate_from_chat_id is Some {
        k == MessageKind::MigrateFromChatId { id: m.migrate_from_chat_id->Some_0 }
    } else if m.pinned_message is Some {
        k matches MessageKind::PinnedMessage { message } && message_matches(
            *m.pinned_message->Some_0,
            *message,
        )
    } else if m.invoice is Some {
        k == MessageKind::Invoice { invoice: m.invoice->Some_0 }
    } else if m.successful_payment is Some {
        k == MessageKind::SuccessfulPayment {
            successful_payment: m.successful_payment->Some_0,
        }
    } else if m.connected_website is Some {
        k == MessageKind::ConnectedWebsite { connected_website: m.connected_website->Some_0 }
    } else if m.passport_data is Some {
        k == MessageKind::PassportData { passport_data: m.passport_data->Some_0 }
    } else {
        false
    }
}

/// What domain message a wire message converts to: ids, dates and
/// author carried over, the forward tuple resolved, the reply and the
/// kind (recursively) resolved.
pub open spec fn message_matches(m: raw::message::Message, d: Message) -> bool
    decreases m, 1nat,
{
    &&& d.id == m.message_id
    &&& d.date == m.date
    &&& d.from == from_value(m.from, m.chat, m.author_signature)
    &&& d.forward == forward_value(
        m.forward_from,
        m.forward_from_chat,
        m.forward_from_message_id,
        m.forward_signature,
        m.forward_date,
    )
    &&& d.edit_date == m.edit_date
    &&& (match m.reply_to_message {
        Some(r) => d.reply_to_message matches Some(b) && message_matches(*r, *b),
        None => d.reply_to_message is None,
    })
    &&& kind_matches(m, d.kind)
}

/// The wire message converts: the forward tuple resolves, the reply
/// (if any) converts, some content field is populated (recursing into
/// a selected pinned message), and the author resolves.
pub open spec fn message_converts(m: raw::message::Message) -> bool
    decreases m,
{
    &&& forward_args_ok(
        m.forward_from,
        m.forward_from_chat,
        m.forward_from_message_id,
        m.forward_signature,
        m.forward_date,
    )
    &&& (m.reply_to_message matches Some(r) ==> message_converts(*r))
    &&& has_kind(m)
    &&& (pinned_selected(m) ==> message_converts(*m.pinned_message->Some_0))
    &&& from_ok(m.from, m.chat)
}

/// The reply slot converts (or is absent).
pub open spec fn reply_ok(m: raw::message::Message) -> bool {
    m.reply_to_message matches Some(r) ==> message_converts(*r)
}

/// The description carried by the error for a message with no
/// recognized content field.
pub open spec fn no_kind_error_text() -> Seq<char> {
    "Tried all kind of messages. If this happens, probably there is bug in lib"@
}

/// The presence bits of the content-bearing fields, in the priority
/// order conversion checks them. This sequence is the documented
/// order itself: index 0 is text, index 23 is the pinned message,
/// index 27 is passport data.
pub open spec fn kind_slots(m: raw::message::Message) -> Seq<bool> {
    seq![
        m.text is Some,
        m.audio is Some,
        m.document is Some,
        m.animation is Some,
        m.game is Some,
        m.photo is Some,
        m.sticker is Some,
        m.video is Some,
        m.voice is Some,
        m.video_note is Some,
        m.contact is Some,
        m.location is Some,
        m.venue is Some,
        m.new_chat_members is Some,
        m.left_chat_member is Some,
        m.new_chat_title is Some,
        m.new_chat_photo is Some,
        m.delete_chat_photo is Some,
        m.group_chat_created is Some,
        m.supergroup_chat_created is Some,
        m.channel_chat_created is Some,
        m.migrate_to_chat_id is Some,
        m.migrate_from_chat_id is Some,
        m.pinned_message is Some,
        m.invoice is Some,
        m.successful_payment is Some,
        m.connected_website is Some,
        m.passport_data is Some,
    ]
}

/// The index a domain kind occupies in the priority order.
pub open spec fn kind_slot_index(k: MessageKind) -> int {
    match k {
        MessageKind::Text { .. } => 0,
        MessageKind::Audio { .. } => 1,
        MessageKind::Document { .. } => 2,
        MessageKind::Animation { .. } => 3,
        MessageKind::Game { .. } => 4,
        MessageKind::Photo { .. } => 5,
        MessageKind::Sticker { .. } => 6,
        MessageKind::Video { .. } => 7,
        MessageKind::Voice { .. } => 8,
        MessageKind::VideoNote { .. } => 9,
        MessageKind::Contact { .. } => 10,
        MessageKind::Location { .. } => 11,
        MessageKind::Venue { .. } => 12,
        MessageKind::NewChatMembers { .. } => 13,
        MessageKind::LeftChatMember { .. } => 14,
        MessageKind::NewChatTitle { .. } => 15,
        MessageKind::NewChatPhoto { .. } => 16,
        MessageKind::DeleteChatPhoto => 17,
        MessageKind::GroupChatCreated => 18,
        MessageKind::SuperGroupChatCreated => 19,
        MessageKind::ChannelChatCreated => 20,
        MessageKind::MigrateToChatId { .. } => 21,
        MessageKind::MigrateFromChatId { .. } => 22,
        MessageKind::PinnedMessage { .. } => 23,
        MessageKind::Invoice { .. } => 24,
        MessageKind::SuccessfulPayment { .. } => 25,
        MessageKind::ConnectedWebsite { .. } => 26,
        MessageKind::PassportData { .. } => 27,
    }
}

/// The index of the first populated content field, or a negative
/// value when none is.
pub open spec fn first_kind_slot(m: raw::message::Message) -> int {
    if m.text is Some {
        0
    } else if m.audio is Some {
        1
    } else if m.document is Some {
        2
    } else if m.animation is Some {
        3
    } else if m.game is Some {
        4
    } else if m.photo is Some {
        5
    } else if m.sticker is Some {
        6
    } else if m.video is Some {
        7
    } else if m.voice is Some {
        8
    } else if m.video_note is Some {
        9
    } else if m.contact is Some {
        10
    } else if m.location is Some {
        11
    } else if m.venue is Some {
        12
    } else if m.new_chat_members is Some {
        13
    } else if m.left_chat_member is Some {
        14
    } else if m.new_chat_title is Some {
        15
    } else if m.new_chat_photo is Some {
        16
    } else if m.delete_chat_photo is Some {
        17
    } else if m.group_chat_created is Some {
        18
    } else if m.supergroup_chat_created is Some {
        19
    } else if m.channel_chat_created is Some {
        20
    } else if m.migrate_to_chat_id is Some {
        21
    } else if m.migrate_from_chat_id is Some {
        22
    } else if m.pinned_message is Some {
        23
    } else if m.invoice is Some {
        24
    } else if m.successful_payment is Some {
        25
    } else if m.connected_website is Some {
        26
    } else if m.passport_data is Some {
        27
    } else {
        -1
    }
}

/// Law: kind resolution is deterministic and follows the documented
/// priority order — whatever domain message a wire message converts
/// to, its kind is the one of the first populated content field.
pub proof fn lemma_kind_follows_priority(m: raw::message::Message, d: Message)
    requires
        has_kind(m),
        message_matches(m, d),
    ensures
        kind_slot_index(d.kind) == first_kind_slot(m),
{
    reveal_with_fuel(message_matches, 2);
    assert(kind_matches(m, d.kind));
}

/// Law: text outranks photo — a wire message carrying both `text`
/// and `photo` converts to a `Text` kind, never a `Photo`.
pub proof fn lemma_text_beats_photo(m: raw::message::Message, d: Message)
    requires
        m.text is Some,
        m.photo is Some,
        message_matches(m, d),
    ensures
        d.kind is Text,
{
    reveal_with_fuel(message_matches, 2);
    assert(kind_matches(m, d.kind));
}

/// How many content-bearing fields are populated.
pub open spec fn kind_slot_count(m: raw::message::Message) -> int {
    (if m.text is Some { 1int } else { 0int })
    + (if m.audio is Some { 1int } else { 0int })
    + (if m.document is Some { 1int } else { 0int })
    + (if m.animation is Some { 1int } else { 0int })
    + (if m.game is Some { 1int } else { 0int })
    + (if m.photo is Some { 1int } else { 0int })
    + (if m.sticker is Some { 1int } else { 0int })
    + (if m.video is Some { 1int } else { 0int })
    + (if m.voice is Some { 1int } else { 0int })
    + (if m.video_note is Some { 1int } else { 0int })
    + (if m.contact is Some { 1int } else { 0int })
    + (if m.location is Some { 1int } else { 0int })
    + (if m.venue is Some { 1int } else { 0int })
    + (if m.new_chat_members is Some { 1int } else { 0int })
    + (if m.left_chat_member is Some { 1int } else { 0int })
    + (if m.new_chat_title is Some { 1int } else { 0int })
    + (if m.new_chat_photo is Some { 1int } else { 0int })
    + (if m.delete_chat_photo is Some { 1int } else { 0int })
    + (if m.group_chat_created is Some { 1int } else { 0int })
    + (if m.supergroup_chat_created is Some { 1int } else { 0int })
    + (if m.channel_chat_created is Some { 1int } else { 0int })
    + (if m.migrate_to_chat_id is Some { 1int } else { 0int })
    + (if m.migrate_from_chat_id is Some { 1int } else { 0int })
    + (if m.pinned_message is Some { 1int } else { 0int })
    + (if m.invoice is Some { 1int } else { 0int })
    + (if m.successful_payment is Some { 1int } else { 0int })
    + (if m.connected_website is Some { 1int } else { 0int })
    + (if m.passport_data is Some { 1int } else { 0int })
}

/// Law: a wire message with exactly one populated content field, a
/// valid forward tuple, a convertible reply and pinned payload, and a
/// resolvable author always converts, and every domain message it
/// matches carries the kind of that one populated field.
pub proof fn lemma_exactly_one_kind_field(m: raw::message::Message, d: Message)
    requires
        kind_slot_count(m) == 1,
        forward_args_ok(
            m.forward_from,
            m.forward_from_chat,
            m.forward_from_message_id,
            m.forward_signature,
            m.forward_date,
        ),
        reply_ok(m),
        from_ok(m.from, m.chat),
        m.pinned_message matches Some(p) ==> message_converts(*p),
    ensures
        message_converts(m),
        message_matches(m, d) ==> kind_slot_index(d.kind) == first_kind_slot(m) && kind_slots(
            m,
        )[kind_slot_index(d.kind)],
{
    assert(has_kind(m));
    if message_matches(m, d) {
        lemma_kind_follows_priority(m, d);
        assert(kind_slots(m)[first_kind_slot(m)]);
    }
}

impl Message {
    /// Converts a wire message into a domain message.
    ///
    /// Succeeds exactly when the forward tuple resolves, the reply and
    /// a selected pinned message convert in turn, some content field
    /// is populated, and the author resolves; the result is then
    /// pinned down by `message_matches`. Each failure names the
    /// offending sub-structure, checked in that same order.
    pub fn try_from(m: raw::message::Message) -> (r: Result<Message, UnexpectedResponse>)
        ensures
            r is Ok <==> message_converts(m),
            r is Ok ==> message_matches(m, r->Ok_0),
            !forward_shape_ok(
                m.forward_from,
                m.forward_from_chat,
                m.forward_from_message_id,
                m.forward_signature,
                m.forward_date,
            ) ==> (r matches Err(UnexpectedResponse::ConvertError(s)) && s@
                == forward_error_text()),
            forward_shape_channel(
                m.forward_from,
                m.forward_from_chat,
                m.forward_from_message_id,
                m.forward_signature,
                m.forward_date,
            ) && !channel_converts(m.forward_from_chat->Some_0) ==> (r matches Err(
                UnexpectedResponse::ConvertError(s),
            ) && s@ == channel_error_text()),
            forward_args_ok(
                m.forward_from,
                m.forward_from_chat,
                m.forward_from_message_id,
                m.forward_signature,
                m.forward_date,
            ) && reply_ok(m) && !has_kind(m) ==> (r matches Err(
                UnexpectedResponse::ConvertError(s),
            ) && s@ == no_kind_error_text()),
        decreases m,
    {
        let ghost m0 = m;
        let raw::message::Message {
            message_id,
            from,
            date,
            chat,
            forward_from,
            forward_from_chat,
            forward_from_message_id,
            forward_signature,
            forward_date,
            reply_to_message,
            edit_date,
            media_group_id,
            author_signature,
            text,
            entities,
            caption_entities,
            audio,
            document,
            animation,
            game,
            photo,
            sticker,
            video,
            voice,
            video_note,
            caption,
            contact,
            location,
            venue,
            new_chat_members,
            left_chat_member,
            new_chat_title,
            new_chat_photo,
            delete_chat_photo,
            group_chat_created,
            supergroup_chat_created,
            channel_chat_created,
            migrate_to_chat_id,
            migrate_from_chat_id,
            pinned_message,
            invoice,
            successful_payment,
            connected_website,
            passport_data,
        } = m;
        let forward = match try_into_forward(
            forward_from,
            forward_from_chat,
            forward_from_message_id,
            forward_signature,
            forward_date,
        ) {
            Ok(f) => f,
            Err(e) => { return Err(e); },
        };
        let reply = match reply_to_message {
            Some(boxed) => match Message::try_from(*boxed) {
                Ok(inner) => Some(Box::new(inner)),
                Err(e) => { return Err(e); },
            },
            None => None,
        };
        let caption_built = build_caption(caption, caption_entities);
        let kind = if let Some(text_val) = text {
            let entities_dom = convert_opt_entities(text_val.as_str(), &entities);
            MessageKind::Text { text: text_val, entities: entities_dom }
        } else if let Some(audio) = audio {
            MessageKind::Audio { audio }
        } else if let Some(document) = document {
            MessageKind::Document { document, caption: caption_built }
        } else if let Some(animation) = animation {
            MessageKind::Animation { animation, caption: caption_built }
        } else if let Some(game) = game {
            MessageKind::Game { game }
        } else if let Some(photo) = photo {
            MessageKind::Photo { photo, caption: caption_built, media_group_id }
        } else if let Some(sticker) = sticker {
            MessageKind::Sticker { sticker }
        } else if let Some(video) = video {
            MessageKind::Video { video, caption: caption_built, media_group_id }
        } else if let Some(voice) = voice {
            MessageKind::Voice { voice, caption: caption_built }
        } else if let Some(video_note) = video_note {
            MessageKind::VideoNote { video_note }
        } else if let Some(contact) = contact {
            MessageKind::Contact { contact }
        } else if let Some(location) = location {
            MessageKind::Location { location }
        } else if let Some(venue) = venue {
            MessageKind::Venue { venue }
        } else if let Some(members) = new_chat_members {
            MessageKind::NewChatMembers { members: convert_users(&members) }
        } else if let Some(member) = left_chat_member {
            MessageKind::LeftChatMember { member: User::from_raw(member) }
        } else if let Some(title) = new_chat_title {
            MessageKind::NewChatTitle { title }
        } else if let Some(photo) = new_chat_photo {
            MessageKind::NewChatPhoto { photo }
        } else if delete_chat_photo.is_some() {
            MessageKind::DeleteChatPhoto
        } else if group_chat_created.is_some() {
            MessageKind::GroupChatCreated
        } else if supergroup_chat_created.is_some() {
            MessageKind::SuperGroupChatCreated
        } else if channel_chat_created.is_some() {
            MessageKind::ChannelChatCreated
        } else if let Some(id) = migrate_to_chat_id {
            MessageKind::MigrateToChatId { id }
        } else if let Some(id) = migrate_from_chat_id {
            MessageKind::MigrateFromChatId { id }
        } else if let Some(pinned) = pinned_message {
            match Message::try_from(*pinned) {
                Ok(inner) => MessageKind::PinnedMessage { message: Box::new(inner) },
                Err(e) => { return Err(e); },
            }
        } else if let Some(invoice) = invoice {
            MessageKind::Invoice { invoice }
        } else if let Some(successful_payment) = successful_payment {
            MessageKind::SuccessfulPayment { successful_payment }
        } else if let Some(connected_website) = connected_website {
            MessageKind::ConnectedWebsite { connected_website }
        } else if let Some(passport_data) = passport_data {
            MessageKind::PassportData { passport_data }
        } else {
            return Err(
                UnexpectedResponse::ConvertError(
                    String::from_str(
                        "Tried all kind of messages. If this happens, probably there is bug in lib",
                    ),
                ),
            );
        };
        let from_dom = match try_into_message_from(from, chat, author_signature) {
            Ok(x) => x,
            Err(e) => { return Err(e); },
        };
        proof {
            assert(kind_matches(m0, kind)) by {
                reveal_with_fuel(kind_matches, 2);
            }
        }
        Ok(
            Message {
                id: message_id,
                date,
                from: from_dom,
                forward,
                edit_date,
                reply_to_message: reply,
                kind,
            },
        )
    }
}

} // verus!

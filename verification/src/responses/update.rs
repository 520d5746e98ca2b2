//! The domain value for one long-poll update: the wire-assigned
//! monotonic id plus exactly one converted kind.

use crate::error::UnexpectedResponse;
use crate::raw;
use crate::responses::message::message_converts;
use crate::responses::message::message_matches;
use crate::responses::message::Message;
use crate::responses::queries::callback_converts;
use crate::responses::queries::callback_matches;
use crate::responses::queries::CallbackQuery;
use vstd::prelude::*;

verus! {

#[derive(Debug, PartialEq)]
pub struct Update {
    pub id: i64,
    pub kind: UpdateKind,
}

/// The closed set of update kinds. Channel posts and their edits
/// arrive as plain messages.
#[derive(Debug, PartialEq)]
pub enum UpdateKind {
    Message(Message),
    EditedMessage(Message),
    InlineQuery(raw::queries::InlineQuery),
    ChosenInlineResult(raw::queries::ChosenInlineResult),
    CallbackQuery(CallbackQuery),
    ShippingQuery(raw::queries::ShippingQuery),
    PreCheckoutQuery(raw::queries::PreCheckoutQuery),
}

/// Some kind slot of the wire update is populated.
pub open spec fn update_has_kind(u: raw::update::Update) -> bool {
    ||| u.message is Some
    ||| u.edited_message is Some
    ||| u.channel_post is Some
    ||| u.edited_channel_post is Some
    ||| u.callback_query is Some
}

/// A wire update converts when a kind slot is populated and the
/// payload the priority order selects converts. The order is:
/// message, edited message, channel post, edited channel post,
/// callback query.
pub open spec fn update_converts(u: raw::update::Update) -> bool {
    if u.message is Some {
        message_converts(u.message->Some_0)
    } else if u.edited_message is Some {
        message_converts(u.edited_message->Some_0)
    } else if u.channel_post is Some {
        message_converts(u.channel_post->Some_0)
    } else if u.edited_channel_post is Some {
        message_converts(u.edited_channel_post->Some_0)
    } else if u.callback_query is Some {
        callback_converts(u.callback_query->Some_0)
    } else {
        false
    }
}

/// What domain update a wire update converts to: the id carried over
/// and the selected payload converted.
pub open spec fn update_matches(u: raw::update::Update, d: Update) -> bool {
    &&& d.id == u.update_id
    &&& if u.message is Some {
        d.kind matches UpdateKind::Message(m) && message_matches(u.message->Some_0, m)
    } else if u.edited_message is Some {
        d.kind matches UpdateKind::EditedMessage(m) && message_matches(u.edited_message->Some_0, m)
    } else if u.channel_post is Some {
        d.kind matches UpdateKind::Message(m) && message_matches(u.channel_post->Some_0, m)
    } else if u.edited_channel_post is Some {
        d.kind matches UpdateKind::Message(m) && message_matches(u.edited_channel_post->Some_0, m)
    } else if u.callback_query is Some {
        d.kind matches UpdateKind::CallbackQuery(q) && callback_matches(u.callback_query->Some_0, q)
    } else {
        false
    }
}

impl Update {
    /// Converts a wire update. Succeeds exactly when some kind slot is
    /// populated and the selected payload converts; an update with no
    /// populated slot is rejected as unsupported.
    pub fn try_from(update: raw::update::Update) -> (r: Result<Update, UnexpectedResponse>)
        ensures
            r is Ok <==> update_converts(update),
            r is Ok ==> update_matches(update, r->Ok_0),
            !update_has_kind(update) ==> r == Err::<Update, _>(UnexpectedResponse::Unsupported),
    {
        let raw::update::Update {
            update_id,
            message,
            edited_message,
            channel_post,
            edited_channel_post,
            callback_query,
        } = update;
        let kind = if let Some(msg) = message {
            match Message::try_from(msg) {
                Ok(m) => UpdateKind::Message(m),
                Err(e) => { return Err(e); },
            }
        } else if let Some(msg) = edited_message {
            match Message::try_from(msg) {
                Ok(m) => UpdateKind::EditedMessage(m),
                Err(e) => { return Err(e); },
            }
        } else if let Some(post) = channel_post {
            match Message::try_from(post) {
                Ok(m) => UpdateKind::Message(m),
                Err(e) => { return Err(e); },
            }
        } else if let Some(post) = edited_channel_post {
            match Message::try_from(post) {
                Ok(m) => UpdateKind::Message(m),
                Err(e) => { return Err(e); },
            }
        } else if let Some(query) = callback_query {
            match CallbackQuery::try_from(query) {
                Ok(q) => UpdateKind::CallbackQuery(q),
                Err(e) => { return Err(e); },
            }
        } else {
            return Err(UnexpectedResponse::Unsupported);
        };
        Ok(Update { id: update_id, kind })
    }
}

} // verus!

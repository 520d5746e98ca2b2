//! The domain value for a callback query: the one query kind whose
//! payload embeds a message and therefore needs conversion itself.

use crate::error::UnexpectedResponse;
use crate::raw;
use crate::responses::message::message_converts;
use crate::responses::message::message_matches;
use crate::responses::message::Message;
use crate::responses::user::user_value;
use crate::responses::user::User;
use vstd::prelude::*;

verus! {

#[derive(Debug, PartialEq)]
pub struct CallbackQuery {
    pub id: String,
    pub from: User,
    pub message: Option<Message>,
    pub inline_message_id: Option<String>,
    pub chat_instance: String,
    pub data: Option<String>,
    pub game_short_name: Option<String>,
}

/// A wire callback query converts when its embedded message (if any)
/// converts.
pub open spec fn callback_converts(q: raw::queries::CallbackQuery) -> bool {
    q.message matches Some(msg) ==> message_converts(msg)
}

/// What domain callback query a wire callback query converts to.
pub open spec fn callback_matches(q: raw::queries::CallbackQuery, d: CallbackQuery) -> bool {
    &&& d.id == q.id
    &&& d.from == user_value(q.from)
    &&& (match q.message {
        Some(msg) => d.message matches Some(dm) && message_matches(msg, dm),
        None => d.message is None,
    })
    &&& d.inline_message_id == q.inline_message_id
    &&& d.chat_instance == q.chat_instance
    &&& d.data == q.data
    &&& d.game_short_name == q.game_short_name
}

impl CallbackQuery {
    /// Converts a wire callback query. Succeeds exactly when the
    /// embedded message (if any) converts; every other field is
    /// carried over unchanged.
    pub fn try_from(q: raw::queries::CallbackQuery) -> (r: Result<
        CallbackQuery,
        UnexpectedResponse,
    >)
        ensures
            r is Ok <==> callback_converts(q),
            r is Ok ==> callback_matches(q, r->Ok_0),
    {
        let raw::queries::CallbackQuery {
            id,
            from,
            message,
            inline_message_id,
            chat_instance,
            data,
            game_short_name,
        } = q;
        let message = match message {
            Some(msg) => match Message::try_from(msg) {
                Ok(dm) => Some(dm),
                Err(e) => { return Err(e); },
            },
            None => None,
        };
        Ok(
            CallbackQuery {
                id,
                from: User::from_raw(from),
                message,
                inline_message_id,
                chat_instance,
                data,
                game_short_name,
            },
        )
    }
}

} // verus!

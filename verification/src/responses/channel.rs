//! The domain value for a channel identity, built from a wire chat
//! whose tag is `"channel"`.

use crate::error::UnexpectedResponse;
use crate::raw;
use crate::text::string_is;
use vstd::prelude::*;

verus! {

#[derive(Debug, Clone, PartialEq)]
pub struct Channel {
    pub id: i64,
    pub title: String,
    pub username: Option<String>,
}

/// A wire chat names a channel when its tag is `"channel"` and it
/// carries a title.
pub open spec fn channel_converts(c: raw::chat::Chat) -> bool {
    c.typ@ == "channel"@ && c.title is Some
}

/// The channel such a wire chat stands for.
pub open spec fn channel_value(c: raw::chat::Chat) -> Channel {
    Channel { id: c.id, title: c.title->Some_0, username: c.username }
}

/// The description carried by the error for a chat that is not a
/// channel.
pub open spec fn channel_error_text() -> Seq<char> {
    "Wrong chat. Excepted channel"@
}

impl Channel {
    /// Converts a wire chat into a channel identity. Succeeds exactly
    /// when the tag is `"channel"` and a title is present; any other
    /// chat is rejected with a conversion error naming the expectation.
    pub fn try_from(chat: raw::chat::Chat) -> (r: Result<Channel, UnexpectedResponse>)
        ensures
            r is Ok <==> channel_converts(chat),
            r is Ok ==> r->Ok_0 == channel_value(chat),
            !channel_converts(chat) ==> (r matches Err(UnexpectedResponse::ConvertError(s))
                && s@ == channel_error_text()),
    {
        if string_is(&chat.typ, "channel") {
            if let Some(title) = chat.title {
                return Ok(Channel { id: chat.id, title, username: chat.username });
            }
        }
        Err(UnexpectedResponse::ConvertError(String::from_str("Wrong chat. Excepted channel")))
    }
}

} // verus!

//! The domain value for a chat a message was sent in: a closed variant
//! over private chats, groups and supergroups, discriminated by the
//! wire `type` tag plus field presence.

use crate::error::UnexpectedResponse;
use crate::raw;
use crate::text::string_is;
use vstd::prelude::*;

verus! {

#[derive(Debug, Clone, PartialEq)]
pub struct Chat {
    pub id: i64,
    pub kind: ChatKind,
}

#[derive(Debug, Clone, PartialEq)]
pub enum ChatKind {
    Private { username: Option<String>, first_name: String, last_name: Option<String> },
    Group { title: String, all_members_are_administrators: bool },
    SuperGroup { title: String, username: Option<String> },
}

/// A wire chat converts when its tag is one of the three supported
/// ones and the fields that tag requires are present: `"private"`
/// requires a first name, `"group"` and `"supergroup"` require a
/// title.
pub open spec fn chat_converts(c: raw::chat::Chat) -> bool {
    ||| (c.typ@ == "private"@ && c.first_name is Some)
    ||| (c.typ@ == "group"@ && c.title is Some)
    ||| (c.typ@ == "supergroup"@ && c.title is Some)
}

/// The domain chat a convertible wire chat stands for. A group whose
/// admin flag is absent counts as not all-administrators.
pub open spec fn chat_value(c: raw::chat::Chat) -> Chat {
    if c.typ@ == "private"@ {
        Chat {
            id: c.id,
            kind: ChatKind::Private {
                username: c.username,
                first_name: c.first_name->Some_0,
                last_name: c.last_name,
            },
        }
    } else if c.typ@ == "group"@ {
        Chat {
            id: c.id,
            kind: ChatKind::Group {
                title: c.title->Some_0,
                all_members_are_administrators: c.all_members_are_administrators.unwrap_or(false),
            },
        }
    } else {
        Chat { id: c.id, kind: ChatKind::SuperGroup { title: c.title->Some_0, username: c.username } }
    }
}

/// The description carried by the error for an unsupported chat shape.
pub open spec fn chat_error_text() -> Seq<char> {
    "Wrong chat. Excepted one of this: private, group or supergroup"@
}

impl Chat {
    /// Converts a wire chat into a domain chat. Succeeds exactly when
    /// the tag/field combination is one of the three supported shapes,
    /// and then returns exactly the value that shape dictates.
    pub fn try_from(chat: raw::chat::Chat) -> (r: Result<Chat, UnexpectedResponse>)
        ensures
            r is Ok <==> chat_converts(chat),
            r is Ok ==> r->Ok_0 == chat_value(chat),
            !chat_converts(chat) ==> (r matches Err(UnexpectedResponse::ConvertError(s))
                && s@ == chat_error_text()),
    {
        proof {
            // The three tags are pairwise distinct; their differing
            // lengths are enough to tell them apart.
            reveal_strlit("private");
            reveal_strlit("group");
            reveal_strlit("supergroup");
            assert("private"@.len() == 7);
            assert("group"@.len() == 5);
            assert("supergroup"@.len() == 10);
        }
        if string_is(&chat.typ, "private") {
            if let Some(first_name) = chat.first_name {
                return Ok(Chat {
                    id: chat.id,
                    kind: ChatKind::Private {
                        username: chat.username,
                        first_name,
                        last_name: chat.last_name,
                    },
                });
            }
        } else if string_is(&chat.typ, "group") {
            if let Some(title) = chat.title {
                let all_members_are_administrators = match chat.all_members_are_administrators {
                    Some(flag) => flag,
                    None => false,
                };
                return Ok(Chat {
                    id: chat.id,
                    kind: ChatKind::Group { title, all_members_are_administrators },
                });
            }
        } else if string_is(&chat.typ, "supergroup") {
            if let Some(title) = chat.title {
                return Ok(Chat {
                    id: chat.id,
                    kind: ChatKind::SuperGroup { title, username: chat.username },
                });
            }
        }
        Err(UnexpectedResponse::ConvertError(
            String::from_str("Wrong chat. Excepted one of this: private, group or supergroup"),
        ))
    }
}

} // verus!

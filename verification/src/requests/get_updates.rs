//! The long-poll request: offset, batch limit, server-side hold
//! duration, and the update kinds subscribed to.

use vstd::prelude::*;

verus! {

#[derive(Debug, Clone, PartialEq)]
pub struct GetUpdatesRequest {
    pub offset: Option<i64>,
    pub limit: Option<u32>,
    pub timeout: Option<u32>,
    pub allowed_updates: Option<Vec<AllowedUpdate>>,
}

/// The update kinds a long poll can subscribe to.
#[derive(Debug, Clone, Copy, PartialEq, Eq)]
pub enum AllowedUpdate {
    Message,
    EditedMessage,
    ChannelPost,
    EditedChannelPost,
    InlineQuery,
    ChosenInlineResult,
    CallbackQuery,
    ShippingQuery,
    PreCheckoutQuery,
}

impl GetUpdatesRequest {
    /// A long-poll request with every knob left to the server's
    /// default.
    pub fn new() -> (r: GetUpdatesRequest)
        ensures
            r == (GetUpdatesRequest {
                offset: None,
                limit: None,
                timeout: None,
                allowed_updates: None,
            }),
    {
        GetUpdatesRequest { offset: None, limit: None, timeout: None, allowed_updates: None }
    }

    /// The remote method this request is posted to.
    pub fn method(&self) -> (r: &'static str)
        ensures
            r@ == "getUpdates"@,
    {
        "getUpdates"
    }
}

} // verus!

//! The answer to a callback query: an optional notification text,
//! shown as an alert if asked, or a URL to open.

use vstd::prelude::*;

verus! {

#[derive(Debug, Clone, PartialEq)]
pub struct AnswerCallbackQuery {
    pub callback_query_id: String,
    pub text: Option<String>,
    pub show_alert: bool,
    pub url: Option<String>,
    pub cache_time: Option<i32>,
}

impl AnswerCallbackQuery {
    /// The remote method this request is posted to.
    pub fn method(&self) -> (r: &'static str)
        ensures
            r@ == "answerCallbackQuery"@,
    {
        "answerCallbackQuery"
    }
}

} // verus!

//! The dispatch layer: every rule a remote call follows once its
//! response body has been decoded into the common envelope, plus the
//! timeout-race decision and the request URI shapes.
//!
//! The transport performs the HTTP round trip and the JSON decoding
//! outside the library; it hands these functions the decoded envelope
//! together with the raw response text, and they route it: a
//! successful envelope's payload is converted to a domain value, an
//! explicit remote error is surfaced verbatim, and anything else
//! becomes an unknown-response error carrying the raw text.

use crate::error::Error;
use crate::error::UnexpectedResponse;
use crate::raw;
use crate::raw::TgResponse;
use crate::responses::message::message_converts;
use crate::responses::message::message_matches;
use crate::responses::message::Message;
use crate::responses::update::update_converts;
use crate::responses::update::update_matches;
use crate::responses::update::Update;
use crate::responses::user::user_value;
use crate::responses::user::User;
use vstd::prelude::*;

verus! {

// ---------------------------------------------------------------------
// Envelope routing.
// ---------------------------------------------------------------------

/// The envelope reports success and carries a payload.
pub open spec fn envelope_success<T>(e: TgResponse<T>) -> bool {
    e.ok && e.result is Some
}

/// The envelope reports an explicit remote-API failure: `ok` is false
/// and both the code and the description are present.
pub open spec fn envelope_api_error<T>(e: TgResponse<T>) -> bool {
    !e.ok && e.description is Some && e.error_code is Some
}

/// Routes a decoded response envelope: the payload on success, the
/// remote error verbatim on an explicit failure, and an
/// unknown-response error carrying the raw text on anything else.
pub fn route_envelope<T>(e: TgResponse<T>, raw_body: String) -> (r: Result<T, Error>)
    ensures
        envelope_success(e) ==> r is Ok && r->Ok_0 == e.result->Some_0,
        !envelope_success(e) && envelope_api_error(e) ==> r == Err::<T, _>(
            Error::TelegramApi {
                error_code: e.error_code->Some_0,
                description: e.description->Some_0,
            },
        ),
        !envelope_success(e) && !envelope_api_error(e) ==> r == Err::<T, _>(
            Error::UnknownError(raw_body),
        ),
{
    match e {
        TgResponse { ok: true, result: Some(res), .. } => Ok(res),
        TgResponse { ok: false, description: Some(description), error_code: Some(error_code), .. } => Err(
            Error::TelegramApi { error_code, description },
        ),
        _ => Err(Error::UnknownError(raw_body)),
    }
}

// ---------------------------------------------------------------------
// Batch conversions used by the per-method result functions.
// ---------------------------------------------------------------------

/// Every wire update of the batch converts.
pub open spec fn updates_all_convert(v: Seq<raw::update::Update>) -> bool {
    forall|i: int| 0 <= i < v.len() ==> update_converts(#[trigger] v[i])
}

/// Element-wise update conversion, order kept.
pub open spec fn updates_match(raws: Seq<raw::update::Update>, doms: Seq<Update>) -> bool {
    &&& doms.len() == raws.len()
    &&& forall|i: int| 0 <= i < raws.len() ==> update_matches(raws[i], #[trigger] doms[i])
}

/// Converts a batch of wire updates in order, failing on the first
/// one that does not convert.
#[verifier::loop_isolation(false)]
pub fn convert_updates(v: Vec<raw::update::Update>) -> (r: Result<Vec<Update>, UnexpectedResponse>)
    ensures
        r is Ok <==> updates_all_convert(v@),
        r is Ok ==> updates_match(v@, r->Ok_0@),
{
    let ghost orig = v@;
    let mut rest = v;
    let total = rest.len();
    assert(orig.len() == total);
    let mut out: Vec<Update> = Vec::new();
    let mut i: usize = 0;
    while rest.len() > 0
        invariant
            i + rest@.len() == orig.len(),
            orig.len() <= usize::MAX,
            rest@ == orig.subrange(i as int, orig.len() as int),
            out@.len() == i,
            forall|j: int| 0 <= j < i ==> update_converts(#[trigger] orig[j]),
            forall|j: int| 0 <= j < i ==> update_matches(orig[j], #[trigger] out@[j]),
        decreases rest@.len(),
    {
        let u = rest.remove(0);
        assert(u == orig[i as int]);
        match Update::try_from(u) {
            Ok(d) => { out.push(d); },
            Err(e) => {
                proof {
                    assert((i as int) < orig.len());
                    assert(!update_converts(orig[i as int]));
                    assert(!updates_all_convert(orig));
                }
                return Err(e);
            },
        }
        i = i + 1;
    }
    Ok(out)
}

/// Every wire message of the batch converts.
pub open spec fn messages_all_convert(v: Seq<raw::message::Message>) -> bool {
    forall|i: int| 0 <= i < v.len() ==> message_converts(#[trigger] v[i])
}

/// Element-wise message conversion, order kept.
pub open spec fn messages_match(raws: Seq<raw::message::Message>, doms: Seq<Message>) -> bool {
    &&& doms.len() == raws.len()
    &&& forall|i: int| 0 <= i < raws.len() ==> message_matches(raws[i], #[trigger] doms[i])
}

/// Converts a batch of wire messages in order, failing on the first
/// one that does not convert.
#[verifier::loop_isolation(false)]
pub fn convert_messages(v: Vec<raw::message::Message>) -> (r: Result<
    Vec<Message>,
    UnexpectedResponse,
>)
    ensures
        r is Ok <==> messages_all_convert(v@),
        r is Ok ==> messages_match(v@, r->Ok_0@),
{
    let ghost orig = v@;
    let mut rest = v;
    let total = rest.len();
    assert(orig.len() == total);
    let mut out: Vec<Message> = Vec::new();
    let mut i: usize = 0;
    while rest.len() > 0
        invariant
            i + rest@.len() == orig.len(),
            orig.len() <= usize::MAX,
            rest@ == orig.subrange(i as int, orig.len() as int),
            out@.len() == i,
            forall|j: int| 0 <= j < i ==> message_converts(#[trigger] orig[j]),
            forall|j: int| 0 <= j < i ==> message_matches(orig[j], #[trigger] out@[j]),
        decreases rest@.len(),
    {
        let u = rest.remove(0);
        assert(u == orig[i as int]);
        match Message::try_from(u) {
            Ok(d) => { out.push(d); },
            Err(e) => {
                proof {
                    assert((i as int) < orig.len());
                    assert(!message_converts(orig[i as int]));
                    assert(!messages_all_convert(orig));
                }
                return Err(e);
            },
        }
        i = i + 1;
    }
    Ok(out)
}

// ---------------------------------------------------------------------
// Per-method result functions: route the envelope, convert the
// payload, and wrap a conversion failure with the raw response text.
// ---------------------------------------------------------------------

/// Completes a send-message call from its decoded envelope.
pub fn send_message_result(e: TgResponse<raw::message::Message>, raw_body: String) -> (r: Result<
    Message,
    Error,
>)
    ensures
        envelope_success(e) && message_converts(e.result->Some_0) ==> r is Ok && message_matches(
            e.result->Some_0,
            r->Ok_0,
        ),
        envelope_success(e) && !message_converts(e.result->Some_0) ==> (r matches Err(
            Error::UnexpectedResponse { raw_response, kind },
        ) && raw_response == raw_body),
        !envelope_success(e) && envelope_api_error(e) ==> r == Err::<Message, _>(
            Error::TelegramApi {
                error_code: e.error_code->Some_0,
                description: e.description->Some_0,
            },
        ),
        !envelope_success(e) && !envelope_api_error(e) ==> r == Err::<Message, _>(
            Error::UnknownError(raw_body),
        ),
{
    let body_copy = raw_body.clone();
    match route_envelope(e, raw_body) {
        Ok(msg) => match Message::try_from(msg) {
            Ok(d) => Ok(d),
            Err(kind) => Err(Error::UnexpectedResponse { raw_response: body_copy, kind }),
        },
        Err(err) => Err(err),
    }
}

/// Completes a fetch-updates call from its decoded envelope.
pub fn get_updates_result(e: TgResponse<Vec<raw::update::Update>>, raw_body: String) -> (r: Result<
    Vec<Update>,
    Error,
>)
    ensures
        envelope_success(e) && updates_all_convert(e.result->Some_0@) ==> r is Ok && updates_match(
            e.result->Some_0@,
            r->Ok_0@,
        ),
        envelope_success(e) && !updates_all_convert(e.result->Some_0@) ==> (r matches Err(
            Error::UnexpectedResponse { raw_response, kind },
        ) && raw_response == raw_body),
        !envelope_success(e) && envelope_api_error(e) ==> r == Err::<Vec<Update>, _>(
            Error::TelegramApi {
                error_code: e.error_code->Some_0,
                description: e.description->Some_0,
            },
        ),
        !envelope_success(e) && !envelope_api_error(e) ==> r == Err::<Vec<Update>, _>(
            Error::UnknownError(raw_body),
        ),
{
    let body_copy = raw_body.clone();
    match route_envelope(e, raw_body) {
        Ok(v) => match convert_updates(v) {
            Ok(d) => Ok(d),
            Err(kind) => Err(Error::UnexpectedResponse { raw_response: body_copy, kind }),
        },
        Err(err) => Err(err),
    }
}

/// Completes a send-media-group call from its decoded envelope.
pub fn send_media_group_result(e: TgResponse<Vec<raw::message::Message>>, raw_body: String) -> (r:
    Result<Vec<Message>, Error>)
    ensures
        envelope_success(e) && messages_all_convert(e.result->Some_0@) ==> r is Ok
            && messages_match(e.result->Some_0@, r->Ok_0@),
        envelope_success(e) && !messages_all_convert(e.result->Some_0@) ==> (r matches Err(
            Error::UnexpectedResponse { raw_response, kind },
        ) && raw_response == raw_body),
        !envelope_success(e) && envelope_api_error(e) ==> r == Err::<Vec<Message>, _>(
            Error::TelegramApi {
                error_code: e.error_code->Some_0,
                description: e.description->Some_0,
            },
        ),
        !envelope_success(e) && !envelope_api_error(e) ==> r == Err::<Vec<Message>, _>(
            Error::UnknownError(raw_body),
        ),
{
    let body_copy = raw_body.clone();
    match route_envelope(e, raw_body) {
        Ok(v) => match convert_messages(v) {
            Ok(d) => Ok(d),
            Err(kind) => Err(Error::UnexpectedResponse { raw_response: body_copy, kind }),
        },
        Err(err) => Err(err),
    }
}

/// Completes a call whose payload is a plain boolean flag (chat
/// actions, callback-query answers): routing alone, no conversion.
pub fn bool_result(e: TgResponse<bool>, raw_body: String) -> (r: Result<bool, Error>)
    ensures
        envelope_success(e) ==> r == Ok::<_, Error>(e.result->Some_0),
        !envelope_success(e) && envelope_api_error(e) ==> r == Err::<bool, _>(
            Error::TelegramApi {
                error_code: e.error_code->Some_0,
                description: e.description->Some_0,
            },
        ),
        !envelope_success(e) && !envelope_api_error(e) ==> r == Err::<bool, _>(
            Error::UnknownError(raw_body),
        ),
{
    route_envelope(e, raw_body)
}

/// Completes a who-am-I call from its decoded envelope.
pub fn get_me_result(e: TgResponse<raw::user::User>, raw_body: String) -> (r: Result<User, Error>)
    ensures
        envelope_success(e) ==> r == Ok::<_, Error>(user_value(e.result->Some_0)),
        !envelope_success(e) && envelope_api_error(e) ==> r == Err::<User, _>(
            Error::TelegramApi {
                error_code: e.error_code->Some_0,
                description: e.description->Some_0,
            },
        ),
        !envelope_success(e) && !envelope_api_error(e) ==> r == Err::<User, _>(
            Error::UnknownError(raw_body),
        ),
{
    match route_envelope(e, raw_body) {
        Ok(u) => Ok(User::from_raw(u)),
        Err(err) => Err(err),
    }
}

/// Completes a get-file call from its decoded envelope: the file
/// record passes through unchanged.
pub fn get_file_result(e: TgResponse<raw::message::File>, raw_body: String) -> (r: Result<
    raw::message::File,
    Error,
>)
    ensures
        envelope_success(e) ==> r == Ok::<_, Error>(e.result->Some_0),
        !envelope_success(e) && envelope_api_error(e) ==> r == Err::<raw::message::File, _>(
            Error::TelegramApi {
                error_code: e.error_code->Some_0,
                description: e.description->Some_0,
            },
        ),
        !envelope_success(e) && !envelope_api_error(e) ==> r == Err::<raw::message::File, _>(
            Error::UnknownError(raw_body),
        ),
{
    route_envelope(e, raw_body)
}

// ---------------------------------------------------------------------
// Download path, timeout race and budgets.
// ---------------------------------------------------------------------

/// The description carried by the error for a file record without a
/// path.
pub open spec fn file_not_found_text() -> Seq<char> {
    "File not found"@
}

/// Extracts the server-relative path from a get-file result: a file
/// record without a path cannot be downloaded.
pub fn file_download_path(file: raw::message::File) -> (r: Result<String, Error>)
    ensures
        file.file_path matches Some(p) ==> r == Ok::<_, Error>(p),
        file.file_path is None ==> (r matches Err(Error::UnknownError(s)) && s@
            == file_not_found_text()),
{
    match file.file_path {
        Some(path) => Ok(path),
        None => Err(Error::UnknownError(String::from_str("File not found"))),
    }
}

/// The outcome of racing a call against its deadline: whichever
/// resolved first. `None` means the deadline won.
pub fn race_result<T>(completed: Option<Result<T, Error>>, budget_secs: u64) -> (r: Result<
    T,
    Error,
>)
    ensures
        completed is None ==> r == Err::<T, _>(Error::TimedOut(budget_secs)),
        completed matches Some(x) ==> r == x,
{
    match completed {
        Some(outcome) => outcome,
        None => Err(Error::TimedOut(budget_secs)),
    }
}

/// The deadline of one long-poll call, in seconds: twice the
/// requested server-side hold, and never under ten seconds.
pub open spec fn poll_budget(timeout: Option<u32>) -> int {
    match timeout {
        Some(t) => if 2 * t > 10 {
            2 * t
        } else {
            10
        },
        None => 10,
    }
}

/// Computes the deadline of one long-poll call.
pub fn poll_call_budget(timeout: Option<u32>) -> (r: u64)
    ensures
        r == poll_budget(timeout),
{
    match timeout {
        Some(t) => {
            let doubled: u64 = 2 * (t as u64);
            if doubled > 10 {
                doubled
            } else {
                10
            }
        },
        None => 10,
    }
}

// ---------------------------------------------------------------------
// Request URIs.
// ---------------------------------------------------------------------

/// The prefix of every method-call URI.
pub open spec fn base_api_uri_text() -> Seq<char> {
    "https://api.telegram.org/bot"@
}

/// The prefix of every file-download URI.
pub open spec fn file_api_uri_text() -> Seq<char> {
    "https://api.telegram.org/file/bot"@
}

/// Builds the URI one method call is posted to:
/// `<base-uri><token>/<method>`.
pub fn request_uri(token: &str, method: &str) -> (r: String)
    ensures
        r@ == base_api_uri_text() + token@ + "/"@ + method@,
{
    let mut s = String::from_str("https://api.telegram.org/bot");
    s.append(token);
    s.append("/");
    s.append(method);
    s
}

/// Builds the URI a file is fetched from:
/// `<file-base-uri><token>/<file-path>`.
pub fn file_uri(token: &str, file_path: &str) -> (r: String)
    ensures
        r@ == file_api_uri_text() + token@ + "/"@ + file_path@,
{
    let mut s = String::from_str("https://api.telegram.org/file/bot");
    s.append(token);
    s.append("/");
    s.append(file_path);
    s
}

} // verus!

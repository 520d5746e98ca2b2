use tgbot::error::{Error, UnexpectedResponse};
use tgbot::text::{i32_to_decimal, u64_to_decimal};

#[test]
fn decimal_rendering_is_exact() {
    assert_eq!(u64_to_decimal(0), "0");
    assert_eq!(u64_to_decimal(7), "7");
    assert_eq!(u64_to_decimal(10), "10");
    assert_eq!(u64_to_decimal(905), "905");
    assert_eq!(u64_to_decimal(u64::MAX), "18446744073709551615");
    assert_eq!(i32_to_decimal(400), "400");
    assert_eq!(i32_to_decimal(-42), "-42");
    assert_eq!(i32_to_decimal(i32::MIN), "-2147483648");
}

#[test]
fn timeout_message_names_the_budget() {
    assert_eq!(
        Error::TimedOut(5).message(),
        "Request timed out. Provided budget: 5 seconds"
    );
}

#[test]
fn api_error_message_names_code_and_description() {
    let e = Error::TelegramApi { error_code: 400, description: "Bad Request".to_string() };
    assert_eq!(
        e.message(),
        "Error response from telegram bot api: error_code: 400, description: Bad Request"
    );
}

#[test]
fn conversion_error_message_attaches_raw_text() {
    let e = Error::UnexpectedResponse {
        raw_response: "{}".to_string(),
        kind: UnexpectedResponse::ConvertError("Wrong chat. Excepted channel".to_string()),
    };
    assert_eq!(
        e.message(),
        "Convert from raw data to data model. Wrong chat. Excepted channel. See raw_response:  {}"
    );
    let e = Error::UnexpectedResponse {
        raw_response: "[1]".to_string(),
        kind: UnexpectedResponse::Unsupported,
    };
    assert_eq!(e.message(), "Unsupported response. See raw_response: [1]");
}

#[test]
fn transport_and_unknown_messages() {
    assert_eq!(
        Error::Hyper("connection refused".to_string()).message(),
        "Hyper error has occurred: connection refused"
    );
    assert_eq!(
        Error::TokioTimer("shutdown".to_string()).message(),
        "Tokio timer error has occurred: shutdown"
    );
    assert_eq!(
        Error::Serde("expected value".to_string()).message(),
        "Serde error has occurred: expected value"
    );
    assert_eq!(
        Error::UnknownError("boom".to_string()).message(),
        "Unknown error has occurred: boom"
    );
}

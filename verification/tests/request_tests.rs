use tgbot::requests;
use tgbot::requests::answer_callback_query::AnswerCallbackQuery;
use tgbot::requests::chat_action::{ChatAction, SendChatAction};
use tgbot::requests::chat_id::ChatId;
use tgbot::requests::forward_message::ForwardMessageRequest;
use tgbot::requests::get_file::GetFileRequest;
use tgbot::requests::get_me::GetMe;
use tgbot::requests::get_updates::GetUpdatesRequest;
use tgbot::requests::send::{self, SendMessageKind as LegacySendKind};
use tgbot::requests::send_message::{
    FileKind, SendAnimation, SendAudio, SendContact, SendDocument, SendLocation,
    SendMessageKind, SendMessageRequest, SendPhoto, SendText, SendVenue, SendVideo,
    SendVideoNote, SendVoice,
};

#[test]
fn get_updates_request_starts_empty() {
    let r = GetUpdatesRequest::new();
    assert_eq!(r.offset, None);
    assert_eq!(r.limit, None);
    assert_eq!(r.timeout, None);
    assert_eq!(r.allowed_updates, None);
    assert_eq!(r.method(), "getUpdates");
}

#[test]
fn flat_get_updates_starts_empty() {
    let r = requests::GetUpdates::new();
    assert_eq!(r.offset, None);
    assert_eq!(r.limit, None);
    assert_eq!(r.timeout, None);
    assert!(r.allowed_updates.is_none());
}

#[test]
fn flat_send_message_keeps_chat_and_text() {
    let r = requests::SendMessage::new(requests::ChatId::Id(5), "hello".to_string());
    assert_eq!(r.chat_id, requests::ChatId::Id(5));
    assert_eq!(r.text, "hello");
    assert_eq!(r.parse_mode, None);
    assert_eq!(r.disable_web_page_preview, None);
    assert_eq!(r.disable_notification, None);
    assert_eq!(r.reply_to_message_id, None);
}

#[test]
fn simple_methods_have_their_names() {
    assert_eq!(GetMe.method(), "getMe");
    assert_eq!(GetFileRequest { file_id: "f".to_string() }.method(), "getFile");
    assert_eq!(
        ForwardMessageRequest {
            chat_id: ChatId::Id(1),
            from_chat_id: ChatId::Id(2),
            disable_notification: false,
            message_id: 3,
        }
        .method(),
        "forwardMessage"
    );
    assert_eq!(
        AnswerCallbackQuery {
            callback_query_id: "q".to_string(),
            text: None,
            show_alert: false,
            url: None,
            cache_time: None,
        }
        .method(),
        "answerCallbackQuery"
    );
    assert_eq!(
        SendChatAction { chat_id: ChatId::Id(1), action: ChatAction::Typing }.method(),
        "sendChatAction"
    );
}

#[test]
fn send_method_name_follows_payload() {
    let cases: Vec<(SendMessageKind, &str)> = vec![
        (SendMessageKind::Text(SendText::new("t".to_string())), "sendMessage"),
        (SendMessageKind::Photo(SendPhoto::new(FileKind::FileId("f".to_string()))), "sendPhoto"),
        (SendMessageKind::Audio(SendAudio::new(FileKind::FileId("f".to_string()))), "sendAudio"),
        (
            SendMessageKind::Document(SendDocument::new(FileKind::FileId("f".to_string()))),
            "sendDocument",
        ),
        (SendMessageKind::Video(SendVideo::new(FileKind::FileId("f".to_string()))), "sendVideo"),
        (
            SendMessageKind::Animation(SendAnimation::new(FileKind::FileId("f".to_string()))),
            "sendAnimation",
        ),
        (SendMessageKind::Voice(SendVoice::new(FileKind::FileId("f".to_string()))), "sendVoice"),
        (
            SendMessageKind::VideoNote(SendVideoNote::new(FileKind::FileId("f".to_string()))),
            "sendVideoNote",
        ),
        (
            SendMessageKind::Location(SendLocation::new(
                1065353216,  // 1.0f32 as bits
                3212836864,  // -1.0f32 as bits
            )),
            "sendLocation",
        ),
        (
            SendMessageKind::Venue(SendVenue::new(
                1065353216,
                3212836864,
                "V".to_string(),
                "addr".to_string(),
            )),
            "sendVenue",
        ),
        (
            SendMessageKind::Contact(SendContact::new("123".to_string(), "C".to_string())),
            "sendContact",
        ),
    ];
    for (kind, name) in cases {
        let r = SendMessageRequest::new(ChatId::Id(1), kind);
        assert_eq!(r.method(), name);
        assert_eq!(r.disable_notification, false);
        assert_eq!(r.reply_to_message_id, None);
        assert!(r.reply_markup.is_none());
    }
}

#[test]
fn location_bits_round_trip_through_f32() {
    let lat = 55.75_f32;
    let lon = 37.62_f32;
    let loc = SendLocation::new(lat.to_bits(), lon.to_bits());
    assert_eq!(f32::from_bits(loc.latitude), lat);
    assert_eq!(f32::from_bits(loc.longitude), lon);
    assert_eq!(loc.live_period, None);
}

#[test]
fn constructors_leave_options_unset() {
    let t = SendText::new("hello".to_string());
    assert_eq!(t.text, "hello");
    assert_eq!(t.parse_mode, None);
    assert_eq!(t.disable_web_page_preview, false);

    let a = SendAudio::new(FileKind::Url("https://a".to_string()));
    assert_eq!(a.caption, None);
    assert_eq!(a.duration, None);
    assert_eq!(a.performer, None);
    assert_eq!(a.title, None);

    let v = SendVideo::new(FileKind::FileId("v".to_string()));
    assert_eq!(v.supports_streaming, false);
    assert_eq!(v.duration, None);

    let c = SendContact::new("123".to_string(), "C".to_string());
    assert_eq!(c.phone_number, "123");
    assert_eq!(c.first_name, "C");
    assert_eq!(c.last_name, None);
    assert_eq!(c.vcard, None);
}

#[test]
fn legacy_send_request_maps_two_methods() {
    let text = send::SendMessageRequest::new(
        send::ChatId::Id(1),
        LegacySendKind::Text { text: "t".to_string(), parse_mode: None, disable_web_page_preview: None },
    );
    assert_eq!(text.method(), "sendMessage");
    assert_eq!(text.disable_notification, None);
    let audio = send::SendMessageRequest::new(
        send::ChatId::Username("u".to_string()),
        LegacySendKind::Audio {
            audio: send::File::FileId("f".to_string()),
            caption: None,
            parse_mode: None,
            duration: None,
            performer: None,
            title: None,
        },
    );
    assert_eq!(audio.method(), "sendAudio");
}

#[test]
fn media_group_method_name() {
    let r = tgbot::requests::send_media_group::SendMediaGroupRequest {
        chat_id: ChatId::Id(1),
        media: vec![],
        disable_notification: false,
        reply_to_message_id: None,
    };
    assert_eq!(r.method(), "sendMediaGroup");
}

use tgbot::error::UnexpectedResponse;
use tgbot::raw;
use tgbot::responses::channel::Channel;
use tgbot::responses::chat::{Chat, ChatKind};
use tgbot::responses::message::{
    Caption, Forward, ForwardFrom, Message, MessageEntity, MessageFrom, MessageKind,
    try_into_forward,
};
use tgbot::responses::update::{Update, UpdateKind};
use tgbot::responses::user::User;

fn base_chat(id: i64, typ: &str) -> raw::chat::Chat {
    raw::chat::Chat {
        id,
        typ: typ.to_string(),
        title: None,
        username: None,
        first_name: None,
        last_name: None,
        all_members_are_administrators: None,
        photo: None,
        description: None,
        invite_link: None,
        pinned_message: None,
        sticker_set_name: None,
        can_set_sticker_set: None,
    }
}

fn private_chat(id: i64, first_name: &str) -> raw::chat::Chat {
    let mut c = base_chat(id, "private");
    c.first_name = Some(first_name.to_string());
    c
}

fn channel_chat(id: i64, title: &str) -> raw::chat::Chat {
    let mut c = base_chat(id, "channel");
    c.title = Some(title.to_string());
    c
}

fn raw_user(id: i64, first_name: &str) -> raw::user::User {
    raw::user::User {
        id,
        is_bot: false,
        first_name: first_name.to_string(),
        last_name: None,
        username: None,
        language_code: None,
    }
}

fn base_message(chat: raw::chat::Chat) -> raw::message::Message {
    raw::message::Message {
        message_id: 1,
        from: None,
        date: 0,
        chat,
        forward_from: None,
        forward_from_chat: None,
        forward_from_message_id: None,
        forward_signature: None,
        forward_date: None,
        reply_to_message: None,
        edit_date: None,
        media_group_id: None,
        author_signature: None,
        text: None,
        entities: None,
        caption_entities: None,
        audio: None,
        document: None,
        animation: None,
        game: None,
        photo: None,
        sticker: None,
        video: None,
        voice: None,
        video_note: None,
        caption: None,
        contact: None,
        location: None,
        venue: None,
        new_chat_members: None,
        left_chat_member: None,
        new_chat_title: None,
        new_chat_photo: None,
        delete_chat_photo: None,
        group_chat_created: None,
        supergroup_chat_created: None,
        channel_chat_created: None,
        migrate_to_chat_id: None,
        migrate_from_chat_id: None,
        pinned_message: None,
        invoice: None,
        successful_payment: None,
        connected_website: None,
        passport_data: None,
    }
}

fn entity(typ: &str, offset: i64, length: i64) -> raw::message::MessageEntity {
    raw::message::MessageEntity {
        typ: typ.to_string(),
        offset,
        length,
        url: None,
        user: None,
    }
}

// --- chats ---

#[test]
fn supergroup_chat_converts() {
    let mut c = base_chat(5, "supergroup");
    c.title = Some("T".to_string());
    c.username = Some("u".to_string());
    let chat = Chat::try_from(c).unwrap();
    assert_eq!(
        chat,
        Chat {
            id: 5,
            kind: ChatKind::SuperGroup { title: "T".to_string(), username: Some("u".to_string()) },
        }
    );
}

#[test]
fn private_chat_converts() {
    let mut c = private_chat(1, "A");
    c.last_name = Some("B".to_string());
    let chat = Chat::try_from(c).unwrap();
    assert_eq!(
        chat,
        Chat {
            id: 1,
            kind: ChatKind::Private {
                username: None,
                first_name: "A".to_string(),
                last_name: Some("B".to_string()),
            },
        }
    );
}

#[test]
fn group_chat_admin_flag_defaults_to_false() {
    let mut c = base_chat(2, "group");
    c.title = Some("G".to_string());
    let chat = Chat::try_from(c).unwrap();
    assert_eq!(
        chat,
        Chat {
            id: 2,
            kind: ChatKind::Group {
                title: "G".to_string(),
                all_members_are_administrators: false,
            },
        }
    );
}

#[test]
fn unsupported_chat_type_is_rejected() {
    let c = base_chat(3, "channel");
    let err = Chat::try_from(c).unwrap_err();
    assert_eq!(
        err,
        UnexpectedResponse::ConvertError(
            "Wrong chat. Excepted one of this: private, group or supergroup".to_string()
        )
    );
}

#[test]
fn private_chat_without_first_name_is_rejected() {
    let c = base_chat(4, "private");
    assert!(Chat::try_from(c).is_err());
}

#[test]
fn channel_converts() {
    let mut c = channel_chat(9, "News");
    c.username = Some("news".to_string());
    let channel = Channel::try_from(c).unwrap();
    assert_eq!(
        channel,
        Channel { id: 9, title: "News".to_string(), username: Some("news".to_string()) }
    );
}

#[test]
fn channel_requires_channel_tag() {
    let err = Channel::try_from(private_chat(9, "A")).unwrap_err();
    assert_eq!(
        err,
        UnexpectedResponse::ConvertError("Wrong chat. Excepted channel".to_string())
    );
}

// --- forwards ---

#[test]
fn forward_from_user_tuple_converts() {
    let f = try_into_forward(Some(raw_user(7, "U")), None, None, None, Some(111)).unwrap();
    assert_eq!(
        f,
        Some(Forward {
            original_date: 111,
            from: ForwardFrom::User(User {
                id: 7,
                is_bot: false,
                first_name: "U".to_string(),
                last_name: None,
                username: None,
                language_code: None,
            }),
        })
    );
}

#[test]
fn forward_from_channel_tuple_converts() {
    let f = try_into_forward(
        None,
        Some(channel_chat(12, "C")),
        Some(44),
        Some("sig".to_string()),
        Some(222),
    )
    .unwrap();
    assert_eq!(
        f,
        Some(Forward {
            original_date: 222,
            from: ForwardFrom::Channel {
                channel: Channel { id: 12, title: "C".to_string(), username: None },
                original_message_id: 44,
                original_signature: Some("sig".to_string()),
            },
        })
    );
}

#[test]
fn absent_forward_tuple_converts_to_none() {
    assert_eq!(try_into_forward(None, None, None, None, None).unwrap(), None);
}

#[test]
fn bad_forward_combination_is_rejected() {
    // A user and a chat at once fits neither valid shape.
    let err = try_into_forward(
        Some(raw_user(7, "U")),
        Some(channel_chat(12, "C")),
        Some(44),
        None,
        Some(222),
    )
    .unwrap_err();
    assert_eq!(
        err,
        UnexpectedResponse::ConvertError(
            "Wrong forward arguments. Expected one of this: chat, id, sign, date or user"
                .to_string()
        )
    );
}

#[test]
fn forward_tuple_without_date_is_rejected() {
    let err = try_into_forward(Some(raw_user(7, "U")), None, None, None, None).unwrap_err();
    assert_eq!(
        err,
        UnexpectedResponse::ConvertError(
            "Wrong forward arguments. Expected one of this: chat, id, sign, date or user"
                .to_string()
        )
    );
}

// --- message kinds ---

#[test]
fn text_message_converts() {
    let mut m = base_message(private_chat(1, "A"));
    m.from = Some(raw_user(7, "U"));
    m.text = Some("hi".to_string());
    let d = Message::try_from(m).unwrap();
    assert!(matches!(d.kind, MessageKind::Text { ref text, entities: None } if text == "hi"));
}

#[test]
fn text_outranks_photo() {
    let mut m = base_message(private_chat(1, "A"));
    m.from = Some(raw_user(7, "U"));
    m.text = Some("caption-ish".to_string());
    m.photo = Some(vec![raw::message::PhotoSize {
        file_id: "p".to_string(),
        width: 1,
        height: 1,
        file_size: None,
    }]);
    let d = Message::try_from(m).unwrap();
    assert!(matches!(d.kind, MessageKind::Text { .. }));
}

#[test]
fn no_content_field_is_unsupported_kind() {
    let mut m = base_message(private_chat(1, "A"));
    m.from = Some(raw_user(7, "U"));
    let err = Message::try_from(m).unwrap_err();
    assert_eq!(
        err,
        UnexpectedResponse::ConvertError(
            "Tried all kind of messages. If this happens, probably there is bug in lib".to_string()
        )
    );
}

#[test]
fn contact_message_converts() {
    let mut m = base_message(private_chat(1, "A"));
    m.from = Some(raw_user(7, "U"));
    m.contact = Some(raw::message::Contact {
        phone_number: "123".to_string(),
        first_name: "C".to_string(),
        last_name: None,
        user_d: None,
        vcard: None,
    });
    let d = Message::try_from(m).unwrap();
    assert!(matches!(d.kind, MessageKind::Contact { ref contact } if contact.phone_number == "123"));
}

#[test]
fn delete_chat_photo_message_converts() {
    let mut m = base_message(private_chat(1, "A"));
    m.from = Some(raw_user(7, "U"));
    m.delete_chat_photo = Some(true);
    let d = Message::try_from(m).unwrap();
    assert_eq!(d.kind, MessageKind::DeleteChatPhoto);
}

#[test]
fn migrate_to_chat_id_message_converts() {
    let mut m = base_message(private_chat(1, "A"));
    m.from = Some(raw_user(7, "U"));
    m.migrate_to_chat_id = Some(42);
    let d = Message::try_from(m).unwrap();
    assert_eq!(d.kind, MessageKind::MigrateToChatId { id: 42 });
}

#[test]
fn pinned_message_converts_recursively() {
    let mut inner = base_message(private_chat(1, "A"));
    inner.from = Some(raw_user(7, "U"));
    inner.text = Some("pinned".to_string());
    let mut m = base_message(private_chat(1, "A"));
    m.from = Some(raw_user(7, "U"));
    m.pinned_message = Some(Box::new(inner));
    let d = Message::try_from(m).unwrap();
    match d.kind {
        MessageKind::PinnedMessage { message } => {
            assert!(
                matches!(message.kind, MessageKind::Text { ref text, .. } if text == "pinned")
            );
        }
        other => panic!("expected a pinned message, got {:?}", other),
    }
}

#[test]
fn channel_message_author_is_channel() {
    let mut m = base_message(channel_chat(12, "C"));
    m.text = Some("post".to_string());
    m.author_signature = Some("sig".to_string());
    let d = Message::try_from(m).unwrap();
    assert_eq!(
        d.from,
        MessageFrom::Channel {
            channel: Channel { id: 12, title: "C".to_string(), username: None },
            signature: Some("sig".to_string()),
        }
    );
}

#[test]
fn reply_converts_one_level() {
    let mut replied = base_message(private_chat(1, "A"));
    replied.from = Some(raw_user(7, "U"));
    replied.text = Some("original".to_string());
    let mut m = base_message(private_chat(1, "A"));
    m.from = Some(raw_user(7, "U"));
    m.text = Some("answer".to_string());
    m.reply_to_message = Some(Box::new(replied));
    let d = Message::try_from(m).unwrap();
    let reply = d.reply_to_message.expect("reply kept");
    assert!(matches!(reply.kind, MessageKind::Text { ref text, .. } if text == "original"));
}

// --- entities ---

#[test]
fn mention_entity_captures_substring() {
    let mut m = base_message(private_chat(1, "A"));
    m.from = Some(raw_user(7, "U"));
    m.text = Some("hi @bob !".to_string());
    m.entities = Some(vec![entity("mention", 3, 4)]);
    let d = Message::try_from(m).unwrap();
    match d.kind {
        MessageKind::Text { entities: Some(es), .. } => {
            assert_eq!(es, vec![MessageEntity::Mention("@bob".to_string())]);
        }
        other => panic!("expected text with entities, got {:?}", other),
    }
}

#[test]
fn unrecognized_entity_tag_degrades_to_unknown() {
    let mut m = base_message(private_chat(1, "A"));
    m.from = Some(raw_user(7, "U"));
    m.text = Some("spoiler here".to_string());
    m.entities = Some(vec![entity("spoiler", 0, 7)]);
    let d = Message::try_from(m).unwrap();
    match d.kind {
        MessageKind::Text { entities: Some(es), .. } => {
            assert_eq!(
                es,
                vec![MessageEntity::Unknown { typ: "spoiler".to_string(), offset: 0, length: 7 }]
            );
        }
        other => panic!("expected text with entities, got {:?}", other),
    }
}

#[test]
fn out_of_range_span_degrades_to_unknown() {
    let mut m = base_message(private_chat(1, "A"));
    m.from = Some(raw_user(7, "U"));
    m.text = Some("abc".to_string());
    m.entities = Some(vec![entity("bold", 1, 9)]);
    let d = Message::try_from(m).unwrap();
    match d.kind {
        MessageKind::Text { entities: Some(es), .. } => {
            assert_eq!(
                es,
                vec![MessageEntity::Unknown { typ: "bold".to_string(), offset: 1, length: 9 }]
            );
        }
        other => panic!("expected text with entities, got {:?}", other),
    }
}

#[test]
fn huge_or_negative_spans_degrade_to_unknown() {
    let mut m = base_message(private_chat(1, "A"));
    m.from = Some(raw_user(7, "U"));
    m.text = Some("abc".to_string());
    m.entities = Some(vec![entity("bold", i64::MAX, 1), entity("italic", -1, 2)]);
    let d = Message::try_from(m).unwrap();
    match d.kind {
        MessageKind::Text { entities: Some(es), .. } => {
            assert_eq!(
                es,
                vec![
                    MessageEntity::Unknown { typ: "bold".to_string(), offset: i64::MAX, length: 1 },
                    MessageEntity::Unknown { typ: "italic".to_string(), offset: -1, length: 2 },
                ]
            );
        }
        other => panic!("expected text with entities, got {:?}", other),
    }
}

#[test]
fn text_link_entity_keeps_url() {
    let mut e = entity("text_link", 0, 4);
    e.url = Some("https://example.org".to_string());
    let mut m = base_message(private_chat(1, "A"));
    m.from = Some(raw_user(7, "U"));
    m.text = Some("link text".to_string());
    m.entities = Some(vec![e]);
    let d = Message::try_from(m).unwrap();
    match d.kind {
        MessageKind::Text { entities: Some(es), .. } => {
            assert_eq!(
                es,
                vec![MessageEntity::TextLink {
                    text: "link".to_string(),
                    link: "https://example.org".to_string(),
                }]
            );
        }
        other => panic!("expected text with entities, got {:?}", other),
    }
}

#[test]
fn text_link_without_url_degrades_to_unknown() {
    let mut m = base_message(private_chat(1, "A"));
    m.from = Some(raw_user(7, "U"));
    m.text = Some("link text".to_string());
    m.entities = Some(vec![entity("text_link", 0, 4)]);
    let d = Message::try_from(m).unwrap();
    match d.kind {
        MessageKind::Text { entities: Some(es), .. } => {
            assert_eq!(
                es,
                vec![MessageEntity::Unknown { typ: "text_link".to_string(), offset: 0, length: 4 }]
            );
        }
        other => panic!("expected text with entities, got {:?}", other),
    }
}

#[test]
fn caption_entities_index_the_caption() {
    let mut m = base_message(private_chat(1, "A"));
    m.from = Some(raw_user(7, "U"));
    m.document = Some(raw::message::Document {
        file_id: "d".to_string(),
        thumb: None,
        file_name: None,
        mime_type: None,
        file_size: None,
    });
    m.caption = Some("see #tag now".to_string());
    m.caption_entities = Some(vec![entity("hashtag", 4, 4)]);
    let d = Message::try_from(m).unwrap();
    match d.kind {
        MessageKind::Document { caption: Some(Caption { caption, entities: Some(es) }), .. } => {
            assert_eq!(caption, "see #tag now".to_string());
            assert_eq!(es, vec![MessageEntity::Hashtag("#tag".to_string())]);
        }
        other => panic!("expected a captioned document, got {:?}", other),
    }
}

// --- updates ---

#[test]
fn update_with_text_message_converts() {
    let mut msg = base_message(private_chat(1, "A"));
    msg.message_id = 7;
    msg.from = Some(raw_user(3, "A"));
    msg.text = Some("hi".to_string());
    let u = raw::update::Update {
        update_id: 100,
        message: Some(msg),
        edited_message: None,
        channel_post: None,
        edited_channel_post: None,
        callback_query: None,
    };
    let d = Update::try_from(u).unwrap();
    assert_eq!(d.id, 100);
    match &d.kind {
        UpdateKind::Message(m) => {
            assert_eq!(m.id, 7);
            assert!(matches!(m.kind, MessageKind::Text { ref text, entities: None } if text == "hi"));
        }
        other => panic!("expected a message update, got {:?}", other),
    }
    // Acknowledging this update moves the next outgoing fetch to 101.
    let mut s = tgbot::stream::UpdatesStream::new(None);
    assert_eq!(s.on_fetch_success(vec![d]), Some(101));
}

#[test]
fn update_without_kind_is_unsupported() {
    let u = raw::update::Update {
        update_id: 1,
        message: None,
        edited_message: None,
        channel_post: None,
        edited_channel_post: None,
        callback_query: None,
    };
    assert_eq!(Update::try_from(u).unwrap_err(), UnexpectedResponse::Unsupported);
}

#[test]
fn callback_query_update_converts() {
    let q = raw::queries::CallbackQuery {
        id: "cb1".to_string(),
        from: raw_user(3, "A"),
        message: None,
        inline_message_id: None,
        chat_instance: "ci".to_string(),
        data: Some("payload".to_string()),
        game_short_name: None,
    };
    let u = raw::update::Update {
        update_id: 2,
        message: None,
        edited_message: None,
        channel_post: None,
        edited_channel_post: None,
        callback_query: Some(q),
    };
    let d = Update::try_from(u).unwrap();
    match d.kind {
        UpdateKind::CallbackQuery(cq) => {
            assert_eq!(cq.id, "cb1");
            assert_eq!(cq.data, Some("payload".to_string()));
            assert_eq!(cq.message, None);
        }
        other => panic!("expected a callback-query update, got {:?}", other),
    }
}

#[test]
fn edited_message_update_converts() {
    let mut msg = base_message(private_chat(1, "A"));
    msg.from = Some(raw_user(3, "A"));
    msg.text = Some("edited".to_string());
    let u = raw::update::Update {
        update_id: 3,
        message: None,
        edited_message: Some(msg),
        channel_post: None,
        edited_channel_post: None,
        callback_query: None,
    };
    let d = Update::try_from(u).unwrap();
    assert!(matches!(d.kind, UpdateKind::EditedMessage(_)));
}

use tgbot::responses::channel::Channel;
use tgbot::responses::message::{Message, MessageFrom, MessageKind};
use tgbot::responses::update::{Update, UpdateKind};
use tgbot::stream::{PollAction, UpdatesStream};

fn update(id: i64) -> Update {
    Update {
        id,
        kind: UpdateKind::Message(Message {
            id,
            date: 0,
            from: MessageFrom::Channel {
                channel: Channel { id: 1, title: "C".to_string(), username: None },
                signature: None,
            },
            forward: None,
            edit_date: None,
            reply_to_message: None,
            kind: MessageKind::DeleteChatPhoto,
        }),
    }
}

#[test]
fn offsets_follow_batch_maxima() {
    // Successful fetches with maximum ids 3 then 9: the next fetch
    // goes out at 4, then at 10.
    let mut s = UpdatesStream::new(None);
    let next = s.on_fetch_success(vec![update(1), update(2), update(3)]);
    assert_eq!(next, Some(4));
    // drain the buffer
    assert_eq!(s.next_action(), PollAction::Item(update(1)));
    assert_eq!(s.next_action(), PollAction::Item(update(2)));
    assert_eq!(s.next_action(), PollAction::Item(update(3)));
    let next = s.on_fetch_success(vec![update(7), update(9)]);
    assert_eq!(next, Some(10));
}

#[test]
fn first_update_sets_offset_past_it() {
    let mut s = UpdatesStream::new(None);
    let next = s.on_fetch_success(vec![update(100)]);
    assert_eq!(next, Some(101));
}

#[test]
fn empty_batch_keeps_offset() {
    let mut s = UpdatesStream::new(Some(42));
    let next = s.on_fetch_success(vec![]);
    assert_eq!(next, Some(42));
}

#[test]
fn stale_ids_still_move_offset_forward() {
    // A batch whose ids sit below the current offset still advances
    // it by one past the seed, never backwards.
    let mut s = UpdatesStream::new(Some(10));
    let next = s.on_fetch_success(vec![update(3)]);
    assert_eq!(next, Some(11));
}

#[test]
fn error_preserves_position() {
    // A failed fetch at offset 5 leaves the next fetch at 5, not 6.
    let mut s = UpdatesStream::new(Some(5));
    s.on_fetch_error();
    assert_eq!(s.last_id, Some(5));
    assert_eq!(s.next_action(), PollAction::RestartFetch(Some(5)));
    // The flag is consumed: the following pull simply awaits.
    assert_eq!(s.next_action(), PollAction::AwaitFetch);
}

#[test]
fn error_then_success_resumes_from_same_window() {
    let mut s = UpdatesStream::new(None);
    let next = s.on_fetch_success(vec![update(1)]);
    assert_eq!(next, Some(2));
    s.on_fetch_error();
    assert_eq!(s.next_action(), PollAction::Item(update(1)));
    assert_eq!(s.next_action(), PollAction::RestartFetch(Some(2)));
    let next = s.on_fetch_success(vec![update(2)]);
    assert_eq!(next, Some(3));
}

#[test]
fn buffered_items_come_out_in_order() {
    let mut s = UpdatesStream::new(None);
    s.on_fetch_success(vec![update(5), update(6)]);
    assert_eq!(s.next_action(), PollAction::Item(update(5)));
    assert_eq!(s.next_action(), PollAction::Item(update(6)));
    assert_eq!(s.next_action(), PollAction::AwaitFetch);
}

#[test]
fn canceled_stream_is_inert() {
    let mut s = UpdatesStream::new(None);
    s.on_fetch_success(vec![update(1)]);
    s.cancel();
    // Even with a buffered item and a pending error, a canceled
    // stream only reports the end of the sequence.
    s.on_fetch_error();
    assert_eq!(s.next_action(), PollAction::Finished);
    assert_eq!(s.next_action(), PollAction::Finished);
}

use you_com::{Chat, ChatMessage, ChatResponseStream, Error};

fn message(question: &str, answer: &str) -> ChatMessage {
    ChatMessage::new(question.to_string(), answer.to_string())
}

fn chat_with(messages: Vec<ChatMessage>) -> Chat {
    let mut chat = Chat::new();
    let mut handle = chat.try_acquire_write().unwrap();
    for message in messages {
        handle.push(message);
    }
    chat.release_write(handle);
    chat
}

#[test]
fn new_chat_is_empty_and_free() {
    let chat = Chat::new();
    assert_eq!(chat.len(), Ok(0));
    assert!(!chat.is_writing());
    assert_eq!(chat.get(0), Err(Error::IndexOutOfRange));
    assert_eq!(chat.get(-1), Err(Error::IndexOutOfRange));
}

#[test]
fn get_counts_from_both_ends() {
    let chat = chat_with(vec![message("q0", "a0"), message("q1", "a1"), message("q2", "a2")]);
    assert_eq!(chat.len(), Ok(3));
    assert_eq!(chat.get(0), Ok(message("q0", "a0")));
    assert_eq!(chat.get(2), Ok(message("q2", "a2")));
    assert_eq!(chat.get(-1), Ok(message("q2", "a2")));
    assert_eq!(chat.get(-2), Ok(message("q1", "a1")));
    assert_eq!(chat.get(-3), Ok(message("q0", "a0")));
}

#[test]
fn get_rejects_indices_outside_the_history() {
    let chat = chat_with(vec![message("q0", "a0"), message("q1", "a1"), message("q2", "a2")]);
    assert_eq!(chat.get(3), Err(Error::IndexOutOfRange));
    assert_eq!(chat.get(-4), Err(Error::IndexOutOfRange));
    assert_eq!(chat.get(isize::MAX), Err(Error::IndexOutOfRange));
    assert_eq!(chat.get(isize::MIN), Err(Error::IndexOutOfRange));
}

#[test]
fn last_message_is_the_one_appended_last() {
    let mut chat = chat_with(vec![message("first", "1")]);
    assert_eq!(chat.get(-1), Ok(message("first", "1")));
    let mut handle = chat.try_acquire_write().unwrap();
    handle.push(message("second", "2"));
    chat.release_write(handle);
    assert_eq!(chat.get(-1), Ok(message("second", "2")));
    assert_eq!(chat.get(0), Ok(message("first", "1")));
}

#[test]
fn held_writer_makes_everything_busy() {
    let mut chat = chat_with(vec![message("q", "a")]);
    let handle = chat.try_acquire_write().unwrap();
    assert!(chat.is_writing());
    assert!(chat.try_acquire_write().is_none());
    assert!(chat.try_read().is_none());
    assert_eq!(chat.len(), Err(Error::Busy));
    assert_eq!(chat.get(0), Err(Error::Busy));
    assert_eq!(chat.get(7), Err(Error::Busy));
    assert_eq!(chat.to_text(), "Chat(<chat is busy>)");
    assert_eq!(
        chat.send_message("again".to_string(), Ok(ChatResponseStream::empty())),
        Err(Error::Busy)
    );
    assert_eq!(handle.messages().len(), 1);
    assert_eq!(handle.messages()[0], message("q", "a"));
    chat.release_write(handle);
    assert!(!chat.is_writing());
    assert_eq!(chat.len(), Ok(1));
}

#[test]
fn held_reader_keeps_writers_out_but_not_readers() {
    let mut chat = chat_with(vec![message("q", "a")]);
    let first = chat.try_read().unwrap();
    let second = chat.try_read().unwrap();
    assert!(chat.try_acquire_write().is_none());
    assert_eq!(chat.begin("x".to_string()).err(), Some(Error::Busy));
    assert_eq!(chat.len(), Ok(1));
    assert_eq!(chat.get(-1), Ok(message("q", "a")));
    chat.release_read(first);
    assert!(chat.try_acquire_write().is_none());
    chat.release_read(second);
    let handle = chat.try_acquire_write();
    assert!(handle.is_some());
}

#[test]
fn stray_write_handle_changes_nothing() {
    let mut donor = chat_with(vec![message("x", "y")]);
    let stray = donor.try_acquire_write().unwrap();
    let mut chat = chat_with(vec![message("q", "a")]);
    chat.release_write(stray);
    assert_eq!(chat.len(), Ok(1));
    assert_eq!(chat.get(0), Ok(message("q", "a")));
}

#[test]
fn extra_release_of_a_reader_changes_nothing() {
    let mut donor = Chat::new();
    let stray = donor.try_read().unwrap();
    let mut chat = Chat::new();
    chat.release_read(stray);
    assert!(chat.try_acquire_write().is_some());
}

#[test]
fn chat_text_lists_the_messages() {
    assert_eq!(Chat::new().to_text(), "Chat(messages=[])");
    let chat = chat_with(vec![message("Hi", "Yo"), message("say \"x\"", "line\nbreak")]);
    assert_eq!(
        chat.to_text(),
        "Chat(messages=[ChatMessage { question: \"Hi\", answer: \"Yo\" }, \
         ChatMessage { question: \"say \\\"x\\\"\", answer: \"line\\nbreak\" }])"
    );
}

#[test]
fn message_text_shows_both_texts() {
    let made = message("Hi \"there\"", "Yo");
    assert_eq!(made.question(), "Hi \"there\"");
    assert_eq!(made.answer(), "Yo");
    assert_eq!(made.to_text(), "ChatMessage(question=\"Hi \"there\"\", answer=\"Yo\")");
    assert_eq!(made.duplicate(), made);
}

#[test]
fn error_messages() {
    assert_eq!(Error::Transport.message(), "transport failure");
    assert_eq!(Error::Json.message(), "json error");
    assert_eq!(Error::InvalidSseEvent.message(), "invalid sse event");
    assert_eq!(Error::InvalidJsonEventData.message(), "invalid JSON event data");
    assert_eq!(Error::SseEventMissingData.message(), "sse event missing data");
    assert_eq!(Error::InvalidUrl.message(), "invalid url");
    assert_eq!(Error::Busy.message(), "chat is busy");
    assert_eq!(Error::IndexOutOfRange.message(), "message index out of range");
}

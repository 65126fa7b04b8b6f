use you_com::model::RawFrame;
use you_com::stream::{step, Step};
use you_com::{ChatEvent, ChatResponseStream, Error};

fn token(fragment: &str) -> Result<RawFrame, Error> {
    let payload = format!("{{\"youChatToken\":{}}}", serde_json::to_string(fragment).unwrap());
    Ok(RawFrame::new(Some("youChatToken".to_string()), Some(payload)))
}

fn done() -> Result<RawFrame, Error> {
    Ok(RawFrame::new(Some("done".to_string()), Some("I'm Mr. Meeseeks. Look at me.".to_string())))
}

fn unknown() -> Result<RawFrame, Error> {
    Ok(RawFrame::new(Some("youChatSerpResults".to_string()), Some("{}".to_string())))
}

fn token_event(fragment: &str) -> Option<Result<ChatEvent, Error>> {
    Some(Ok(ChatEvent::Token { token: fragment.to_string() }))
}

#[test]
fn collect_answer_joins_tokens_and_then_is_empty() {
    let mut stream = ChatResponseStream::new(vec![token("He"), token("llo"), done()]);
    assert_eq!(stream.collect_answer(), Ok("Hello".to_string()));
    assert_eq!(stream.collect_answer(), Ok(String::new()));
}

#[test]
fn collect_answer_on_no_frames_is_empty() {
    assert_eq!(ChatResponseStream::empty().collect_answer(), Ok(String::new()));
    assert_eq!(ChatResponseStream::new(Vec::new()).collect_answer(), Ok(String::new()));
}

#[test]
fn next_yields_events_in_frame_order() {
    let mut stream = ChatResponseStream::new(vec![token("a"), unknown(), token("b"), done()]);
    assert_eq!(stream.pending(), 4);
    assert_eq!(stream.next(), token_event("a"));
    assert_eq!(stream.pending(), 3);
    assert_eq!(stream.next(), token_event("b"));
    assert_eq!(stream.pending(), 1);
    assert_eq!(
        stream.next(),
        Some(Ok(ChatEvent::Done { text: "I'm Mr. Meeseeks. Look at me.".to_string() }))
    );
    assert_eq!(stream.next(), None);
    assert_eq!(stream.next(), None);
}

#[test]
fn unknown_labels_between_tokens_are_skipped() {
    let mut stream = ChatResponseStream::new(vec![token("a"), unknown(), token("b"), done()]);
    assert_eq!(stream.collect_answer(), Ok("ab".to_string()));
}

#[test]
fn trailing_unknown_frames_end_the_stream() {
    let mut stream = ChatResponseStream::new(vec![unknown(), unknown()]);
    assert_eq!(stream.next(), None);
    assert_eq!(stream.pending(), 0);
}

#[test]
fn missing_payload_ends_the_stream() {
    let missing = Ok(RawFrame::new(Some("youChatToken".to_string()), None));
    let mut stream = ChatResponseStream::new(vec![token("a"), missing, token("b"), done()]);
    assert_eq!(stream.next(), token_event("a"));
    assert_eq!(stream.next(), Some(Err(Error::SseEventMissingData)));
    assert_eq!(stream.pending(), 0);
    assert_eq!(stream.next(), None);
}

#[test]
fn collect_answer_stops_at_missing_payload() {
    let missing = Ok(RawFrame::new(Some("youChatToken".to_string()), None));
    let mut stream = ChatResponseStream::new(vec![token("a"), missing, token("b")]);
    assert_eq!(stream.collect_answer(), Err(Error::SseEventMissingData));
    assert_eq!(stream.collect_answer(), Ok(String::new()));
}

#[test]
fn framing_error_is_handed_on_and_ends_the_stream() {
    let mut stream =
        ChatResponseStream::new(vec![token("a"), Err(Error::InvalidSseEvent), token("b")]);
    assert_eq!(stream.next(), token_event("a"));
    assert_eq!(stream.next(), Some(Err(Error::InvalidSseEvent)));
    assert_eq!(stream.next(), None);
}

#[test]
fn transport_error_inside_the_body_is_handed_on() {
    let mut stream = ChatResponseStream::new(vec![token("a"), Err(Error::Transport)]);
    assert_eq!(stream.collect_answer(), Err(Error::Transport));
}

#[test]
fn malformed_payload_ends_the_stream() {
    let bad = Ok(RawFrame::new(Some("youChatToken".to_string()), Some("[1]".to_string())));
    let mut stream = ChatResponseStream::new(vec![bad, token("b")]);
    assert_eq!(stream.next(), Some(Err(Error::InvalidJsonEventData)));
    assert_eq!(stream.next(), None);
}

#[test]
fn step_decides_each_pull() {
    assert_eq!(step(None), Step::End);
    assert_eq!(step(Some(Err(Error::InvalidSseEvent))), Step::Fail(Error::InvalidSseEvent));
    assert_eq!(step(Some(unknown())), Step::Skip);
    assert_eq!(step(Some(token("t"))), Step::Yield(ChatEvent::Token { token: "t".to_string() }));
    assert_eq!(
        step(Some(Ok(RawFrame::new(Some("done".to_string()), None)))),
        Step::Fail(Error::SseEventMissingData)
    );
}

use you_com::classify::{classify, route, token_event, Route};
use you_com::json::{quote, read_string_member};
use you_com::model::RawFrame;
use you_com::{ChatEvent, Error};

fn frame(event: Option<&str>, data: Option<&str>) -> RawFrame {
    RawFrame::new(event.map(str::to_string), data.map(str::to_string))
}

#[test]
fn token_frame_yields_its_fragment() {
    let outcome = classify(frame(Some("youChatToken"), Some("{\"youChatToken\":\"Hel\"}")));
    assert_eq!(outcome, Some(Ok(ChatEvent::Token { token: "Hel".to_string() })));
}

#[test]
fn token_fragment_is_unescaped() {
    let outcome = classify(frame(
        Some("youChatToken"),
        Some("{\"youChatToken\":\"a\\n\\\"b\\\" \\u00e9\"}"),
    ));
    assert_eq!(outcome, Some(Ok(ChatEvent::Token { token: "a\n\"b\" \u{e9}".to_string() })));
}

#[test]
fn token_payload_may_hold_other_members() {
    let outcome = classify(frame(
        Some("youChatToken"),
        Some("{\"n\": 1, \"youChatToken\": \" there\", \"more\": [true, null]}"),
    ));
    assert_eq!(outcome, Some(Ok(ChatEvent::Token { token: " there".to_string() })));
}

#[test]
fn token_frame_without_payload_is_missing_data() {
    assert_eq!(classify(frame(Some("youChatToken"), None)), Some(Err(Error::SseEventMissingData)));
}

#[test]
fn done_frame_without_payload_is_missing_data() {
    assert_eq!(classify(frame(Some("done"), None)), Some(Err(Error::SseEventMissingData)));
}

#[test]
fn done_frame_keeps_its_payload_as_it_is() {
    let outcome = classify(frame(Some("done"), Some("{not json")));
    assert_eq!(outcome, Some(Ok(ChatEvent::Done { text: "{not json".to_string() })));
}

#[test]
fn malformed_token_payloads_are_invalid_json_event_data() {
    let payloads = [
        "",
        "{",
        "not json",
        "\"youChatToken\"",
        "[\"Hel\"]",
        "{}",
        "{\"youChatToken\":1}",
        "{\"youChatToken\":null}",
        "{\"youchattoken\":\"x\"}",
        "{\"youChatToken\":\"x\"} trailing",
    ];
    for payload in payloads {
        assert_eq!(
            classify(frame(Some("youChatToken"), Some(payload))),
            Some(Err(Error::InvalidJsonEventData)),
            "payload {payload:?}"
        );
    }
}

#[test]
fn other_labels_and_no_label_are_skipped() {
    assert_eq!(classify(frame(Some("youChatUpdate"), Some("{}"))), None);
    assert_eq!(classify(frame(Some("YouChatToken"), Some("{\"youChatToken\":\"x\"}"))), None);
    assert_eq!(classify(frame(Some(""), None)), None);
    assert_eq!(classify(frame(None, Some("{\"youChatToken\":\"x\"}"))), None);
    assert_eq!(classify(frame(None, None)), None);
}

#[test]
fn route_goes_by_label_and_payload() {
    assert_eq!(
        route(frame(Some("youChatToken"), Some("{"))),
        Route::TokenPayload { data: "{".to_string() }
    );
    assert_eq!(route(frame(Some("done"), Some("bye"))), Route::Done { text: "bye".to_string() });
    assert_eq!(route(frame(Some("youChatToken"), None)), Route::MissingPayload);
    assert_eq!(route(frame(Some("done"), None)), Route::MissingPayload);
    assert_eq!(route(frame(Some("intents"), Some("x"))), Route::Skip);
    assert_eq!(route(frame(None, Some("x"))), Route::Skip);
}

#[test]
fn token_event_wraps_the_fragment() {
    assert_eq!(
        token_event(Ok("abc".to_string())),
        Ok(ChatEvent::Token { token: "abc".to_string() })
    );
    assert_eq!(
        token_event(Err(Error::InvalidJsonEventData)),
        Err(Error::InvalidJsonEventData)
    );
}

#[test]
fn read_string_member_finds_top_level_strings_only() {
    assert_eq!(read_string_member("{\"a\":\"x\",\"b\":2}", "a"), Ok("x".to_string()));
    assert_eq!(read_string_member("{\"a\":\"x\",\"b\":2}", "b"), Err(Error::InvalidJsonEventData));
    assert_eq!(read_string_member("{\"a\":\"x\",\"b\":2}", "c"), Err(Error::InvalidJsonEventData));
    assert_eq!(read_string_member("{\"o\":{\"a\":\"x\"}}", "a"), Err(Error::InvalidJsonEventData));
    assert_eq!(read_string_member("\"a\"", "a"), Err(Error::InvalidJsonEventData));
}

#[test]
fn quote_writes_a_json_string_literal() {
    assert_eq!(quote("plain"), Ok("\"plain\"".to_string()));
    assert_eq!(quote(""), Ok("\"\"".to_string()));
    assert_eq!(quote("a\"b\\c\nd"), Ok("\"a\\\"b\\\\c\\nd\"".to_string()));
}

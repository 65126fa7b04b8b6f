use you_com::client::ChatRequest;
use you_com::request::{build_address, build_headers, build_query, encode_history, ENDPOINT};
use you_com::{ChatMessage, Client, Error};

fn pair(name: &str, value: &str) -> (String, String) {
    (name.to_string(), value.to_string())
}

fn message(question: &str, answer: &str) -> ChatMessage {
    ChatMessage::new(question.to_string(), answer.to_string())
}

#[test]
fn empty_history_encodes_as_empty_array() {
    assert_eq!(encode_history(&[]), Ok("[]".to_string()));
}

#[test]
fn history_encodes_in_chronological_order() {
    let chat = vec![message("Hi", "Yo"), message("2+2?", "4")];
    assert_eq!(
        encode_history(&chat),
        Ok("[{\"question\":\"Hi\",\"answer\":\"Yo\"},{\"question\":\"2+2?\",\"answer\":\"4\"}]"
            .to_string())
    );
}

#[test]
fn history_texts_are_escaped() {
    let chat = vec![message("say \"hi\"", "line\nbreak \\ tab\t")];
    assert_eq!(
        encode_history(&chat),
        Ok("[{\"question\":\"say \\\"hi\\\"\",\"answer\":\"line\\nbreak \\\\ tab\\t\"}]"
            .to_string())
    );
}

#[test]
fn encoded_history_reads_back_with_serde_json() {
    let chat = vec![message("a\u{1F600}", "b\u{0}c"), message("", "")];
    let text = encode_history(&chat).unwrap();
    let value: serde_json::Value = serde_json::from_str(&text).unwrap();
    let items = value.as_array().unwrap();
    assert_eq!(items.len(), 2);
    assert_eq!(items[0].get("question").unwrap().as_str(), Some("a\u{1F600}"));
    assert_eq!(items[0].get("answer").unwrap().as_str(), Some("b\u{0}c"));
    assert_eq!(items[1].get("question").unwrap().as_str(), Some(""));
    assert_eq!(items[1].as_object().unwrap().len(), 2);
}

#[test]
fn query_holds_the_protocol_parameters_in_order() {
    assert_eq!(
        build_query("What?", 3, "[]"),
        vec![
            pair("q", "What?"),
            pair("page", "1"),
            pair("count", "10"),
            pair("safeSearch", "Off"),
            pair("mkt", "en-US"),
            pair("domain", "youchat"),
            pair("use_personalization_extraction", "true"),
            pair("pastChatLength", "3"),
            pair("selectedChatMode", "default"),
            pair("chat", "[]"),
        ]
    );
}

#[test]
fn past_chat_length_is_written_in_decimal() {
    assert_eq!(build_query("", 0, "")[7], pair("pastChatLength", "0"));
    assert_eq!(build_query("", 9, "")[7], pair("pastChatLength", "9"));
    assert_eq!(build_query("", 10, "")[7], pair("pastChatLength", "10"));
    assert_eq!(build_query("", 1234567890, "")[7], pair("pastChatLength", "1234567890"));
    assert_eq!(
        build_query("", usize::MAX, "")[7],
        pair("pastChatLength", &format!("{}", usize::MAX))
    );
}

#[test]
fn headers_are_sent_in_a_fixed_order() {
    assert_eq!(
        build_headers(),
        vec![
            pair("host", "you.com"),
            pair("accept", "text/event-stream"),
            pair("accept-language", "en-US,en;q=0.9"),
            pair("cache-control", "no-cache"),
            pair("referer", "https://you.com/search?fromSearchBar=true&tbm=youchat"),
            pair("connection", "keep-alive"),
            pair("Pragma", "no-cache"),
            pair("Sec-Fetch-Dest", "empty"),
            pair("Sec-Fetch-Mode", "cors"),
            pair("Sec-Fetch-Site", "same-origin"),
        ]
    );
}

#[test]
fn address_of_a_first_question() {
    assert_eq!(ENDPOINT, "https://you.com/api/streamingSearch");
    assert_eq!(
        build_address("Hello, How are you?", &[]),
        Ok("https://you.com/api/streamingSearch?q=Hello%2C+How+are+you%3F&page=1&count=10\
            &safeSearch=Off&mkt=en-US&domain=youchat&use_personalization_extraction=true\
            &pastChatLength=0&selectedChatMode=default&chat=%5B%5D"
            .to_string())
    );
}

#[test]
fn address_carries_the_history() {
    let chat = vec![message("Hi", "Yo")];
    assert_eq!(
        build_address("What was my first message?", &chat),
        Ok("https://you.com/api/streamingSearch?q=What+was+my+first+message%3F&page=1&count=10\
            &safeSearch=Off&mkt=en-US&domain=youchat&use_personalization_extraction=true\
            &pastChatLength=1&selectedChatMode=default\
            &chat=%5B%7B%22question%22%3A%22Hi%22%2C%22answer%22%3A%22Yo%22%7D%5D"
            .to_string())
    );
}

#[test]
fn client_builds_the_whole_request() {
    let client = Client::new();
    assert_eq!(
        client.default_headers,
        vec![
            pair(
                "user-agent",
                "Mozilla/5.0 (Windows NT 10.0; Win64; x64) AppleWebKit/537.36 (KHTML, like Gecko) Chrome/128.0.0.0 Safari/537.36"
            ),
            pair("accept-language", "en-US,en;q=0.9"),
        ]
    );
    let chat = vec![message("a b", "c&d")];
    let request = client.chat("e=f", &chat).unwrap();
    assert_eq!(
        request,
        ChatRequest { url: build_address("e=f", &chat).unwrap(), headers: build_headers() }
    );
    assert!(request.url.contains("?q=e%3Df&page=1"));
    assert!(request.url.ends_with(
        "&chat=%5B%7B%22question%22%3A%22a+b%22%2C%22answer%22%3A%22c%26d%22%7D%5D"
    ));
    assert_eq!(Client::default().default_headers, client.default_headers);
}

#[test]
fn client_judges_the_status() {
    let client = Client::new();
    assert_eq!(client.check_status(200), Ok(()));
    assert_eq!(client.check_status(204), Ok(()));
    assert_eq!(client.check_status(299), Ok(()));
    assert_eq!(client.check_status(199), Err(Error::Transport));
    assert_eq!(client.check_status(300), Err(Error::Transport));
    assert_eq!(client.check_status(403), Err(Error::Transport));
    assert_eq!(client.check_status(500), Err(Error::Transport));
    assert_eq!(client.check_status(0), Err(Error::Transport));
}

#[test]
fn client_opens_no_stream_on_a_bad_status() {
    let client = Client::new();
    let frame = you_com::model::RawFrame::new(
        Some("youChatToken".to_string()),
        Some("{\"youChatToken\":\"x\"}".to_string()),
    );
    assert_eq!(client.open(503, vec![Ok(frame.clone())]).err(), Some(Error::Transport));
    let mut stream = client.open(200, vec![Ok(frame)]).unwrap();
    assert_eq!(stream.collect_answer(), Ok("x".to_string()));
}

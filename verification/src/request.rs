use crate::error::Error;
use crate::json::{json_quoted, quote};
use crate::model::{messages_view, ChatMessage, ChatMessageView};
use vstd::prelude::*;
use vstd::string::*;

verus! {

#[verifier::external_type_specification]
#[verifier::external_body]
pub struct ExUrlParseError(url::ParseError);

/// One name and value of a query or of a header.
pub type Pair = (String, String);

/// The mathematical value of a [`Pair`].
pub type PairView = (Seq<char>, Seq<char>);

/// The views of a sequence of pairs, in the same order.
pub open spec fn pairs_view(pairs: Seq<Pair>) -> Seq<PairView> {
    pairs.map_values(|pair: Pair| (pair.0@, pair.1@))
}

/// The address that the `url` crate serialises for `base` with `pairs`
/// appended to its query in order, or `None` where it cannot parse `base` as
/// an absolute address.
pub uninterp spec fn url_text(base: Seq<char>, pairs: Seq<PairView>) -> Option<Seq<char>>;

/// `url::Url::parse_with_params`, followed by `Url::as_str`. The contract
/// only names the text that comes out. Left out are the bases on which the
/// crate can meet its limit of four gigabytes while it appends: one with a
/// fragment, and one of great length.
#[verifier::external_body]
fn url_with_params(base: &str, pairs: &Vec<Pair>) -> (address: Result<String, url::ParseError>)
    requires
        !base@.contains('#'),
        base@.len() <= 0x10000,
    ensures
        match address {
            Ok(text) => url_text(base@, pairs_view(pairs@)) == Some(text@),
            Err(_) => url_text(base@, pairs_view(pairs@)) is None,
        },
{
    url::Url::parse_with_params(base, pairs).map(|parsed| parsed.as_str().to_owned())
}

/// The decimal digit for a number below ten.
pub open spec fn digit(d: nat) -> char {
    if d == 0 {
        '0'
    } else if d == 1 {
        '1'
    } else if d == 2 {
        '2'
    } else if d == 3 {
        '3'
    } else if d == 4 {
        '4'
    } else if d == 5 {
        '5'
    } else if d == 6 {
        '6'
    } else if d == 7 {
        '7'
    } else if d == 8 {
        '8'
    } else {
        '9'
    }
}

/// The decimal numeral of `n`, without leading zeros.
pub open spec fn decimal_text(n: nat) -> Seq<char>
    decreases n,
{
    if n < 10 {
        seq![digit(n)]
    } else {
        decimal_text(n / 10).push(digit(n % 10))
    }
}

/// `itoa::Buffer::format` on a fresh buffer: the decimal numeral of `n`.
#[verifier::external_body]
fn decimal(n: usize) -> (text: String)
    ensures
        text@ == decimal_text(n as nat),
{
    itoa::Buffer::new().format(n).to_owned()
}

/// The JSON object for one message, given the literals of its two texts.
pub open spec fn message_json(question: Seq<char>, answer: Seq<char>) -> Seq<char> {
    "{\"question\":"@ + question + ",\"answer\":"@ + answer + "}"@
}

/// The JSON objects of `messages`, separated by commas, or `None` where a
/// text has no JSON literal.
pub open spec fn entries_json(messages: Seq<ChatMessageView>) -> Option<Seq<char>>
    decreases messages.len(),
{
    if messages.len() == 0 {
        Some(Seq::empty())
    } else {
        let last = messages.last();
        match (
            entries_json(messages.drop_last()),
            json_quoted(last.question),
            json_quoted(last.answer),
        ) {
            (Some(head), Some(question), Some(answer)) => Some(
                if messages.len() == 1 {
                    message_json(question, answer)
                } else {
                    head + ","@ + message_json(question, answer)
                },
            ),
            _ => None,
        }
    }
}

/// The conversation history as a JSON array of `{question, answer}`
/// objects in chronological order, or `None` where a text has no JSON
/// literal.
pub open spec fn history_json(messages: Seq<ChatMessageView>) -> Option<Seq<char>> {
    match entries_json(messages) {
        Some(entries) => Some("["@ + entries + "]"@),
        None => None,
    }
}

/// Encodes the conversation history as compact JSON.
pub fn encode_history(chat: &[ChatMessage]) -> (encoded: Result<String, Error>)
    ensures
        match encoded {
            Ok(text) => history_json(messages_view(chat@)) == Some(text@),
            Err(error) => error == Error::Json && history_json(messages_view(chat@)) is None,
        },
{
    let ghost all = messages_view(chat@);
    let mut text = String::from_str("[");
    let mut index: usize = 0;
    while index < chat.len()
        invariant
            index <= chat.len(),
            all == messages_view(chat@),
            match entries_json(all.take(index as int)) {
                Some(entries) => text@ == "["@ + entries,
                None => false,
            },
        decreases chat.len() - index,
    {
        let ghost before = entries_json(all.take(index as int))->Some_0;
        let ghost upto = all.take(index + 1);
        proof {
            assert(upto.drop_last() =~= all.take(index as int));
            assert(upto.last() == chat@[index as int]@);
            lemma_entries_fail(all, index + 1);
        }
        let message = &chat[index];
        let question = match quote(message.question.as_str()) {
            Ok(literal) => literal,
            Err(error) => {
                return Err(error);
            },
        };
        let answer = match quote(message.answer.as_str()) {
            Ok(literal) => literal,
            Err(error) => {
                return Err(error);
            },
        };
        if index > 0 {
            text.append(",");
        }
        text.append("{\"question\":");
        text.append(question.as_str());
        text.append(",\"answer\":");
        text.append(answer.as_str());
        text.append("}");
        proof {
            let entry = message_json(question@, answer@);
            if index == 0 {
                assert(before =~= Seq::<char>::empty());
                assert(text@ =~= "["@ + entry);
            } else {
                assert(text@ =~= "["@ + (before + ","@ + entry));
            }
        }
        index = index + 1;
    }
    proof {
        assert(all.take(index as int) =~= all);
    }
    text.append("]");
    Ok(text)
}

/// Where the first `count` messages cannot be encoded, neither can all of
/// them.
pub proof fn lemma_entries_fail(messages: Seq<ChatMessageView>, count: int)
    requires
        0 <= count <= messages.len(),
    ensures
        entries_json(messages.take(count)) is None ==> entries_json(messages) is None,
    decreases messages.len() - count,
{
    if count < messages.len() {
        assert(messages.take(count + 1).drop_last() =~= messages.take(count));
        lemma_entries_fail(messages, count + 1);
    } else {
        assert(messages.take(count) =~= messages);
    }
}

/// The address of the streaming search service.
pub const ENDPOINT: &'static str = "https://you.com/api/streamingSearch";

/// The query of one chat request, in the order in which it is sent: the
/// question, the fixed protocol parameters, the number of earlier messages
/// and the earlier messages themselves as JSON.
pub open spec fn chat_query(question: Seq<char>, past: nat, chat_json: Seq<char>) -> Seq<
    PairView,
> {
    seq![
        ("q"@, question),
        ("page"@, "1"@),
        ("count"@, "10"@),
        ("safeSearch"@, "Off"@),
        ("mkt"@, "en-US"@),
        ("domain"@, "youchat"@),
        ("use_personalization_extraction"@, "true"@),
        ("pastChatLength"@, decimal_text(past)),
        ("selectedChatMode"@, "default"@),
        ("chat"@, chat_json),
    ]
}

/// The headers that go with every chat request, in the order in which they
/// are sent.
pub open spec fn chat_headers() -> Seq<PairView> {
    seq![
        ("host"@, "you.com"@),
        ("accept"@, "text/event-stream"@),
        ("accept-language"@, "en-US,en;q=0.9"@),
        ("cache-control"@, "no-cache"@),
        ("referer"@, "https://you.com/search?fromSearchBar=true&tbm=youchat"@),
        ("connection"@, "keep-alive"@),
        ("Pragma"@, "no-cache"@),
        ("Sec-Fetch-Dest"@, "empty"@),
        ("Sec-Fetch-Mode"@, "cors"@),
        ("Sec-Fetch-Site"@, "same-origin"@),
    ]
}

/// The address of the chat request for `question` after `messages`: the
/// endpoint with the chat query, or the error that stops the request from
/// being built.
pub open spec fn chat_address(question: Seq<char>, messages: Seq<ChatMessageView>) -> Result<
    Seq<char>,
    Error,
> {
    match history_json(messages) {
        None => Err(Error::Json),
        Some(chat_json) => match url_text(
            ENDPOINT@,
            chat_query(question, messages.len(), chat_json),
        ) {
            Some(address) => Ok(address),
            None => Err(Error::InvalidUrl),
        },
    }
}

/// A pair of owned texts.
fn pair(name: &str, value: &str) -> (made: Pair)
    ensures
        made.0@ == name@,
        made.1@ == value@,
{
    (String::from_str(name), String::from_str(value))
}

/// Builds the query of one chat request from the question, the number of
/// earlier messages and their JSON encoding.
pub fn build_query(question: &str, past: usize, chat_json: &str) -> (query: Vec<Pair>)
    ensures
        pairs_view(query@) == chat_query(question@, past as nat, chat_json@),
{
    let count = decimal(past);
    let mut query: Vec<Pair> = Vec::new();
    query.push(pair("q", question));
    query.push(pair("page", "1"));
    query.push(pair("count", "10"));
    query.push(pair("safeSearch", "Off"));
    query.push(pair("mkt", "en-US"));
    query.push(pair("domain", "youchat"));
    query.push(pair("use_personalization_extraction", "true"));
    query.push(pair("pastChatLength", count.as_str()));
    query.push(pair("selectedChatMode", "default"));
    query.push(pair("chat", chat_json));
    assert(pairs_view(query@) =~= chat_query(question@, past as nat, chat_json@));
    query
}

/// Builds the headers that go with every chat request.
pub fn build_headers() -> (headers: Vec<Pair>)
    ensures
        pairs_view(headers@) == chat_headers(),
{
    let mut headers: Vec<Pair> = Vec::new();
    headers.push(pair("host", "you.com"));
    headers.push(pair("accept", "text/event-stream"));
    headers.push(pair("accept-language", "en-US,en;q=0.9"));
    headers.push(pair("cache-control", "no-cache"));
    headers.push(pair("referer", "https://you.com/search?fromSearchBar=true&tbm=youchat"));
    headers.push(pair("connection", "keep-alive"));
    headers.push(pair("Pragma", "no-cache"));
    headers.push(pair("Sec-Fetch-Dest", "empty"));
    headers.push(pair("Sec-Fetch-Mode", "cors"));
    headers.push(pair("Sec-Fetch-Site", "same-origin"));
    assert(pairs_view(headers@) =~= chat_headers());
    headers
}

/// Builds the address of the chat request for `question` after the
/// messages of `chat`.
pub fn build_address(question: &str, chat: &[ChatMessage]) -> (address: Result<String, Error>)
    ensures
        match address {
            Ok(text) => chat_address(question@, messages_view(chat@)) == Ok::<Seq<char>, Error>(
                text@,
            ),
            Err(error) => chat_address(question@, messages_view(chat@)) == Err::<
                Seq<char>,
                Error,
            >(error),
        },
{
    let chat_json = match encode_history(chat) {
        Ok(text) => text,
        Err(error) => {
            return Err(error);
        },
    };
    let query = build_query(question, chat.len(), chat_json.as_str());
    proof {
        reveal_strlit("https://you.com/api/streamingSearch");
        assert(!ENDPOINT@.contains('#'));
        assert(ENDPOINT@.len() <= 0x10000);
    }
    match url_with_params(ENDPOINT, &query) {
        Ok(text) => Ok(text),
        Err(_) => Err(Error::InvalidUrl),
    }
}

} // verus!

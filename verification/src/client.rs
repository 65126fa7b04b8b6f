use crate::error::Error;
use crate::model::{messages_view, ChatMessage};
use crate::request::{
    build_address, build_headers, chat_address, chat_headers, pairs_view, Pair, PairView,
};
use crate::stream::{pulled_view, ChatResponseStream, Pulled};
use vstd::prelude::*;
use vstd::string::*;

verus! {

/// The browser that the client presents itself as.
pub const USER_AGENT_VALUE: &'static str =
    "Mozilla/5.0 (Windows NT 10.0; Win64; x64) AppleWebKit/537.36 (KHTML, like Gecko) Chrome/128.0.0.0 Safari/537.36";

/// The languages that the client asks for.
pub const ACCEPT_LANGUAGE_VALUE: &'static str = "en-US,en;q=0.9";

/// The headers that the client sends with every request of any kind.
pub open spec fn default_headers() -> Seq<PairView> {
    seq![("user-agent"@, USER_AGENT_VALUE@), ("accept-language"@, ACCEPT_LANGUAGE_VALUE@)]
}

/// True for the status codes that stand for success.
pub open spec fn is_success(status: u16) -> bool {
    200 <= status < 300
}

/// One request, ready to be sent with the GET method.
#[derive(Debug, Clone, PartialEq, Eq)]
pub struct ChatRequest {
    /// The full address, query included.
    pub url: String,
    /// The headers of this request, in the order in which they are sent.
    pub headers: Vec<Pair>,
}

/// A you client
#[derive(Debug, Clone)]
pub struct Client {
    /// The headers that go with every request of this client.
    pub default_headers: Vec<Pair>,
}

impl Client {
    /// Make a new client
    pub fn new() -> (client: Self)
        ensures
            pairs_view(client.default_headers@) == default_headers(),
    {
        let mut headers: Vec<Pair> = Vec::new();
        headers.push((String::from_str("user-agent"), String::from_str(USER_AGENT_VALUE)));
        headers.push(
            (String::from_str("accept-language"), String::from_str(ACCEPT_LANGUAGE_VALUE)),
        );
        assert(pairs_view(headers@) =~= default_headers());
        Self { default_headers: headers }
    }

    /// Chat with you.com.
    ///
    /// Builds the one request of an exchange: its address carries the
    /// question, the fixed protocol parameters and the earlier messages of
    /// `chat` in chronological order.
    pub fn chat(&self, question: &str, chat: &[ChatMessage]) -> (request: Result<
        ChatRequest,
        Error,
    >)
        ensures
            match request {
                Ok(made) => {
                    &&& chat_address(question@, messages_view(chat@)) == Ok::<Seq<char>, Error>(
                        made.url@,
                    )
                    &&& pairs_view(made.headers@) == chat_headers()
                },
                Err(error) => chat_address(question@, messages_view(chat@)) == Err::<
                    Seq<char>,
                    Error,
                >(error),
            },
    {
        match build_address(question, chat) {
            Ok(url) => Ok(ChatRequest { url, headers: build_headers() }),
            Err(error) => Err(error),
        }
    }

    /// Judges the status of a response before anything is read from its
    /// body: every status but a success is a `Transport` error.
    pub fn check_status(&self, status: u16) -> (checked: Result<(), Error>)
        ensures
            checked == if is_success(status) {
                Ok::<(), Error>(())
            } else {
                Err::<(), Error>(Error::Transport)
            },
    {
        if 200 <= status && status < 300 {
            Ok(())
        } else {
            Err(Error::Transport)
        }
    }

    /// Opens the stream of a response that has been received: no stream is
    /// made for a status that is not a success.
    pub fn open(&self, status: u16, frames: Vec<Pulled>) -> (opened: Result<
        ChatResponseStream,
        Error,
    >)
        ensures
            match opened {
                Ok(stream) => is_success(status) && stream@ == frames@.map_values(
                    |pulled: Pulled| pulled_view(pulled),
                ),
                Err(error) => !is_success(status) && error == Error::Transport,
            },
    {
        match self.check_status(status) {
            Ok(()) => Ok(ChatResponseStream::new(frames)),
            Err(error) => Err(error),
        }
    }
}

impl Default for Client {
    fn default() -> (client: Self)
        ensures
            pairs_view(client.default_headers@) == default_headers(),
    {
        Self::new()
    }
}

} // verus!

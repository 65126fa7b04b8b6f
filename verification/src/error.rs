use vstd::prelude::*;
use vstd::string::*;

verus! {

/// Everything that can go wrong in an exchange or in a history access.
#[derive(Debug, Clone, Copy, PartialEq, Eq, Structural)]
pub enum Error {
    /// The request failed or was answered with a non-success status.
    Transport,
    /// The conversation history could not be encoded as JSON.
    Json,
    /// The response body held a malformed server-push frame.
    InvalidSseEvent,
    /// A token frame carried a payload that is not the expected JSON object.
    InvalidJsonEventData,
    /// A token or done frame carried no payload.
    SseEventMissingData,
    /// The request address could not be built.
    InvalidUrl,
    /// The conversation history is held by a writer.
    Busy,
    /// A history index lies outside the recorded messages.
    IndexOutOfRange,
}

impl Error {
    /// The text of the message that belongs to each error.
    pub open spec fn message_text(self) -> Seq<char> {
        match self {
            Error::Transport => "transport failure"@,
            Error::Json => "json error"@,
            Error::InvalidSseEvent => "invalid sse event"@,
            Error::InvalidJsonEventData => "invalid JSON event data"@,
            Error::SseEventMissingData => "sse event missing data"@,
            Error::InvalidUrl => "invalid url"@,
            Error::Busy => "chat is busy"@,
            Error::IndexOutOfRange => "message index out of range"@,
        }
    }

    /// True for the errors that end an exchange; `Busy` and
    /// `IndexOutOfRange` are reported at the call site instead.
    pub open spec fn is_stream_level(self) -> bool {
        self != Error::Busy && self != Error::IndexOutOfRange
    }

    /// A human-readable message for this error.
    pub fn message(&self) -> (text: String)
        ensures
            text@ == self.message_text(),
    {
        match self {
            Error::Transport => String::from_str("transport failure"),
            Error::Json => String::from_str("json error"),
            Error::InvalidSseEvent => String::from_str("invalid sse event"),
            Error::InvalidJsonEventData => String::from_str("invalid JSON event data"),
            Error::SseEventMissingData => String::from_str("sse event missing data"),
            Error::InvalidUrl => String::from_str("invalid url"),
            Error::Busy => String::from_str("chat is busy"),
            Error::IndexOutOfRange => String::from_str("message index out of range"),
        }
    }
}

} // verus!

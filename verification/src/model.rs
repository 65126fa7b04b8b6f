use vstd::prelude::*;
use vstd::string::*;

verus! {

/// One completed exchange: a question and the answer that was streamed back.
#[derive(Debug, Clone, PartialEq, Eq)]
pub struct ChatMessage {
    /// The user question
    pub question: String,
    /// The AI response
    pub answer: String,
}

/// The mathematical value of a [`ChatMessage`].
pub struct ChatMessageView {
    pub question: Seq<char>,
    pub answer: Seq<char>,
}

impl ChatMessageView {
    /// The message as one line of text: both texts as they are, between
    /// double quotes.
    pub open spec fn text(self) -> Seq<char> {
        "ChatMessage(question=\""@ + self.question + "\", answer=\""@ + self.answer + "\")"@
    }
}

impl View for ChatMessage {
    type V = ChatMessageView;

    open spec fn view(&self) -> ChatMessageView {
        ChatMessageView { question: self.question@, answer: self.answer@ }
    }
}

impl ChatMessage {
    /// Make a new chat message.
    pub fn new(question: String, answer: String) -> (message: Self)
        ensures
            message.question == question,
            message.answer == answer,
    {
        Self { question, answer }
    }

    /// Get the question.
    pub fn question(&self) -> (text: &str)
        ensures
            text@ == self.question@,
    {
        self.question.as_str()
    }

    /// Get the answer.
    pub fn answer(&self) -> (text: &str)
        ensures
            text@ == self.answer@,
    {
        self.answer.as_str()
    }

    /// This message as one line of text.
    pub fn to_text(&self) -> (text: String)
        ensures
            text@ == self@.text(),
    {
        let mut text = String::from_str("ChatMessage(question=\"");
        text.append(self.question.as_str());
        text.append("\", answer=\"");
        text.append(self.answer.as_str());
        text.append("\")");
        text
    }

    /// A copy of this message with the same question and answer.
    pub fn duplicate(&self) -> (copy: Self)
        ensures
            copy == *self,
    {
        Self { question: self.question.clone(), answer: self.answer.clone() }
    }
}

/// The views of a sequence of messages, in the same order.
pub open spec fn messages_view(messages: Seq<ChatMessage>) -> Seq<ChatMessageView> {
    messages.map_values(|m: ChatMessage| m@)
}

/// A chat event
#[derive(Debug, Clone, PartialEq, Eq)]
pub enum ChatEvent {
    /// A new token was sent.
    Token {
        /// The new token
        token: String,
    },
    /// The stream is done.
    Done {
        /// The associated text.
        text: String,
    },
}

/// The mathematical value of a [`ChatEvent`].
pub enum ChatEventView {
    Token { token: Seq<char> },
    Done { text: Seq<char> },
}

impl View for ChatEvent {
    type V = ChatEventView;

    open spec fn view(&self) -> ChatEventView {
        match self {
            ChatEvent::Token { token } => ChatEventView::Token { token: token@ },
            ChatEvent::Done { text } => ChatEventView::Done { text: text@ },
        }
    }
}

/// One discrete unit of the server-push wire format.
#[derive(Debug, Clone, PartialEq, Eq)]
pub struct RawFrame {
    /// The event-type label, if the frame has one.
    pub event: Option<String>,
    /// The payload, if the frame has one.
    pub data: Option<String>,
}

/// The mathematical value of a [`RawFrame`].
pub struct RawFrameView {
    pub event: Option<Seq<char>>,
    pub data: Option<Seq<char>>,
}

/// The view of an optional string.
pub open spec fn text_view(text: Option<String>) -> Option<Seq<char>> {
    match text {
        Some(s) => Some(s@),
        None => None,
    }
}

impl View for RawFrame {
    type V = RawFrameView;

    open spec fn view(&self) -> RawFrameView {
        RawFrameView { event: text_view(self.event), data: text_view(self.data) }
    }
}

impl RawFrame {
    /// A frame with the given label and payload.
    pub fn new(event: Option<String>, data: Option<String>) -> (frame: Self)
        ensures
            frame.event == event,
            frame.data == data,
    {
        Self { event, data }
    }
}

} // verus!

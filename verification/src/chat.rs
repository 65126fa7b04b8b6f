use crate::error::Error;
use crate::model::{messages_view, ChatMessage, ChatMessageView};
use vstd::prelude::*;
use vstd::string::*;

verus! {

/// The mathematical value of a [`Chat`].
pub struct ChatView {
    /// The recorded messages in chronological order, or `None` while a
    /// writer holds them.
    pub history: Option<Seq<ChatMessageView>>,
    /// The number of read handles that are out.
    pub readers: nat,
}

impl ChatView {
    /// True while a write handle is out.
    pub open spec fn writing(self) -> bool {
        self.history is None
    }

    /// True where a reader can be admitted.
    pub open spec fn readable(self) -> bool {
        self.history is Some && self.readers < usize::MAX
    }

    /// True where a writer can be admitted.
    pub open spec fn writable(self) -> bool {
        self.history is Some && self.readers == 0
    }
}

/// The text that the `{:?}` format of the standard library writes for a
/// string: the string between double quotes, with escapes.
pub uninterp spec fn debug_quoted(text: Seq<char>) -> Seq<char>;

/// `format!` with `{:?}` on a string slice. The contract only names the
/// text that is written.
#[verifier::external_body]
fn debug_quote(text: &str) -> (quoted: String)
    ensures
        quoted@ == debug_quoted(text@),
{
    format!("{:?}", text)
}

/// One message as it is listed in the text of a chat.
pub open spec fn message_listing(message: ChatMessageView) -> Seq<char> {
    "ChatMessage { question: "@ + debug_quoted(message.question) + ", answer: "@ + debug_quoted(
        message.answer,
    ) + " }"@
}

/// The messages as they are listed in the text of a chat, oldest first,
/// separated by a comma and a space.
pub open spec fn history_listing(messages: Seq<ChatMessageView>) -> Seq<char>
    decreases messages.len(),
{
    if messages.len() == 0 {
        Seq::empty()
    } else if messages.len() == 1 {
        message_listing(messages.last())
    } else {
        history_listing(messages.drop_last()) + ", "@ + message_listing(messages.last())
    }
}

impl ChatView {
    /// The chat as one line of text: its messages, or a note that it is
    /// busy.
    pub open spec fn text(self) -> Seq<char> {
        match self.history {
            Some(messages) => "Chat(messages=["@ + history_listing(messages) + "])"@,
            None => "Chat(<chat is busy>)"@,
        }
    }
}

/// The place in a history of `len` messages that `index` stands for:
/// indices below zero count from the end.
pub open spec fn resolved_index(index: int, len: nat) -> Option<int> {
    if 0 <= index < len {
        Some(index)
    } else if -len <= index < 0 {
        Some(index + len)
    } else {
        None
    }
}

/// The right to read the history of a chat; handed back with
/// [`Chat::release_read`].
#[derive(Debug)]
pub struct ReadHandle {
    held: (),
}

/// The right to change the history of a chat. The handle carries the
/// messages while it is out, so nobody else can see them half-written; it is
/// handed back with [`Chat::release_write`].
#[derive(Debug)]
pub struct WriteHandle {
    messages: Vec<ChatMessage>,
}

impl View for WriteHandle {
    type V = Seq<ChatMessageView>;

    closed spec fn view(&self) -> Seq<ChatMessageView> {
        messages_view(self.messages@)
    }
}

impl WriteHandle {
    /// The messages that the handle carries, oldest first.
    pub fn messages(&self) -> (messages: &[ChatMessage])
        ensures
            messages_view(messages@) == self@,
    {
        self.messages.as_slice()
    }

    /// Appends one completed exchange.
    pub fn push(&mut self, message: ChatMessage)
        ensures
            final(self)@ == old(self)@.push(message@),
    {
        self.messages.push(message);
        assert(self@ =~= old(self)@.push(message@));
    }
}

/// A chat with an AI: the conversation history behind a guard that admits
/// many readers or one writer and never makes a caller wait.
#[derive(Debug)]
pub struct Chat {
    history: Option<Vec<ChatMessage>>,
    readers: usize,
}

impl View for Chat {
    type V = ChatView;

    closed spec fn view(&self) -> ChatView {
        ChatView {
            history: match self.history {
                Some(messages) => Some(messages_view(messages@)),
                None => None,
            },
            readers: self.readers as nat,
        }
    }
}

impl Chat {
    /// Make a new chat.
    pub fn new() -> (chat: Self)
        ensures
            chat@ == (ChatView { history: Some(Seq::empty()), readers: 0 }),
    {
        let chat = Self { history: Some(Vec::new()), readers: 0 };
        assert(chat@.history->Some_0 =~= Seq::<ChatMessageView>::empty());
        chat
    }

    /// True while a write handle is out.
    pub fn is_writing(&self) -> (writing: bool)
        ensures
            writing == self@.writing(),
    {
        self.history.is_none()
    }

    /// Asks for the right to read. Returns at once: `None` while a writer
    /// holds the history, or where no further reader can be counted.
    pub fn try_read(&mut self) -> (handle: Option<ReadHandle>)
        ensures
            handle is Some <==> old(self)@.readable(),
            handle is Some ==> final(self)@ == (ChatView {
                readers: old(self)@.readers + 1,
                ..old(self)@
            }),
            handle is None ==> final(self)@ == old(self)@,
    {
        if self.history.is_some() && self.readers < usize::MAX {
            self.readers = self.readers + 1;
            Some(ReadHandle { held: () })
        } else {
            None
        }
    }

    /// Hands a read handle back.
    pub fn release_read(&mut self, handle: ReadHandle)
        ensures
            final(self)@ == (ChatView {
                readers: if old(self)@.readers > 0 {
                    (old(self)@.readers - 1) as nat
                } else {
                    0
                },
                ..old(self)@
            }),
    {
        if self.readers > 0 {
            self.readers = self.readers - 1;
        }
    }

    /// Asks for the right to write. Returns at once: `None` while any reader
    /// or another writer holds the history. The handle takes the messages
    /// with it.
    pub fn try_acquire_write(&mut self) -> (handle: Option<WriteHandle>)
        ensures
            handle is Some <==> old(self)@.writable(),
            handle matches Some(held) ==> {
                &&& Some(held@) == old(self)@.history
                &&& final(self)@ == (ChatView { history: None, readers: 0 })
            },
            handle is None ==> final(self)@ == old(self)@,
    {
        if self.readers > 0 {
            return None;
        }
        match self.history.take() {
            Some(messages) => Some(WriteHandle { messages }),
            None => None,
        }
    }

    /// Hands a write handle back, and with it the messages it carries. A
    /// chat that has no writer out keeps its own history.
    pub fn release_write(&mut self, handle: WriteHandle)
        ensures
            final(self)@ == if old(self)@.writing() {
                ChatView { history: Some(handle@), readers: old(self)@.readers }
            } else {
                old(self)@
            },
    {
        if self.history.is_none() {
            self.history = Some(handle.messages);
        }
    }

    /// This chat as one line of text; while a writer holds the history, a
    /// note that the chat is busy.
    pub fn to_text(&self) -> (text: String)
        ensures
            text@ == self@.text(),
    {
        let messages = match &self.history {
            Some(messages) => messages,
            None => {
                return String::from_str("Chat(<chat is busy>)");
            },
        };
        let ghost all = messages_view(messages@);
        let mut text = String::from_str("Chat(messages=[");
        let mut index: usize = 0;
        while index < messages.len()
            invariant
                index <= messages.len(),
                all == messages_view(messages@),
                text@ == "Chat(messages=["@ + history_listing(all.take(index as int)),
            decreases messages.len() - index,
        {
            let ghost before = history_listing(all.take(index as int));
            let ghost upto = all.take(index + 1);
            proof {
                assert(upto.drop_last() =~= all.take(index as int));
                assert(upto.last() == messages@[index as int]@);
            }
            let message = &messages[index];
            let question = debug_quote(message.question.as_str());
            let answer = debug_quote(message.answer.as_str());
            if index > 0 {
                text.append(", ");
            }
            text.append("ChatMessage { question: ");
            text.append(question.as_str());
            text.append(", answer: ");
            text.append(answer.as_str());
            text.append(" }");
            proof {
                let entry = message_listing(messages@[index as int]@);
                if index == 0 {
                    assert(before =~= Seq::<char>::empty());
                    assert(text@ =~= "Chat(messages=["@ + entry);
                } else {
                    assert(text@ =~= "Chat(messages=["@ + (before + ", "@ + entry));
                }
            }
            index = index + 1;
        }
        proof {
            assert(all.take(index as int) =~= all);
        }
        text.append("])");
        text
    }

    /// Get the number of chat messages, or `Busy` while a writer holds the
    /// history.
    pub fn len(&self) -> (count: Result<usize, Error>)
        ensures
            match self@.history {
                Some(messages) => count == Ok::<usize, Error>(messages.len() as usize),
                None => count == Err::<usize, Error>(Error::Busy),
            },
    {
        match &self.history {
            Some(messages) => Ok(messages.len()),
            None => Err(Error::Busy),
        }
    }

    /// Get a copy of the chat message at the given index. An index below
    /// zero counts from the end. Reports `Busy` while a writer holds the
    /// history, and `IndexOutOfRange` for an index that stands for no
    /// message.
    pub fn get(&self, index: isize) -> (found: Result<ChatMessage, Error>)
        ensures
            match self@.history {
                None => found == Err::<ChatMessage, Error>(Error::Busy),
                Some(messages) => match resolved_index(index as int, messages.len()) {
                    Some(place) => found is Ok && found->Ok_0@ == messages[place],
                    None => found == Err::<ChatMessage, Error>(Error::IndexOutOfRange),
                },
            },
    {
        match &self.history {
            None => Err(Error::Busy),
            Some(messages) => {
                let len = messages.len();
                let place: usize = if index < 0 {
                    let back: usize = (-(index as i128)) as usize;
                    if back > len {
                        return Err(Error::IndexOutOfRange);
                    }
                    len - back
                } else {
                    index as usize
                };
                if place >= len {
                    return Err(Error::IndexOutOfRange);
                }
                Ok(messages[place].duplicate())
            },
        }
    }
}

} // verus!

use crate::chat::WriteHandle;
use crate::classify::outcome_view;
use crate::error::Error;
use crate::model::{messages_view, ChatEvent, ChatEventView, ChatMessage, ChatMessageView};
use vstd::prelude::*;
use vstd::string::*;

verus! {

/// Where one exchange stands.
#[derive(Debug, Clone, Copy, PartialEq, Eq, Structural)]
pub enum Phase {
    /// Events are still being pulled from the response.
    Streaming,
    /// The response ended cleanly; the answer waits to be recorded.
    Committing,
    /// The answer has been recorded.
    Done,
    /// The response broke; nothing will be recorded.
    Failed,
}

/// What the consumer of the answer gets for one event.
#[derive(Debug, Clone, PartialEq, Eq)]
pub enum Delivery {
    /// One more fragment of the answer.
    Fragment(String),
    /// The error that ended the exchange; nothing follows it.
    Failure(Error),
    /// The answer is complete; nothing follows.
    Close,
    /// Nothing for the consumer.
    Nothing,
}

/// The mathematical value of a [`Delivery`].
pub enum DeliveryView {
    Fragment(Seq<char>),
    Failure(Error),
    Close,
    Nothing,
}

impl View for Delivery {
    type V = DeliveryView;

    open spec fn view(&self) -> DeliveryView {
        match self {
            Delivery::Fragment(text) => DeliveryView::Fragment(text@),
            Delivery::Failure(error) => DeliveryView::Failure(*error),
            Delivery::Close => DeliveryView::Close,
            Delivery::Nothing => DeliveryView::Nothing,
        }
    }
}

/// The mathematical value of an [`Exchange`].
pub struct ExchangeView {
    pub phase: Phase,
    /// The question that opened the exchange.
    pub question: Seq<char>,
    /// The fragments received so far, joined.
    pub answer: Seq<char>,
    /// The history as it was when the exchange began.
    pub history: Seq<ChatMessageView>,
}

impl ExchangeView {
    /// The state after one event, `None` standing for the end of the
    /// response. Only a streaming exchange moves: a token extends the
    /// answer, an error discards it and fails the exchange, the end of the
    /// response makes the answer ready to be recorded.
    pub open spec fn after(self, outcome: Option<Result<ChatEventView, Error>>) -> ExchangeView {
        if self.phase != Phase::Streaming {
            self
        } else {
            match outcome {
                Some(Ok(ChatEventView::Token { token })) => ExchangeView {
                    answer: self.answer + token,
                    ..self
                },
                Some(Ok(ChatEventView::Done { .. })) => self,
                Some(Err(_)) => ExchangeView {
                    phase: Phase::Failed,
                    answer: Seq::empty(),
                    ..self
                },
                None => ExchangeView { phase: Phase::Committing, ..self },
            }
        }
    }

    /// What the consumer gets for one event: each token as a fragment, an
    /// error once, the end of the response as the close, and nothing for any
    /// other event or once the exchange is no longer streaming.
    pub open spec fn delivery(self, outcome: Option<Result<ChatEventView, Error>>) -> DeliveryView {
        if self.phase != Phase::Streaming {
            DeliveryView::Nothing
        } else {
            match outcome {
                Some(Ok(ChatEventView::Token { token })) => DeliveryView::Fragment(token),
                Some(Ok(ChatEventView::Done { .. })) => DeliveryView::Nothing,
                Some(Err(error)) => DeliveryView::Failure(error),
                None => DeliveryView::Close,
            }
        }
    }

    /// The history that the exchange leaves behind when it is finished: one
    /// more message where the response ended cleanly, the old history
    /// otherwise.
    pub open spec fn outcome_history(self) -> Seq<ChatMessageView> {
        if self.phase == Phase::Committing {
            self.history.push(ChatMessageView { question: self.question, answer: self.answer })
        } else {
            self.history
        }
    }

    /// The phase in which the exchange ends when it is finished.
    pub open spec fn outcome_phase(self) -> Phase {
        if self.phase == Phase::Committing {
            Phase::Done
        } else if self.phase == Phase::Streaming {
            Phase::Failed
        } else {
            self.phase
        }
    }
}

/// One question-and-answer turn, from the moment the history is taken for
/// writing until the answer is recorded or given up.
#[derive(Debug)]
pub struct Exchange {
    phase: Phase,
    question: String,
    answer: String,
    handle: WriteHandle,
}

impl View for Exchange {
    type V = ExchangeView;

    closed spec fn view(&self) -> ExchangeView {
        ExchangeView {
            phase: self.phase,
            question: self.question@,
            answer: self.answer@,
            history: self.handle@,
        }
    }
}

impl Exchange {
    /// Begins an exchange for `question` with the write handle that was
    /// acquired for it.
    pub fn begin(question: String, handle: WriteHandle) -> (exchange: Self)
        ensures
            exchange@ == (ExchangeView {
                phase: Phase::Streaming,
                question: question@,
                answer: Seq::empty(),
                history: handle@,
            }),
    {
        Self { phase: Phase::Streaming, question, answer: String::new(), handle }
    }

    /// Where the exchange stands.
    pub fn phase(&self) -> (phase: Phase)
        ensures
            phase == self@.phase,
    {
        self.phase
    }

    /// The question that opened the exchange.
    pub fn question(&self) -> (text: &str)
        ensures
            text@ == self@.question,
    {
        self.question.as_str()
    }

    /// The history as it was when the exchange began, oldest message first.
    pub fn history(&self) -> (messages: &[ChatMessage])
        ensures
            messages_view(messages@) == self@.history,
    {
        self.handle.messages()
    }

    /// Takes one event from the response, `None` standing for its end, and
    /// says what the consumer gets for it.
    pub fn on_event(&mut self, outcome: Option<Result<ChatEvent, Error>>) -> (delivery: Delivery)
        ensures
            final(self)@ == old(self)@.after(outcome_view(outcome)),
            delivery@ == old(self)@.delivery(outcome_view(outcome)),
    {
        match self.phase {
            Phase::Streaming => {},
            _ => {
                return Delivery::Nothing;
            },
        }
        match outcome {
            Some(Ok(ChatEvent::Token { token })) => {
                self.answer.append(token.as_str());
                Delivery::Fragment(token)
            },
            Some(Ok(ChatEvent::Done { .. })) => Delivery::Nothing,
            Some(Err(error)) => {
                self.answer = String::new();
                self.phase = Phase::Failed;
                Delivery::Failure(error)
            },
            None => {
                self.phase = Phase::Committing;
                Delivery::Close
            },
        }
    }

    /// Ends the exchange and gives the write handle back: with the new
    /// message appended where the response ended cleanly, unchanged
    /// otherwise.
    pub fn finish(self) -> (ended: (Phase, WriteHandle))
        ensures
            ended.0 == self@.outcome_phase(),
            ended.1@ == self@.outcome_history(),
    {
        let Exchange { phase, question, answer, handle } = self;
        let mut handle = handle;
        match phase {
            Phase::Committing => {
                handle.push(ChatMessage { question, answer });
                (Phase::Done, handle)
            },
            Phase::Streaming => (Phase::Failed, handle),
            Phase::Done => (Phase::Done, handle),
            Phase::Failed => (Phase::Failed, handle),
        }
    }
}

} // verus!

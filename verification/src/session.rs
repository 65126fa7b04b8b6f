use crate::chat::{Chat, ChatView};
use crate::error::Error;
use crate::exchange::{Delivery, Exchange, ExchangeView, Phase};
use crate::model::{ChatEventView, ChatMessageView};
use crate::stream::{
    events_of, failure_of, fragments_of, joined, lemma_events_unfold, text_result_view,
    ChatResponseStream, PulledView,
};
use vstd::prelude::*;
use vstd::string::*;

verus! {

/// What the consumer of an answer sees for `events`, in order: each token
/// fragment as it comes and, where the response breaks, the error once and
/// last.
pub open spec fn deliveries_of(events: Seq<Result<ChatEventView, Error>>) -> Seq<
    Result<Seq<char>, Error>,
>
    decreases events.len(),
{
    if events.len() == 0 {
        Seq::empty()
    } else {
        match events[0] {
            Err(error) => seq![Err(error)],
            Ok(ChatEventView::Token { token }) => seq![Ok(token)] + deliveries_of(events.skip(1)),
            Ok(ChatEventView::Done { .. }) => deliveries_of(events.skip(1)),
        }
    }
}

/// The views of what was delivered, in the same order.
pub open spec fn deliveries_view(deliveries: Seq<Result<String, Error>>) -> Seq<
    Result<Seq<char>, Error>,
> {
    deliveries.map_values(|delivery: Result<String, Error>| text_result_view(delivery))
}

/// The history after an exchange that asked `question` and received
/// `events`: one more message where no error came, the old history
/// otherwise.
pub open spec fn history_after(
    history: Seq<ChatMessageView>,
    question: Seq<char>,
    events: Seq<Result<ChatEventView, Error>>,
) -> Seq<ChatMessageView> {
    if failure_of(events) is None {
        history.push(ChatMessageView { question, answer: joined(fragments_of(events)) })
    } else {
        history
    }
}

/// The view of a response: the frames of its stream, or the error that came
/// in place of a stream.
pub open spec fn response_view(response: Result<ChatResponseStream, Error>) -> Result<
    Seq<PulledView>,
    Error,
> {
    match response {
        Ok(stream) => Ok(stream@),
        Err(error) => Err(error),
    }
}

impl Chat {
    /// Begins an exchange for `question`: takes the history for writing, or
    /// reports `Busy` where a reader or another writer holds it.
    pub fn begin(&mut self, question: String) -> (begun: Result<Exchange, Error>)
        ensures
            match begun {
                Ok(exchange) => {
                    &&& old(self)@.writable()
                    &&& exchange@ == (ExchangeView {
                        phase: Phase::Streaming,
                        question: question@,
                        answer: Seq::empty(),
                        history: old(self)@.history->Some_0,
                    })
                    &&& final(self)@ == (ChatView { history: None, readers: 0 })
                },
                Err(error) => {
                    &&& !old(self)@.writable()
                    &&& error == Error::Busy
                    &&& final(self)@ == old(self)@
                },
            },
    {
        match self.try_acquire_write() {
            Some(handle) => Ok(Exchange::begin(question, handle)),
            None => Err(Error::Busy),
        }
    }

    /// Ends an exchange and takes the history back: with the new message
    /// appended where the response ended cleanly, unchanged otherwise.
    pub fn complete(&mut self, exchange: Exchange) -> (phase: Phase)
        ensures
            phase == exchange@.outcome_phase(),
            final(self)@ == if old(self)@.writing() {
                ChatView { history: Some(exchange@.outcome_history()), readers: old(self)@.readers }
            } else {
                old(self)@
            },
    {
        let (phase, handle) = exchange.finish();
        self.release_write(handle);
        phase
    }

    /// Create a message and get the response.
    ///
    /// Runs one whole exchange over a response that has been received:
    /// every token fragment is delivered in order, an error is delivered
    /// once and ends the exchange, and the history gains exactly one message
    /// where the response ended cleanly and none otherwise. Reports `Busy`
    /// where the history is held, and hands on the error of a response that
    /// never became a stream; in both cases the history stays as it was.
    pub fn send_message(
        &mut self,
        question: String,
        response: Result<ChatResponseStream, Error>,
    ) -> (delivered: Result<Vec<Result<String, Error>>, Error>)
        ensures
            !old(self)@.writable() ==> delivered == Err::<Vec<Result<String, Error>>, Error>(
                Error::Busy,
            ) && final(self)@ == old(self)@,
            old(self)@.writable() ==> match response_view(response) {
                Err(error) => delivered == Err::<Vec<Result<String, Error>>, Error>(error)
                    && final(self)@ == old(self)@,
                Ok(frames) => {
                    &&& delivered is Ok
                    &&& deliveries_view(delivered->Ok_0@) == deliveries_of(events_of(frames))
                    &&& final(self)@ == (ChatView {
                        history: Some(
                            history_after(
                                old(self)@.history->Some_0,
                                question@,
                                events_of(frames),
                            ),
                        ),
                        readers: 0,
                    })
                },
            },
    {
        let mut exchange = match self.begin(question) {
            Ok(exchange) => exchange,
            Err(error) => {
                return Err(error);
            },
        };
        let mut stream = match response {
            Ok(stream) => stream,
            Err(error) => {
                self.complete(exchange);
                return Err(error);
            },
        };
        let ghost all = events_of(stream@);
        let ghost history = old(self)@.history->Some_0;
        let mut delivered: Vec<Result<String, Error>> = Vec::new();
        assert(deliveries_view(delivered@) =~= Seq::<Result<Seq<char>, Error>>::empty());
        loop
            invariant_except_break
                exchange@.phase == Phase::Streaming,
                failure_of(all) == failure_of(events_of(stream@)),
                joined(fragments_of(all)) == exchange@.answer + joined(
                    fragments_of(events_of(stream@)),
                ),
                deliveries_of(all) == deliveries_view(delivered@) + deliveries_of(
                    events_of(stream@),
                ),
            invariant
                exchange@.question == question@,
                exchange@.history == history,
            ensures
                deliveries_of(all) == deliveries_view(delivered@),
                exchange@.outcome_history() == history_after(history, question@, all),
            decreases stream@.len(),
        {
            let ghost before = stream@;
            let ghost answer = exchange@.answer;
            let ghost sent = deliveries_view(delivered@);
            proof {
                lemma_events_unfold(before);
            }
            let outcome = stream.next();
            let ghost rest = events_of(stream@);
            proof {
                if outcome is Some {
                    assert(events_of(before).skip(1) =~= rest);
                }
            }
            match exchange.on_event(outcome) {
                Delivery::Fragment(text) => {
                    let ghost token = text@;
                    delivered.push(Ok(text));
                    proof {
                        assert(deliveries_view(delivered@) =~= sent.push(Ok(token)));
                        assert(sent + (seq![Ok::<Seq<char>, Error>(token)] + deliveries_of(rest))
                            =~= sent.push(Ok(token)) + deliveries_of(rest));
                        assert(answer + (token + joined(fragments_of(rest))) =~= (answer + token)
                            + joined(fragments_of(rest)));
                        assert((seq![token] + fragments_of(rest)).skip(1) =~= fragments_of(rest));
                    }
                },
                Delivery::Failure(error) => {
                    delivered.push(Err(error));
                    proof {
                        assert(deliveries_view(delivered@) =~= sent.push(Err(error)));
                        assert(sent + seq![Err::<Seq<char>, Error>(error)] =~= sent.push(
                            Err(error),
                        ));
                    }
                    break ;
                },
                Delivery::Close => {
                    proof {
                        assert(sent + Seq::<Result<Seq<char>, Error>>::empty() =~= sent);
                        assert(answer + Seq::<char>::empty() =~= answer);
                    }
                    break ;
                },
                Delivery::Nothing => {},
            }
        }
        self.complete(exchange);
        Ok(delivered)
    }
}

} // verus!

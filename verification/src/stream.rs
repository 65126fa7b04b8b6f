use crate::classify::{classified, classify, outcome_view};
use crate::error::Error;
use crate::model::{ChatEvent, ChatEventView, RawFrame, RawFrameView};
use std::collections::VecDeque;
use vstd::prelude::*;
use vstd::string::*;

verus! {

/// What the framing layer hands over for one pull: a frame, or the error
/// that ended the response.
pub type Pulled = Result<RawFrame, Error>;

/// The mathematical value of a [`Pulled`].
pub type PulledView = Result<RawFrameView, Error>;

/// The view of one pulled item.
pub open spec fn pulled_view(pulled: Pulled) -> PulledView {
    match pulled {
        Ok(frame) => Ok(frame@),
        Err(error) => Err(error),
    }
}

/// What one pull means for the consumer of the stream.
#[derive(Debug, Clone, PartialEq, Eq)]
pub enum Step {
    /// The frame holds an event: hand it on.
    Yield(ChatEvent),
    /// The response is broken: hand the error on and stop.
    Fail(Error),
    /// The frame holds nothing for the consumer: pull again.
    Skip,
    /// The frames are used up: stop.
    End,
}

/// The mathematical value of a [`Step`].
pub enum StepView {
    Yield(ChatEventView),
    Fail(Error),
    Skip,
    End,
}

impl View for Step {
    type V = StepView;

    open spec fn view(&self) -> StepView {
        match self {
            Step::Yield(event) => StepView::Yield(event@),
            Step::Fail(error) => StepView::Fail(*error),
            Step::Skip => StepView::Skip,
            Step::End => StepView::End,
        }
    }
}

/// The step that follows from one pull: the end of the frames ends the
/// stream, an error of the framing layer or of the classifier fails it, an
/// event is yielded, and any other frame is skipped.
pub open spec fn stepped(pulled: Option<PulledView>) -> StepView {
    match pulled {
        None => StepView::End,
        Some(Err(error)) => StepView::Fail(error),
        Some(Ok(frame)) => match classified(frame) {
            Some(Ok(event)) => StepView::Yield(event),
            Some(Err(error)) => StepView::Fail(error),
            None => StepView::Skip,
        },
    }
}

/// The view of an optional pulled item.
pub open spec fn pull_view(pulled: Option<Pulled>) -> Option<PulledView> {
    match pulled {
        Some(item) => Some(pulled_view(item)),
        None => None,
    }
}

/// The view of a text or an error.
pub open spec fn text_result_view(text: Result<String, Error>) -> Result<Seq<char>, Error> {
    match text {
        Ok(value) => Ok(value@),
        Err(error) => Err(error),
    }
}

/// Decides what one pull from the framing layer means: `None` stands for
/// the end of the response.
pub fn step(pulled: Option<Pulled>) -> (taken: Step)
    ensures
        taken@ == stepped(pull_view(pulled)),
{
    match pulled {
        None => Step::End,
        Some(Err(error)) => Step::Fail(error),
        Some(Ok(frame)) => match classify(frame) {
            Some(Ok(event)) => Step::Yield(event),
            Some(Err(error)) => Step::Fail(error),
            None => Step::Skip,
        },
    }
}

/// The event that the next pull on `frames` yields: frames that classify to
/// nothing are passed over, a framing error is handed on as it is.
pub open spec fn next_event(frames: Seq<PulledView>) -> Option<Result<ChatEventView, Error>>
    decreases frames.len(),
{
    if frames.len() == 0 {
        None
    } else {
        match frames[0] {
            Err(error) => Some(Err(error)),
            Ok(frame) => match classified(frame) {
                Some(outcome) => Some(outcome),
                None => next_event(frames.skip(1)),
            },
        }
    }
}

/// The frames that are left after the next pull on `frames`: none after an
/// error, since one error ends the stream.
pub open spec fn rest_after_next(frames: Seq<PulledView>) -> Seq<PulledView>
    decreases frames.len(),
{
    if frames.len() == 0 {
        frames
    } else {
        match frames[0] {
            Err(_) => Seq::empty(),
            Ok(frame) => match classified(frame) {
                Some(Ok(_)) => frames.skip(1),
                Some(Err(_)) => Seq::empty(),
                None => rest_after_next(frames.skip(1)),
            },
        }
    }
}

/// Every event that a stream over `frames` yields, in order. An error, if
/// there is one, comes last.
pub open spec fn events_of(frames: Seq<PulledView>) -> Seq<Result<ChatEventView, Error>>
    decreases frames.len(),
{
    if frames.len() == 0 {
        Seq::empty()
    } else {
        match frames[0] {
            Err(error) => seq![Err(error)],
            Ok(frame) => match classified(frame) {
                Some(Ok(event)) => seq![Ok(event)] + events_of(frames.skip(1)),
                Some(Err(error)) => seq![Err(error)],
                None => events_of(frames.skip(1)),
            },
        }
    }
}

/// The error that ends `events`, if one does.
pub open spec fn failure_of(events: Seq<Result<ChatEventView, Error>>) -> Option<Error>
    decreases events.len(),
{
    if events.len() == 0 {
        None
    } else {
        match events[0] {
            Err(error) => Some(error),
            Ok(_) => failure_of(events.skip(1)),
        }
    }
}

/// The token fragments of `events` up to the first error, in order.
pub open spec fn fragments_of(events: Seq<Result<ChatEventView, Error>>) -> Seq<Seq<char>>
    decreases events.len(),
{
    if events.len() == 0 {
        Seq::empty()
    } else {
        match events[0] {
            Err(_) => Seq::empty(),
            Ok(ChatEventView::Token { token }) => seq![token] + fragments_of(events.skip(1)),
            Ok(ChatEventView::Done { .. }) => fragments_of(events.skip(1)),
        }
    }
}

/// The fragments joined into one text, in order.
pub open spec fn joined(fragments: Seq<Seq<char>>) -> Seq<char>
    decreases fragments.len(),
{
    if fragments.len() == 0 {
        Seq::empty()
    } else {
        fragments[0] + joined(fragments.skip(1))
    }
}

/// What one event adds to an answer: a token its fragment, any other event
/// nothing.
pub open spec fn fragment_of(event: ChatEventView) -> Seq<char> {
    match event {
        ChatEventView::Token { token } => token,
        ChatEventView::Done { .. } => Seq::empty(),
    }
}

/// Adds what `event` holds to the answer collected so far.
pub fn absorb(answer: &mut String, event: ChatEvent)
    ensures
        final(answer)@ == old(answer)@ + fragment_of(event@),
{
    match event {
        ChatEvent::Token { token } => {
            answer.append(token.as_str());
        },
        ChatEvent::Done { .. } => {
            assert(answer@ + Seq::<char>::empty() =~= answer@);
        },
    }
}

/// What collecting `events` gives: the first error, or else the token
/// fragments joined in order.
pub open spec fn collected(events: Seq<Result<ChatEventView, Error>>) -> Result<Seq<char>, Error> {
    match failure_of(events) {
        Some(error) => Err(error),
        None => Ok(joined(fragments_of(events))),
    }
}

/// The events of `frames` are the next event followed by the events of what
/// is left after it.
pub proof fn lemma_events_unfold(frames: Seq<PulledView>)
    ensures
        events_of(frames) == match next_event(frames) {
            Some(outcome) => seq![outcome] + events_of(rest_after_next(frames)),
            None => Seq::empty(),
        },
        next_event(frames) is None ==> rest_after_next(frames).len() == 0,
        next_event(frames) matches Some(Err(_)) ==> rest_after_next(frames).len() == 0,
        rest_after_next(frames).len() <= frames.len(),
        next_event(frames) is Some ==> rest_after_next(frames).len() < frames.len(),
    decreases frames.len(),
{
    if frames.len() > 0 {
        lemma_events_unfold(frames.skip(1));
        match frames[0] {
            Err(error) => {
                assert(events_of(Seq::<PulledView>::empty()) == Seq::<
                    Result<ChatEventView, Error>,
                >::empty());
            },
            Ok(frame) => {
                if let Some(Err(error)) = classified(frame) {
                    assert(events_of(Seq::<PulledView>::empty()) == Seq::<
                        Result<ChatEventView, Error>,
                    >::empty());
                }
            },
        }
    }
}

/// A single-pass stream of chat events over the frames of one response.
///
/// Frames that classify to nothing are passed over. The first error, from the
/// framing layer or from the classifier, is yielded once and ends the
/// stream. To replay a response, make a new stream.
#[derive(Debug)]
pub struct ChatResponseStream {
    frames: VecDeque<Pulled>,
}

impl View for ChatResponseStream {
    type V = Seq<PulledView>;

    /// The frames that have not been pulled yet.
    closed spec fn view(&self) -> Seq<PulledView> {
        self.frames@.map_values(|pulled: Pulled| pulled_view(pulled))
    }
}

impl ChatResponseStream {
    /// A stream with no frames.
    pub fn empty() -> (stream: Self)
        ensures
            stream@ == Seq::<PulledView>::empty(),
    {
        let stream = Self { frames: VecDeque::new() };
        assert(stream@ =~= Seq::<PulledView>::empty());
        stream
    }

    /// Create a new chat response stream over `frames`, first frame first.
    pub fn new(frames: Vec<Pulled>) -> (stream: Self)
        ensures
            stream@ == frames@.map_values(|pulled: Pulled| pulled_view(pulled)),
    {
        let mut source = frames;
        let mut queue: VecDeque<Pulled> = VecDeque::new();
        while source.len() > 0
            invariant
                source@ + queue@ == frames@,
            decreases source.len(),
        {
            let ghost before = source@;
            let ghost queued = queue@;
            match source.pop() {
                Some(pulled) => {
                    queue.push_front(pulled);
                    assert(source@ + queue@ =~= before + queued);
                },
                None => {},
            }
        }
        assert(queue@ =~= frames@);
        Self { frames: queue }
    }

    /// The number of frames that have not been pulled yet.
    pub fn pending(&self) -> (count: usize)
        ensures
            count == self@.len(),
    {
        self.frames.len()
    }

    /// Pulls the next chat event: `None` once the frames are used up or an
    /// error has been yielded.
    pub fn next(&mut self) -> (outcome: Option<Result<ChatEvent, Error>>)
        ensures
            outcome_view(outcome) == next_event(old(self)@),
            final(self)@ == rest_after_next(old(self)@),
    {
        loop
            invariant
                next_event(self@) == next_event(old(self)@),
                rest_after_next(self@) == rest_after_next(old(self)@),
            decreases self@.len(),
        {
            let ghost before = self@;
            let pulled = self.frames.pop_front();
            proof {
                if pulled is Some {
                    assert(before[0] == pulled_view(pulled->Some_0));
                    assert(self@ =~= before.skip(1));
                } else {
                    assert(self@ =~= before);
                }
            }
            match step(pulled) {
                Step::End => {
                    return None;
                },
                Step::Fail(error) => {
                    self.frames.clear();
                    assert(self@ =~= Seq::<PulledView>::empty());
                    return Some(Err(error));
                },
                Step::Yield(event) => {
                    return Some(Ok(event));
                },
                Step::Skip => {},
            }
        }
    }

    /// Collect the answer tokens.
    ///
    /// This consumes all events in the stream. All non-token events are
    /// ignored. The result is the first error, or else the token fragments
    /// joined in order; on a stream that is already used up, the empty text.
    pub fn collect_answer(&mut self) -> (answer: Result<String, Error>)
        ensures
            text_result_view(answer) == collected(events_of(old(self)@)),
            final(self)@ == Seq::<PulledView>::empty(),
    {
        let mut answer = String::new();
        loop
            invariant
                failure_of(events_of(old(self)@)) == failure_of(events_of(self@)),
                joined(fragments_of(events_of(old(self)@))) == answer@ + joined(
                    fragments_of(events_of(self@)),
                ),
            decreases self@.len(),
        {
            let ghost before = self@;
            let ghost so_far = answer@;
            proof {
                lemma_events_unfold(before);
            }
            match self.next() {
                None => {
                    assert(answer@ + Seq::<char>::empty() =~= answer@);
                    assert(self@ =~= Seq::<PulledView>::empty());
                    return Ok(answer);
                },
                Some(Err(error)) => {
                    assert(self@ =~= Seq::<PulledView>::empty());
                    return Err(error);
                },
                Some(Ok(event)) => {
                    let ghost rest = events_of(self@);
                    assert(events_of(before) == seq![Ok::<ChatEventView, Error>(event@)] + rest);
                    assert(events_of(before).skip(1) =~= rest);
                    proof {
                        if let ChatEventView::Token { token } = event@ {
                            assert(so_far + (token + joined(fragments_of(rest))) =~= (so_far
                                + token) + joined(fragments_of(rest)));
                            assert((seq![token] + fragments_of(rest)).skip(1) =~= fragments_of(
                                rest,
                            ));
                        } else {
                            assert(so_far + Seq::<char>::empty() =~= so_far);
                        }
                    }
                    absorb(&mut answer, event);
                },
            }
        }
    }
}

} // verus!

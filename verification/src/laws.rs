use crate::chat::{resolved_index, ChatView};
use crate::classify::{classified, DONE_LABEL, TOKEN_LABEL};
use crate::error::Error;
use crate::model::{ChatEventView, ChatMessageView, RawFrameView};
use crate::session::{deliveries_of, history_after};
use crate::stream::{
    collected, events_of, failure_of, fragments_of, joined, next_event, rest_after_next,
    PulledView,
};
use vstd::prelude::*;

verus! {

/// The fragments among what a consumer observed, in the order of delivery.
pub open spec fn observed_fragments(deliveries: Seq<Result<Seq<char>, Error>>) -> Seq<Seq<char>>
    decreases deliveries.len(),
{
    if deliveries.len() == 0 {
        Seq::empty()
    } else {
        match deliveries[0] {
            Ok(fragment) => seq![fragment] + observed_fragments(deliveries.skip(1)),
            Err(_) => observed_fragments(deliveries.skip(1)),
        }
    }
}

/// The fragments that a consumer observes are the token fragments of the
/// events, in the same order.
pub proof fn lemma_observed_are_fragments(events: Seq<Result<ChatEventView, Error>>)
    ensures
        observed_fragments(deliveries_of(events)) == fragments_of(events),
    decreases events.len(),
{
    if events.len() > 0 {
        let rest = events.skip(1);
        lemma_observed_are_fragments(rest);
        match events[0] {
            Err(error) => {
                let delivered = seq![Err::<Seq<char>, Error>(error)];
                assert(delivered.skip(1) =~= Seq::<Result<Seq<char>, Error>>::empty());
                assert(observed_fragments(delivered.skip(1)) =~= Seq::<Seq<char>>::empty());
            },
            Ok(ChatEventView::Token { token }) => {
                let delivered = seq![Ok::<Seq<char>, Error>(token)] + deliveries_of(rest);
                assert(delivered.skip(1) =~= deliveries_of(rest));
            },
            Ok(ChatEventView::Done { .. }) => {},
        }
    }
}

/// A successful exchange appends exactly one message to the history: it
/// holds the question that was asked and, as its answer, every fragment that
/// the consumer observed, joined in the order of delivery. Nothing but
/// fragments was delivered.
pub proof fn law_success_appends_one_message(
    history: Seq<ChatMessageView>,
    question: Seq<char>,
    frames: Seq<PulledView>,
)
    requires
        failure_of(events_of(frames)) is None,
    ensures
        history_after(history, question, events_of(frames)) == history.push(
            ChatMessageView {
                question,
                answer: joined(observed_fragments(deliveries_of(events_of(frames)))),
            },
        ),
        history_after(history, question, events_of(frames)).len() == history.len() + 1,
        forall|i: int|
            0 <= i < deliveries_of(events_of(frames)).len() ==> (#[trigger] deliveries_of(
                events_of(frames),
            )[i]) is Ok,
{
    lemma_observed_are_fragments(events_of(frames));
    lemma_deliveries_without_failure(events_of(frames));
}

/// Where no error ends the events, nothing but fragments is delivered.
pub proof fn lemma_deliveries_without_failure(events: Seq<Result<ChatEventView, Error>>)
    requires
        failure_of(events) is None,
    ensures
        forall|i: int|
            0 <= i < deliveries_of(events).len() ==> (#[trigger] deliveries_of(events)[i]) is Ok,
    decreases events.len(),
{
    if events.len() > 0 {
        lemma_deliveries_without_failure(events.skip(1));
    }
}

/// Where an error ends the events, it is delivered once and last, and every
/// delivery before it is a fragment.
pub proof fn lemma_failure_is_delivered_last(events: Seq<Result<ChatEventView, Error>>)
    requires
        failure_of(events) is Some,
    ensures
        deliveries_of(events).len() > 0,
        deliveries_of(events).last() == Err::<Seq<char>, Error>(failure_of(events)->Some_0),
        forall|i: int|
            0 <= i < deliveries_of(events).len() - 1 ==> (#[trigger] deliveries_of(events)[i])
                is Ok,
    decreases events.len(),
{
    if events.len() > 0 {
        match events[0] {
            Err(_) => {},
            Ok(_) => {
                lemma_failure_is_delivered_last(events.skip(1));
            },
        }
    }
}

/// A failed exchange leaves the history exactly as it was.
pub proof fn law_failure_keeps_history(
    history: Seq<ChatMessageView>,
    question: Seq<char>,
    frames: Seq<PulledView>,
)
    requires
        failure_of(events_of(frames)) is Some,
    ensures
        history_after(history, question, events_of(frames)) == history,
        history_after(history, question, events_of(frames)).len() == history.len(),
        deliveries_of(events_of(frames)).len() > 0,
        deliveries_of(events_of(frames)).last() == Err::<Seq<char>, Error>(
            failure_of(events_of(frames))->Some_0,
        ),
{
    lemma_failure_is_delivered_last(events_of(frames));
}

/// On a history that is not empty, the index `-1` stands for the message
/// that was appended last; the indices `len` and `-len - 1` stand for none.
pub proof fn law_index_from_the_end(len: nat)
    ensures
        len > 0 ==> resolved_index(-1, len) == Some(len - 1),
        resolved_index(len as int, len) is None,
        resolved_index(-(len as int) - 1, len) is None,
{
}

/// Every index that stands for a message stands for one inside the history,
/// and an index below zero for the same message as that index plus the
/// length.
pub proof fn law_index_in_range(index: int, len: nat)
    ensures
        resolved_index(index, len) matches Some(place) ==> 0 <= place < len,
        resolved_index(index, len) is Some <==> -(len as int) <= index < len,
        -(len as int) <= index < 0 ==> resolved_index(index, len) == resolved_index(
            index + len,
            len,
        ),
{
}

/// While a write handle is out, no reader and no second writer is admitted.
pub proof fn law_writer_excludes_all(chat: ChatView)
    requires
        chat.writing(),
    ensures
        !chat.readable(),
        !chat.writable(),
{
}

/// While a read handle is out, no writer is admitted.
pub proof fn law_reader_excludes_writer(chat: ChatView)
    requires
        chat.readers > 0,
    ensures
        !chat.writable(),
{
}

/// A frame that classifies to nothing is invisible: the events of a
/// response are the same with and without it, wherever it stands.
pub proof fn law_skipped_frame_is_invisible(
    before: Seq<PulledView>,
    frame: RawFrameView,
    after: Seq<PulledView>,
)
    requires
        classified(frame) is None,
    ensures
        events_of(before.push(Ok(frame)) + after) == events_of(before + after),
    decreases before.len(),
{
    let with = before.push(Ok(frame)) + after;
    let without = before + after;
    if before.len() == 0 {
        assert(with.skip(1) =~= after);
        assert(without =~= after);
    } else {
        let tail = before.skip(1);
        law_skipped_frame_is_invisible(tail, frame, after);
        assert(with.skip(1) =~= tail.push(Ok(frame)) + after);
        assert(without.skip(1) =~= tail + after);
        assert(with[0] == before[0]);
        assert(without[0] == before[0]);
    }
}

/// A frame whose label is none of the known ones, or that has no label,
/// classifies to nothing.
pub proof fn law_unknown_label_is_skipped(frame: RawFrameView)
    requires
        frame.event != Some(TOKEN_LABEL@),
        frame.event != Some(DONE_LABEL@),
    ensures
        classified(frame) is None,
{
}

/// Collecting a stream that is used up gives the empty text.
pub proof fn law_collect_exhausted()
    ensures
        collected(events_of(Seq::<PulledView>::empty())) == Ok::<Seq<char>, Error>(Seq::empty()),
{
    assert(events_of(Seq::<PulledView>::empty()) =~= Seq::empty());
    assert(fragments_of(Seq::<Result<ChatEventView, Error>>::empty()) =~= Seq::empty());
    assert(joined(Seq::<Seq<char>>::empty()) =~= Seq::empty());
}

/// A token frame without a payload yields `SseEventMissingData` and ends
/// the stream: whatever frames follow it, none of them is classified.
pub proof fn law_missing_payload_ends_stream(frame: RawFrameView, after: Seq<PulledView>)
    requires
        frame.event == Some(TOKEN_LABEL@),
        frame.data is None,
    ensures
        classified(frame) == Some(Err::<ChatEventView, Error>(Error::SseEventMissingData)),
        next_event(seq![Ok(frame)] + after) == Some(
            Err::<ChatEventView, Error>(Error::SseEventMissingData),
        ),
        rest_after_next(seq![Ok(frame)] + after) == Seq::<PulledView>::empty(),
        events_of(seq![Ok(frame)] + after) == seq![
            Err::<ChatEventView, Error>(Error::SseEventMissingData),
        ],
{
    let frames = seq![Ok::<RawFrameView, Error>(frame)] + after;
    assert(frames[0] == Ok::<RawFrameView, Error>(frame));
}

/// An error ends the events of a response: whatever frames follow the one
/// that fails, the events are the same.
pub proof fn law_error_ends_events(
    before: Seq<PulledView>,
    after: Seq<PulledView>,
)
    requires
        failure_of(events_of(before)) is Some,
    ensures
        events_of(before + after) == events_of(before),
    decreases before.len(),
{
    if before.len() > 0 {
        let whole = before + after;
        assert(whole[0] == before[0]);
        assert(whole.skip(1) =~= before.skip(1) + after);
        match before[0] {
            Err(_) => {},
            Ok(frame) => match classified(frame) {
                Some(Err(_)) => {},
                Some(Ok(event)) => {
                    assert((seq![Ok::<ChatEventView, Error>(event)] + events_of(
                        before.skip(1),
                    )).skip(1) =~= events_of(before.skip(1)));
                    law_error_ends_events(before.skip(1), after);
                },
                None => {
                    law_error_ends_events(before.skip(1), after);
                },
            },
        }
    }
}

} // verus!

use crate::error::Error;
use crate::json::{read_string_member, string_member};
use crate::model::{ChatEvent, ChatEventView, RawFrame, RawFrameView};
use vstd::prelude::*;
use vstd::string::*;

verus! {

/// The label of the frames that carry a token fragment.
pub const TOKEN_LABEL: &'static str = "youChatToken";

/// The label of the frame that closes an answer.
pub const DONE_LABEL: &'static str = "done";

/// The member of a token payload that holds the fragment.
pub const TOKEN_FIELD: &'static str = "youChatToken";

/// Where a frame goes, decided by its label and the presence of a payload.
#[derive(Debug, Clone, PartialEq, Eq)]
pub enum Route {
    /// A token frame; its payload still has to be decoded.
    TokenPayload { data: String },
    /// A done frame with its payload.
    Done { text: String },
    /// A token or done frame without a payload.
    MissingPayload,
    /// A frame with another label, or with none.
    Skip,
}

/// The mathematical value of a [`Route`].
pub enum RouteView {
    TokenPayload { data: Seq<char> },
    Done { text: Seq<char> },
    MissingPayload,
    Skip,
}

impl View for Route {
    type V = RouteView;

    open spec fn view(&self) -> RouteView {
        match self {
            Route::TokenPayload { data } => RouteView::TokenPayload { data: data@ },
            Route::Done { text } => RouteView::Done { text: text@ },
            Route::MissingPayload => RouteView::MissingPayload,
            Route::Skip => RouteView::Skip,
        }
    }
}

/// The route of a frame: token and done frames need a payload, every other
/// frame is skipped.
pub open spec fn routed(frame: RawFrameView) -> RouteView {
    if frame.event == Some(TOKEN_LABEL@) {
        match frame.data {
            Some(data) => RouteView::TokenPayload { data },
            None => RouteView::MissingPayload,
        }
    } else if frame.event == Some(DONE_LABEL@) {
        match frame.data {
            Some(text) => RouteView::Done { text },
            None => RouteView::MissingPayload,
        }
    } else {
        RouteView::Skip
    }
}

/// What a token payload decodes to: the fragment it holds, or
/// `InvalidJsonEventData`.
pub open spec fn decoded(data: Seq<char>) -> Result<ChatEventView, Error> {
    match string_member(data, TOKEN_FIELD@) {
        Some(token) => Ok(ChatEventView::Token { token }),
        None => Err(Error::InvalidJsonEventData),
    }
}

/// The chat event of a frame: `None` for a frame that is skipped, an error
/// for a token or done frame that cannot be used.
pub open spec fn classified(frame: RawFrameView) -> Option<Result<ChatEventView, Error>> {
    match routed(frame) {
        RouteView::TokenPayload { data } => Some(decoded(data)),
        RouteView::Done { text } => Some(Ok(ChatEventView::Done { text })),
        RouteView::MissingPayload => Some(Err(Error::SseEventMissingData)),
        RouteView::Skip => None,
    }
}

/// The view of what a classification or a pull yields.
pub open spec fn outcome_view(outcome: Option<Result<ChatEvent, Error>>) -> Option<
    Result<ChatEventView, Error>,
> {
    match outcome {
        Some(Ok(event)) => Some(Ok(event@)),
        Some(Err(error)) => Some(Err(error)),
        None => None,
    }
}

/// True where `label` is present and reads `expected`.
fn label_is(label: &Option<String>, expected: &str) -> (same: bool)
    ensures
        same == (crate::model::text_view(*label) == Some(expected@)),
{
    match label {
        Some(text) => {
            let wanted = String::from_str(expected);
            *text == wanted
        },
        None => false,
    }
}

/// Decides by its label where a frame goes.
pub fn route(frame: RawFrame) -> (way: Route)
    ensures
        way@ == routed(frame@),
{
    let RawFrame { event, data } = frame;
    if label_is(&event, TOKEN_LABEL) {
        match data {
            Some(data) => Route::TokenPayload { data },
            None => Route::MissingPayload,
        }
    } else if label_is(&event, DONE_LABEL) {
        match data {
            Some(text) => Route::Done { text },
            None => Route::MissingPayload,
        }
    } else {
        Route::Skip
    }
}

/// Turns the outcome of decoding a token payload into the event it stands
/// for: the fragment becomes a token, a failure stays a failure.
pub fn token_event(fragment: Result<String, Error>) -> (event: Result<ChatEvent, Error>)
    ensures
        match fragment {
            Ok(token) => event == Ok::<ChatEvent, Error>(ChatEvent::Token { token }),
            Err(error) => event == Err::<ChatEvent, Error>(error),
        },
{
    match fragment {
        Ok(token) => Ok(ChatEvent::Token { token }),
        Err(error) => Err(error),
    }
}

/// Maps one raw frame to at most one chat event.
pub fn classify(frame: RawFrame) -> (outcome: Option<Result<ChatEvent, Error>>)
    ensures
        outcome_view(outcome) == classified(frame@),
{
    match route(frame) {
        Route::TokenPayload { data } => Some(
            token_event(read_string_member(data.as_str(), TOKEN_FIELD)),
        ),
        Route::Done { text } => Some(Ok(ChatEvent::Done { text })),
        Route::MissingPayload => Some(Err(Error::SseEventMissingData)),
        Route::Skip => None,
    }
}

} // verus!

//! What the worker sends back to the threads that queue commands.

use vstd::prelude::*;

verus! {

/// Why a request could not be served. A variant that came from outside the
/// worker carries the description it was reported with.
#[derive(Clone, Debug, PartialEq, Eq)]
pub enum Failure {
    /// A selection was asked for on a connection without selection support.
    Unsupported,
    /// The request to load a selection could not be issued.
    Load(String),
    /// The connection could not be attached to the event loop.
    Registration(String),
    /// A step of the event loop failed.
    Dispatch(String),
}

/// The mathematical value of a [`Failure`].
pub enum FailureView {
    Unsupported,
    Load(Seq<char>),
    Registration(Seq<char>),
    Dispatch(Seq<char>),
}

impl FailureView {
    /// The text that describes the failure to the caller.
    pub open spec fn message(self) -> Seq<char> {
        match self {
            FailureView::Unsupported => "requested selection is not supported"@,
            FailureView::Load(description) => description,
            FailureView::Registration(description) => description,
            FailureView::Dispatch(description) => description,
        }
    }
}

impl View for Failure {
    type V = FailureView;

    open spec fn view(&self) -> FailureView {
        match self {
            Failure::Unsupported => FailureView::Unsupported,
            Failure::Load(description) => FailureView::Load(description@),
            Failure::Registration(description) => FailureView::Registration(description@),
            Failure::Dispatch(description) => FailureView::Dispatch(description@),
        }
    }
}

impl DeepView for Failure {
    type V = FailureView;

    open spec fn deep_view(&self) -> FailureView {
        self@
    }
}

impl Failure {
    /// The text that describes the failure to the caller.
    pub fn message(&self) -> (text: String)
        ensures
            text@ == self@.message(),
    {
        match self {
            Failure::Unsupported => "requested selection is not supported".to_owned(),
            Failure::Load(description) => description.clone(),
            Failure::Registration(description) => description.clone(),
            Failure::Dispatch(description) => description.clone(),
        }
    }
}

/// The answer to a request: the text of the selection, or the reason why
/// there is none.
#[derive(Clone, Debug, PartialEq, Eq)]
pub enum Reply {
    /// The text that the selection holds.
    Text(String),
    /// The request failed.
    Failed(Failure),
}

/// The mathematical value of a [`Reply`].
pub enum ReplyView {
    Text(Seq<char>),
    Failed(FailureView),
}

impl View for Reply {
    type V = ReplyView;

    open spec fn view(&self) -> ReplyView {
        match self {
            Reply::Text(text) => ReplyView::Text(text@),
            Reply::Failed(failure) => ReplyView::Failed(failure@),
        }
    }
}

impl DeepView for Reply {
    type V = ReplyView;

    open spec fn deep_view(&self) -> ReplyView {
        self@
    }
}

impl Reply {
    /// The reply as a `Result`, for callers that go on with `?`.
    pub fn into_result(self) -> (result: Result<String, Failure>)
        ensures
            match result {
                Ok(text) => self@ == ReplyView::Text(text@),
                Err(failure) => self@ == ReplyView::Failed(failure@),
            },
    {
        match self {
            Reply::Text(text) => Ok(text),
            Reply::Failed(failure) => Err(failure),
        }
    }
}

} // verus!

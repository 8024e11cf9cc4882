//! The worker as a state machine: for each event that the worker can meet,
//! what it does and which lifecycle state follows.
//!
//! Nothing here touches a queue, a connection or a thread. The code that owns
//! those reports each event to a [`Worker`], carries out the [`Handling`] it
//! gets back, and sends the replies.

use vstd::prelude::*;
use crate::command::{Command, CommandView, SelectionTarget};
use crate::reply::{Failure, FailureView, Reply, ReplyView};

verus! {

/// Where a worker stands between its start and its end. A worker only ever
/// moves forward through these states.
#[derive(Clone, Copy, Debug, PartialEq, Eq, Structural)]
pub enum Lifecycle {
    /// Commands are handled.
    Running,
    /// `Exit` was handled or a step of the event loop failed; the loop stops
    /// at its next check.
    ExitRequested,
    /// The loop has stopped.
    Terminated,
}

/// What has to be done for one command.
#[derive(Clone, Debug, PartialEq, Eq)]
pub enum Handling {
    /// Publish the text as the content of the selection.
    Store(SelectionTarget, String),
    /// Request the content of the selection. The selection state answers a
    /// request that it accepts; a request that cannot be issued is settled
    /// by [`Worker::settle_load`].
    Load(SelectionTarget),
    /// Send this reply.
    Reply(Reply),
    /// Nothing.
    Idle,
}

/// The mathematical value of a [`Handling`].
pub enum HandlingView {
    Store(SelectionTarget, Seq<char>),
    Load(SelectionTarget),
    Reply(ReplyView),
    Idle,
}

impl View for Handling {
    type V = HandlingView;

    open spec fn view(&self) -> HandlingView {
        match self {
            Handling::Store(target, text) => HandlingView::Store(*target, text@),
            Handling::Load(target) => HandlingView::Load(*target),
            Handling::Reply(reply) => HandlingView::Reply(reply@),
            Handling::Idle => HandlingView::Idle,
        }
    }
}

/// The part of the worker's setup that failed.
#[derive(Clone, Debug, PartialEq, Eq)]
pub enum SetupFailure {
    /// The registry of the connection could not be read.
    Registry,
    /// The selection state could not be constructed.
    SelectionState,
    /// The connection could not be attached to the event loop.
    Registration(String),
}

/// The mathematical value of a [`SetupFailure`].
pub enum SetupFailureView {
    Registry,
    SelectionState,
    Registration(Seq<char>),
}

impl View for SetupFailure {
    type V = SetupFailureView;

    open spec fn view(&self) -> SetupFailureView {
        match self {
            SetupFailure::Registry => SetupFailureView::Registry,
            SetupFailure::SelectionState => SetupFailureView::SelectionState,
            SetupFailure::Registration(description) => SetupFailureView::Registration(
                description@,
            ),
        }
    }
}

/// The description of the failure that an outcome reports, if it reports one.
pub open spec fn failure_of(outcome: Result<(), String>) -> Option<Seq<char>> {
    match outcome {
        Ok(_) => None,
        Err(description) => Some(description@),
    }
}

/// The reply that settles a load request, given the failure to issue it, if
/// there was one.
pub open spec fn load_reply(failure: Option<Seq<char>>) -> Option<ReplyView> {
    match failure {
        Some(description) => Some(ReplyView::Failed(FailureView::Load(description))),
        None => None,
    }
}

impl Lifecycle {
    /// How far the worker has come: a later state has a higher rank.
    pub open spec fn rank(self) -> int {
        match self {
            Lifecycle::Running => 0,
            Lifecycle::ExitRequested => 1,
            Lifecycle::Terminated => 2,
        }
    }

    /// What a worker in this state does for `command`, on a connection with
    /// or without selection support. A running worker passes a store on to
    /// the selection that the command names, and a load too where the
    /// connection has selection support; without it the load is refused.
    /// `Exit` asks nothing of anybody, and a worker that is not running
    /// handles no command at all.
    pub open spec fn handling(self, command: CommandView, supported: bool) -> HandlingView {
        if self != Lifecycle::Running {
            HandlingView::Idle
        } else if let Some((target, text)) = command.stored() {
            HandlingView::Store(target, text)
        } else if let Some(target) = command.loaded() {
            if supported {
                HandlingView::Load(target)
            } else {
                HandlingView::Reply(ReplyView::Failed(FailureView::Unsupported))
            }
        } else {
            HandlingView::Idle
        }
    }

    /// The state after `command` was handled.
    pub open spec fn after_command(self, command: CommandView) -> Lifecycle {
        if self == Lifecycle::Running && command is Exit {
            Lifecycle::ExitRequested
        } else {
            self
        }
    }

    /// The reply that reports how a step of the event loop ended, given the
    /// failure it ended with, if there was one.
    pub open spec fn dispatch_reply(self, failure: Option<Seq<char>>) -> Option<ReplyView> {
        match failure {
            Some(description) if self != Lifecycle::Terminated => Some(
                ReplyView::Failed(FailureView::Dispatch(description)),
            ),
            _ => None,
        }
    }

    /// The state after a step of the event loop ended.
    pub open spec fn after_dispatch(self, failure: Option<Seq<char>>) -> Lifecycle {
        if self == Lifecycle::Running && failure is Some {
            Lifecycle::ExitRequested
        } else {
            self
        }
    }

    /// The state after the loop's check of whether to stop.
    pub open spec fn after_check(self) -> Lifecycle {
        if self == Lifecycle::Running {
            Lifecycle::Running
        } else {
            Lifecycle::Terminated
        }
    }

    /// The reply that reports a failed setup.
    pub open spec fn setup_reply(self, failure: SetupFailureView) -> Option<ReplyView> {
        match failure {
            SetupFailureView::Registration(description) if self != Lifecycle::Terminated => Some(
                ReplyView::Failed(FailureView::Registration(description)),
            ),
            _ => None,
        }
    }
}

/// The state of one worker.
#[derive(Debug)]
pub struct Worker {
    lifecycle: Lifecycle,
}

impl View for Worker {
    type V = Lifecycle;

    closed spec fn view(&self) -> Lifecycle {
        self.lifecycle
    }
}

impl Worker {
    /// A worker that is about to enter its event loop.
    pub fn new() -> (worker: Worker)
        ensures
            worker@ == Lifecycle::Running,
    {
        Worker { lifecycle: Lifecycle::Running }
    }

    /// The state the worker is in.
    pub fn lifecycle(&self) -> (lifecycle: Lifecycle)
        ensures
            lifecycle == self@,
    {
        self.lifecycle
    }

    /// Ends a worker whose setup failed, and says what to report. A failure
    /// before any command could be accepted is not reported: nobody is owed
    /// a reply yet. A failed registration is.
    pub fn abort(&mut self, failure: SetupFailure) -> (reply: Option<Reply>)
        ensures
            final(self)@ == Lifecycle::Terminated,
            reply.deep_view() == old(self)@.setup_reply(failure@),
    {
        let reply = match failure {
            SetupFailure::Registration(description) => match self.lifecycle {
                Lifecycle::Terminated => None,
                _ => Some(Reply::Failed(Failure::Registration(description))),
            },
            _ => None,
        };
        self.lifecycle = Lifecycle::Terminated;
        reply
    }

    /// Handles one command from the queue. `supported` says whether the
    /// connection has selection support at this moment.
    ///
    /// A worker that is no longer running handles nothing: the command is
    /// dropped.
    pub fn handle(&mut self, command: Command, supported: bool) -> (handling: Handling)
        ensures
            handling@ == old(self)@.handling(command@, supported),
            final(self)@ == old(self)@.after_command(command@),
    {
        match self.lifecycle {
            Lifecycle::Running => {},
            _ => {
                return Handling::Idle;
            },
        }
        match command {
            Command::StorePrimary(text) => Handling::Store(SelectionTarget::Primary, text),
            Command::Store(text) => Handling::Store(SelectionTarget::Clipboard, text),
            Command::Load => if supported {
                Handling::Load(SelectionTarget::Clipboard)
            } else {
                Handling::Reply(Reply::Failed(Failure::Unsupported))
            },
            Command::LoadPrimary => if supported {
                Handling::Load(SelectionTarget::Primary)
            } else {
                Handling::Reply(Reply::Failed(Failure::Unsupported))
            },
            Command::Exit => {
                self.lifecycle = Lifecycle::ExitRequested;
                Handling::Idle
            },
        }
    }

    /// Settles a load request after the attempt to issue it. A request that
    /// was accepted is answered later by the selection state; one that could
    /// not be issued is answered here, with the failure.
    pub fn settle_load(issue: Result<(), String>) -> (reply: Option<Reply>)
        ensures
            reply.deep_view() == load_reply(failure_of(issue)),
    {
        match issue {
            Ok(_) => None,
            Err(description) => Some(Reply::Failed(Failure::Load(description))),
        }
    }

    /// Takes note of how a step of the event loop ended. A failed step is
    /// reported once and asks the worker to exit.
    pub fn dispatched(&mut self, outcome: Result<(), String>) -> (reply: Option<Reply>)
        ensures
            reply.deep_view() == old(self)@.dispatch_reply(failure_of(outcome)),
            final(self)@ == old(self)@.after_dispatch(failure_of(outcome)),
    {
        match outcome {
            Ok(_) => None,
            Err(description) => match self.lifecycle {
                Lifecycle::Terminated => None,
                _ => {
                    self.lifecycle = Lifecycle::ExitRequested;
                    Some(Reply::Failed(Failure::Dispatch(description)))
                },
            },
        }
    }

    /// The loop's check after each step: whether to stop. A worker that was
    /// asked to exit is terminated by the check.
    pub fn should_stop(&mut self) -> (stop: bool)
        ensures
            final(self)@ == old(self)@.after_check(),
            stop == (old(self)@ != Lifecycle::Running),
    {
        match self.lifecycle {
            Lifecycle::Running => false,
            _ => {
                self.lifecycle = Lifecycle::Terminated;
                true
            },
        }
    }
}

} // verus!

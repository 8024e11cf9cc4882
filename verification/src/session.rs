//! A worker joined to in-memory selections: command sequences from the queue
//! to the replies.
//!
//! A session does in one place what a worker thread and a display server do
//! between them, so that the worker's rules can be followed from the
//! commands that go in to the replies that come out. The in-memory
//! selections answer a load at once, where a display server answers with a
//! later event; a load of a selection that holds nothing cannot be issued.

use vstd::prelude::*;
use crate::command::{Command, CommandView};
use crate::reply::{FailureView, Reply, ReplyView};
use crate::selections::{Selections, SelectionsView};
use crate::worker::{failure_of, Handling, HandlingView, Lifecycle, Worker};

verus! {

/// A worker together with the selections it serves.
#[derive(Debug)]
pub struct Session {
    worker: Worker,
    supported: bool,
    selections: Selections,
}

/// The mathematical value of a [`Session`].
pub struct SessionView {
    /// The state of the worker.
    pub lifecycle: Lifecycle,
    /// Whether the connection has selection support.
    pub supported: bool,
    /// What the selections hold.
    pub selections: SelectionsView,
}

impl SessionView {
    /// A session that has handled nothing yet.
    pub open spec fn fresh(supported: bool) -> SessionView {
        SessionView {
            lifecycle: Lifecycle::Running,
            supported,
            selections: SelectionsView::empty(),
        }
    }

    /// The reply that `command` gets, if it gets one.
    pub open spec fn reply_to(self, command: CommandView) -> Option<ReplyView> {
        match self.lifecycle.handling(command, self.supported) {
            HandlingView::Load(target) => Some(
                match self.selections.content(target) {
                    Some(text) => ReplyView::Text(text),
                    None => ReplyView::Failed(FailureView::Load("selection is empty"@)),
                },
            ),
            HandlingView::Reply(reply) => Some(reply),
            _ => None,
        }
    }

    /// The session after `command` was handled.
    pub open spec fn after(self, command: CommandView) -> SessionView {
        SessionView {
            lifecycle: self.lifecycle.after_command(command),
            supported: self.supported,
            selections: match self.lifecycle.handling(command, self.supported) {
                HandlingView::Store(target, text) => self.selections.with(target, text),
                _ => self.selections,
            },
        }
    }

    /// The session after `commands` were handled, first to last.
    pub open spec fn after_all(self, commands: Seq<CommandView>) -> SessionView
        decreases commands.len(),
    {
        if commands.len() == 0 {
            self
        } else {
            self.after_all(commands.drop_last()).after(commands.last())
        }
    }

    /// The replies that `commands` get, in the order of the commands.
    pub open spec fn replies_to(self, commands: Seq<CommandView>) -> Seq<ReplyView>
        decreases commands.len(),
    {
        if commands.len() == 0 {
            Seq::empty()
        } else {
            let earlier = self.replies_to(commands.drop_last());
            match self.after_all(commands.drop_last()).reply_to(commands.last()) {
                Some(reply) => earlier.push(reply),
                None => earlier,
            }
        }
    }

    /// The replies of one step of the event loop: those to the commands that
    /// the step delivered, then the report of the step's failure, if it
    /// failed.
    pub open spec fn step_replies(
        self,
        commands: Seq<CommandView>,
        failure: Option<Seq<char>>,
    ) -> Seq<ReplyView> {
        let replies = self.replies_to(commands);
        match self.after_all(commands).lifecycle.dispatch_reply(failure) {
            Some(report) => replies.push(report),
            None => replies,
        }
    }

    /// The session after one step of the event loop and the check that
    /// follows it.
    pub open spec fn after_step(
        self,
        commands: Seq<CommandView>,
        failure: Option<Seq<char>>,
    ) -> SessionView {
        let handled = self.after_all(commands);
        SessionView {
            lifecycle: handled.lifecycle.after_dispatch(failure).after_check(),
            supported: handled.supported,
            selections: handled.selections,
        }
    }
}

impl View for Session {
    type V = SessionView;

    closed spec fn view(&self) -> SessionView {
        SessionView {
            lifecycle: self.worker@,
            supported: self.supported,
            selections: self.selections@,
        }
    }
}

impl Session {
    /// A session that has handled nothing yet, on a connection with or
    /// without selection support.
    pub fn new(supported: bool) -> (session: Session)
        ensures
            session@ == SessionView::fresh(supported),
    {
        Session { worker: Worker::new(), supported, selections: Selections::new() }
    }

    /// The state the worker is in.
    pub fn lifecycle(&self) -> (lifecycle: Lifecycle)
        ensures
            lifecycle == self@.lifecycle,
    {
        self.worker.lifecycle()
    }

    /// Handles one command and gives the reply to it, if it gets one: to a
    /// load that the worker passes on, the text that the selection holds, or
    /// the failure to issue the load where it holds nothing.
    pub fn submit(&mut self, command: Command) -> (reply: Option<Reply>)
        ensures
            reply.deep_view() == old(self)@.reply_to(command@),
            final(self)@ == old(self)@.after(command@),
    {
        match self.worker.handle(command, self.supported) {
            Handling::Store(target, text) => {
                self.selections.store(target, text);
                None
            },
            Handling::Load(target) => match self.selections.load(target) {
                Some(text) => Some(Reply::Text(text)),
                None => Worker::settle_load(Err("selection is empty".to_owned())),
            },
            Handling::Reply(reply) => Some(reply),
            Handling::Idle => None,
        }
    }

    /// Handles `commands`, first to last, and gives the replies in the order
    /// of the commands that they answer.
    pub fn submit_all(&mut self, commands: Vec<Command>) -> (replies: Vec<Reply>)
        ensures
            replies.deep_view() == old(self)@.replies_to(commands.deep_view()),
            final(self)@ == old(self)@.after_all(commands.deep_view()),
    {
        let ghost all = commands.deep_view();
        let mut replies: Vec<Reply> = Vec::new();
        for command in iter: commands
            invariant
                iter.seq().len() == all.len(),
                forall|i: int| 0 <= i < all.len() ==> (#[trigger] iter.seq()[i])@ == all[i],
                replies.deep_view() == old(self)@.replies_to(all.take(iter.index() as int)),
                self@ == old(self)@.after_all(all.take(iter.index() as int)),
        {
            proof {
                let done = iter.index() as int;
                assert(all.take(done + 1).drop_last() == all.take(done));
                assert(all.take(done + 1).last() == command@);
            }
            let ghost before = replies.deep_view();
            let reply = self.submit(command);
            if let Some(reply) = reply {
                replies.push(reply);
                assert(replies.deep_view() == before.push(reply@));
            }
        }
        proof {
            assert(all.take(all.len() as int) == all);
        }
        replies
    }

    /// Runs one step of the event loop: handles the commands that the step
    /// delivered, reports the step's failure if `outcome` is one, and makes
    /// the check that follows each step. The worker is terminated afterwards
    /// unless it is still running.
    pub fn step(&mut self, commands: Vec<Command>, outcome: Result<(), String>) -> (replies: Vec<
        Reply,
    >)
        ensures
            replies.deep_view() == old(self)@.step_replies(
                commands.deep_view(),
                failure_of(outcome),
            ),
            final(self)@ == old(self)@.after_step(commands.deep_view(), failure_of(outcome)),
    {
        let mut replies = self.submit_all(commands);
        let ghost before = replies.deep_view();
        if let Some(report) = self.worker.dispatched(outcome) {
            replies.push(report);
            assert(replies.deep_view() == before.push(report@));
        }
        self.worker.should_stop();
        replies
    }
}

} // verus!

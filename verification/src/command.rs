//! The commands that application threads queue for the worker.

use vstd::prelude::*;

verus! {

/// One of the two selections that a display server keeps. They are
/// independent: storing to one never changes what the other holds.
#[derive(Clone, Copy, Debug, PartialEq, Eq, Structural)]
pub enum SelectionTarget {
    /// The general clipboard.
    Clipboard,
    /// The primary selection.
    Primary,
}

/// Clipboard worker thread command.
#[derive(Clone, Debug, PartialEq, Eq)]
pub enum Command {
    /// Store data to a clipboard.
    Store(String),
    /// Store data to a primary selection.
    StorePrimary(String),
    /// Load data from a clipboard.
    Load,
    /// Load primary selection.
    LoadPrimary,
    /// Shutdown the worker.
    Exit,
}

/// The mathematical value of a [`Command`]: the same five shapes, with the
/// payload as a sequence of characters.
pub enum CommandView {
    Store(Seq<char>),
    StorePrimary(Seq<char>),
    Load,
    LoadPrimary,
    Exit,
}

impl CommandView {
    /// The selection and the text that a store command publishes.
    pub open spec fn stored(self) -> Option<(SelectionTarget, Seq<char>)> {
        match self {
            CommandView::Store(text) => Some((SelectionTarget::Clipboard, text)),
            CommandView::StorePrimary(text) => Some((SelectionTarget::Primary, text)),
            _ => None,
        }
    }

    /// The selection that a load command asks for.
    pub open spec fn loaded(self) -> Option<SelectionTarget> {
        match self {
            CommandView::Load => Some(SelectionTarget::Clipboard),
            CommandView::LoadPrimary => Some(SelectionTarget::Primary),
            _ => None,
        }
    }

    /// Whether the command is a request that is owed a reply. Stores and
    /// `Exit` are fire-and-forget.
    pub open spec fn expects_reply(self) -> bool {
        self.loaded() is Some
    }
}

impl View for Command {
    type V = CommandView;

    open spec fn view(&self) -> CommandView {
        match self {
            Command::Store(text) => CommandView::Store(text@),
            Command::StorePrimary(text) => CommandView::StorePrimary(text@),
            Command::Load => CommandView::Load,
            Command::LoadPrimary => CommandView::LoadPrimary,
            Command::Exit => CommandView::Exit,
        }
    }
}

impl DeepView for Command {
    type V = CommandView;

    open spec fn deep_view(&self) -> CommandView {
        self@
    }
}

impl Command {
    /// Whether the worker owes a reply to this command.
    pub fn expects_reply(&self) -> (expected: bool)
        ensures
            expected == self@.expects_reply(),
    {
        match self {
            Command::Load | Command::LoadPrimary => true,
            _ => false,
        }
    }
}

} // verus!

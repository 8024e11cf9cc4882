//! The two selections, kept in memory.
//!
//! This is the simplest selection state there can be: each selection holds
//! the text that was stored to it last, and a load hands that text out. It
//! stands where a display server would, wherever whole command sequences are
//! run without one.

use vstd::prelude::*;
use crate::command::SelectionTarget;

verus! {

/// The content of the clipboard and of the primary selection.
#[derive(Clone, Debug, PartialEq, Eq)]
pub struct Selections {
    clipboard: Option<String>,
    primary: Option<String>,
}

/// The mathematical value of [`Selections`]: for each selection the text it
/// holds, if any was stored.
pub struct SelectionsView {
    pub clipboard: Option<Seq<char>>,
    pub primary: Option<Seq<char>>,
}

impl SelectionsView {
    /// Two selections to which nothing was stored yet.
    pub open spec fn empty() -> SelectionsView {
        SelectionsView { clipboard: None, primary: None }
    }

    /// The text that `target` holds.
    pub open spec fn content(self, target: SelectionTarget) -> Option<Seq<char>> {
        match target {
            SelectionTarget::Clipboard => self.clipboard,
            SelectionTarget::Primary => self.primary,
        }
    }

    /// The selections after `text` was stored to `target`.
    pub open spec fn with(self, target: SelectionTarget, text: Seq<char>) -> SelectionsView {
        match target {
            SelectionTarget::Clipboard => SelectionsView { clipboard: Some(text), ..self },
            SelectionTarget::Primary => SelectionsView { primary: Some(text), ..self },
        }
    }
}

impl View for Selections {
    type V = SelectionsView;

    closed spec fn view(&self) -> SelectionsView {
        SelectionsView {
            clipboard: self.clipboard.deep_view(),
            primary: self.primary.deep_view(),
        }
    }
}

impl Selections {
    /// Two selections to which nothing was stored yet.
    pub fn new() -> (selections: Selections)
        ensures
            selections@ == SelectionsView::empty(),
    {
        Selections { clipboard: None, primary: None }
    }

    /// Stores `text` as the content of `target`. The other selection keeps
    /// what it holds.
    pub fn store(&mut self, target: SelectionTarget, text: String)
        ensures
            final(self)@ == old(self)@.with(target, text@),
    {
        match target {
            SelectionTarget::Clipboard => {
                self.clipboard = Some(text);
            },
            SelectionTarget::Primary => {
                self.primary = Some(text);
            },
        }
    }

    /// The text that `target` holds, or `None` where nothing was stored to
    /// it.
    pub fn load(&self, target: SelectionTarget) -> (text: Option<String>)
        ensures
            text.deep_view() == self@.content(target),
    {
        let held = match target {
            SelectionTarget::Clipboard => &self.clipboard,
            SelectionTarget::Primary => &self.primary,
        };
        match held {
            Some(text) => Some(text.clone()),
            None => None,
        }
    }
}

} // verus!

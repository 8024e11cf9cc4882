//! The decision core of a clipboard worker.
//!
//! A clipboard worker is a background thread that owns the connection to a
//! display server. Application threads queue [`Command`]s for it; it turns
//! them into operations on the two selections of the display server (the
//! clipboard and the primary selection) and answers loads with a [`Reply`].
//!
//! This crate holds the rules of that worker and nothing that touches a
//! display server: [`Worker`] says, for every event the worker can meet, what
//! has to be done and which lifecycle state follows, and a [`Session`] joins a
//! worker to an in-memory pair of selections, so that whole command sequences
//! can be run and reasoned about.

pub mod command;
pub mod laws;
pub mod reply;
pub mod selections;
pub mod session;
pub mod worker;

pub use command::{Command, CommandView, SelectionTarget};
pub use reply::{Failure, FailureView, Reply, ReplyView};
pub use selections::{Selections, SelectionsView};
pub use session::{Session, SessionView};
pub use worker::{Handling, HandlingView, Lifecycle, SetupFailure, SetupFailureView, Worker};

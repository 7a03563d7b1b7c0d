//! The vocabulary between a task and the runtime that carries it out.
//!
//! A task is one client call or one server dispatch. It never touches a
//! transport: it names its next step as an [`Action`]; the runtime performs
//! the step, suspending where it has to, and reports the outcome to the
//! method of the task that is named after the step. A call begins with a
//! step that needs no naming: the runtime opens a fresh logical channel to
//! the peer and reports how that went. Messages on one logical
//! channel arrive in the order in which they were sent; nothing is promised
//! of the order across channels.

use vstd::prelude::*;

verus! {

/// What a task asks the runtime to do next.
///
/// `T` is the type of the messages that the task sends, `R` the type of its
/// result.
#[derive(Clone, Debug, PartialEq, Eq)]
pub enum Action<T, R> {
    /// Send this message on the channel and wait until it is accepted.
    Send(T),
    /// Wait for the next message of the channel.
    Receive,
    /// Wait for the next item of the handler's sequence.
    Produce,
    /// End the task with this result. Unless the result itself keeps the
    /// channel, the runtime releases it.
    Finish(R),
    /// Nothing new: what was reported was not the outcome of the pending
    /// step, and the task has ignored it.
    Wait,
}

impl<T, R> Action<T, R> {
    /// The messages that the action puts on the channel: one for a send,
    /// none for anything else.
    pub open spec fn sent(self) -> Seq<T> {
        match self {
            Action::Send(message) => seq![message],
            _ => Seq::empty(),
        }
    }

    /// The result that the action ends the task with, if it ends it.
    pub open spec fn result(self) -> Option<R> {
        match self {
            Action::Finish(result) => Some(result),
            _ => None,
        }
    }
}

} // verus!

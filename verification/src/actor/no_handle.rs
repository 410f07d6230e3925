//! The same actor, but its handle is the one that starts it: building a
//! handle also builds the actor on the other end of the mailbox, ready to be
//! run as a task of its own.

use tokio::sync::mpsc;
use vstd::prelude::*;

pub use super::alice::{Actor, Message, MAILBOX_CAPACITY};
use crate::channel::{inbox_bound, mailbox_bound, mpsc_channel};

verus! {

/// What callers hold to talk to a running actor: the sending end of its
/// mailbox.
#[derive(Debug, Clone)]
pub struct ActorHandle {
    pub sender: mpsc::Sender<Message>,
}

impl ActorHandle {
    /// Builds a mailbox of `MAILBOX_CAPACITY` messages, the actor that reads
    /// it (holding 0), and the handle that writes to it. Starting the actor,
    /// which needs an async runtime, is left to the caller.
    pub fn with_actor() -> (pair: (Self, Actor))
        ensures
            pair.1.last_info == 0,
            mailbox_bound(pair.0.sender) == MAILBOX_CAPACITY,
            inbox_bound(pair.1.receiver) == MAILBOX_CAPACITY,
    {
        let (tx, rx) = mpsc_channel(MAILBOX_CAPACITY);
        let actor = Actor::new(rx);
        (ActorHandle { sender: tx }, actor)
    }
}

} // verus!

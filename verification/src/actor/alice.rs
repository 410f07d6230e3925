//! An actor and its handle built side by side: the handle only owns the
//! sending end of the actor's mailbox.

use tokio::sync::mpsc;
use tokio::sync::oneshot;
use vstd::prelude::*;

use super::exchange::exchange;
use crate::channel::{inbox_bound, mailbox_bound, mpsc_channel, oneshot_channel, oneshot_send};

verus! {

/// How many messages the mailbox between a handle and its actor holds.
pub const MAILBOX_CAPACITY: usize = 8;

/// A request to the actor: a piece of information to store, and the
/// one-shot channel on which the actor answers.
#[derive(Debug)]
pub enum Message {
    Base { info: usize, responder: oneshot::Sender<usize> },
}

impl Message {
    /// The information the message carries.
    pub open spec fn carried_info(self) -> usize {
        match self {
            Message::Base { info, .. } => info,
        }
    }

    /// A message carrying 0, together with the receiving end of its
    /// answer channel.
    pub fn new() -> (pair: (oneshot::Receiver<usize>, Self))
        ensures
            pair.1.carried_info() == 0,
    {
        let (tx, rx) = oneshot_channel();
        (rx, Message::Base { info: 0, responder: tx })
    }
}

/// The worker: it reads messages from its mailbox and remembers the last
/// information it was sent.
#[derive(Debug)]
pub struct Actor {
    pub receiver: mpsc::Receiver<Message>,
    pub last_info: usize,
}

impl Actor {
    /// An actor reading from `receiver` that holds 0.
    pub fn new(receiver: mpsc::Receiver<Message>) -> (actor: Self)
        ensures
            actor.receiver == receiver,
            actor.last_info == 0,
    {
        Actor { receiver, last_info: 0 }
    }

    /// Stores `info` and gives back what was stored before.
    pub fn swap_info(&mut self, info: usize) -> (previous: usize)
        ensures
            (final(self).last_info, previous) == exchange(old(self).last_info, info),
            final(self).receiver == old(self).receiver,
    {
        let mut info = info;
        std::mem::swap(&mut self.last_info, &mut info);
        info
    }

    /// Handles one message: stores its information and sends what was
    /// stored before on the message's answer channel. When the asker has
    /// gone away the answer is refused, and it is given back here.
    pub fn handle_message(&mut self, msg: Message) -> (refused: Option<usize>)
        ensures
            final(self).last_info == exchange(old(self).last_info, msg.carried_info()).0,
            final(self).receiver == old(self).receiver,
            refused matches Some(answer) ==> answer == exchange(old(self).last_info, msg.carried_info()).1,
    {
        match msg {
            Message::Base { info, responder } => {
                let previous = self.swap_info(info);
                match oneshot_send(responder, previous) {
                    Ok(()) => None,
                    Err(answer) => Some(answer),
                }
            },
        }
    }
}

/// What callers hold to talk to an actor: the sending end of its mailbox.
#[derive(Debug, Clone)]
pub struct ActorHandle {
    pub sender: mpsc::Sender<Message>,
}

impl ActorHandle {
    /// Builds a mailbox of `MAILBOX_CAPACITY` messages, the handle that
    /// writes to it and the actor (holding 0) that reads it. The actor is
    /// handed back rather than dropped, so the mailbox stays open for as
    /// long as the caller keeps the actor; running it (`run_actor`), which
    /// needs an async runtime, is left to the caller.
    pub fn new() -> (pair: (Self, Actor))
        ensures
            pair.1.last_info == 0,
            mailbox_bound(pair.0.sender) == MAILBOX_CAPACITY,
            inbox_bound(pair.1.receiver) == MAILBOX_CAPACITY,
    {
        let (tx, rx) = mpsc_channel(MAILBOX_CAPACITY);
        let actor = Actor::new(rx);
        (ActorHandle { sender: tx }, actor)
    }
}

} // verus!

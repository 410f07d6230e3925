//! The actor shaped for an actor framework: the framework owns the mailbox,
//! and the actor answers each message by its return value.

use tokio::sync::mpsc;
use vstd::prelude::*;

use super::exchange::exchange;

verus! {

/// The worker: it remembers the last information it was sent.
#[derive(Debug)]
pub struct MyActor {
    pub last_info: usize,
}

/// A request to the actor: a piece of information to store.
#[derive(Debug)]
pub enum MyMessage {
    Base { info: usize },
}

impl MyMessage {
    /// The information the message carries.
    pub open spec fn carried_info(self) -> usize {
        match self {
            MyMessage::Base { info } => info,
        }
    }

    /// A message carrying 0.
    pub fn new() -> (msg: Self)
        ensures
            msg == (MyMessage::Base { info: 0 }),
    {
        MyMessage::Base { info: 0 }
    }
}

impl MyActor {
    /// An actor holding 0. The mailbox it is given is not kept: the
    /// framework delivers messages itself.
    pub fn new(receiver: mpsc::Receiver<MyMessage>) -> (actor: Self)
        ensures
            actor.last_info == 0,
    {
        MyActor { last_info: 0 }
    }

    /// Handles one message: stores its information and answers with what
    /// was stored before.
    pub fn handle(&mut self, msg: MyMessage) -> (answer: usize)
        ensures
            (final(self).last_info, answer) == exchange(old(self).last_info, msg.carried_info()),
    {
        match msg {
            MyMessage::Base { info } => {
                let mut info = info;
                std::mem::swap(&mut self.last_info, &mut info);
                info
            },
        }
    }
}

} // verus!

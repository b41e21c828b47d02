//! The messages that the control tool and the agent exchange.
use std::time::Duration;
use vstd::prelude::*;

verus! {

/// The part of the agent that a message is meant for.
#[derive(Clone, Copy, PartialEq, Eq, Structural, Debug)]
pub enum Module {
    Rpc,
    Queue,
    Platform,
}

/// A message and the part of the agent that it is meant for.
#[derive(PartialEq, Eq, Debug)]
pub struct Message<T> {
    pub module: Module,
    pub msg: T,
}

impl<T> Message<T> {
    /// The message without its address.
    pub fn into_inner(self) -> (msg: T)
        ensures
            msg == self.msg,
    {
        self.msg
    }
}

/// What the agent announces of itself.
#[derive(PartialEq, Eq, Debug)]
pub struct Beacon {
    pub vtap_id: u16,
    pub hostname: String,
}

/// Questions about what the agent got from its controller, and the
/// answers. A question carries `None`.
#[derive(PartialEq, Eq, Debug)]
pub enum RpcMessage {
    Config(Option<String>),
    PlatformData(Option<Vec<String>>),
    TapTypes(Option<Vec<String>>),
    Cidr(Option<Vec<String>>),
    Groups(Option<Vec<String>>),
    Acls(Option<Vec<String>>),
    Segments(Option<Vec<String>>),
    Version(Option<String>),
    Fin,
    Error(String),
}

/// Questions about the queues of the agent, and the answers.
#[derive(PartialEq, Eq, Debug)]
pub enum QueueMessage {
    /// The names of the queues; `None` asks for them.
    Names(Option<Vec<String>>),
    /// Items that went through a watched queue.
    Send(Vec<String>),
    /// Watch the queue of this name for so long.
    On((String, Duration)),
    /// Watch the queue of this name no longer.
    Off(String),
    /// Watch no queue any longer.
    Clear,
    Fin,
    Error(String),
}

/// Questions about the platform that the agent runs on, and the answers.
#[derive(PartialEq, Eq, Debug)]
pub enum PlatformMessage {
    /// The version of the watcher; `None` asks for it.
    Version(Option<String>),
    /// Ask for the entries of one kind of resource.
    WatcherReq(String),
    /// The entries of the kind asked for.
    WatcherRes(Option<Vec<String>>),
    /// Interface indices and their addresses; `None` asks for them.
    MacMappings(Option<Vec<(u32, String)>>),
    Fin,
}

} // verus!

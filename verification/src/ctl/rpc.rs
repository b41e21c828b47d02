//! Asking the agent what it got from its controller.
use super::message::{Message, Module, RpcMessage};
use vstd::prelude::*;

verus! {

/// What can be asked for.
#[derive(Clone, Copy, PartialEq, Eq, Structural, Debug)]
pub enum RpcData {
    Config,
    Platform,
    TapTypes,
    Cidr,
    Groups,
    Acls,
    Segments,
    Version,
}

/// What a reply asks of the tool.
#[derive(PartialEq, Eq, Debug)]
pub enum RpcStep {
    /// Print the line and wait for the next reply.
    Line(String),
    /// Print the lines and wait for the next reply.
    Lines(Vec<String>),
    /// The agent has nothing of what was asked for: give up.
    Missing,
    /// The agent has said all: end.
    Finished,
    /// The agent reports an error: give up with it.
    Failed(String),
}

impl RpcData {
    /// The question that asks for this.
    pub open spec fn question(self) -> RpcMessage {
        match self {
            RpcData::Acls => RpcMessage::Acls(None),
            RpcData::Config => RpcMessage::Config(None),
            RpcData::Platform => RpcMessage::PlatformData(None),
            RpcData::TapTypes => RpcMessage::TapTypes(None),
            RpcData::Cidr => RpcMessage::Cidr(None),
            RpcData::Groups => RpcMessage::Groups(None),
            RpcData::Segments => RpcMessage::Segments(None),
            RpcData::Version => RpcMessage::Version(None),
        }
    }

    /// What the user is told when the agent has nothing of this.
    pub open spec fn missing_of(self) -> Seq<char> {
        match self {
            RpcData::Acls => "cannot get Acls"@,
            RpcData::Config => "cannot get Config"@,
            RpcData::Platform => "cannot get Platform"@,
            RpcData::TapTypes => "cannot get TapTypes"@,
            RpcData::Cidr => "cannot get Cidr"@,
            RpcData::Groups => "cannot get Groups"@,
            RpcData::Segments => "cannot get Segments"@,
            RpcData::Version => "cannot get Version"@,
        }
    }

    /// The message that asks the agent for this.
    pub fn request(self) -> (request: Message<RpcMessage>)
        ensures
            request == (Message { module: Module::Rpc, msg: self.question() }),
    {
        let payload = match self {
            RpcData::Acls => RpcMessage::Acls(None),
            RpcData::Config => RpcMessage::Config(None),
            RpcData::Platform => RpcMessage::PlatformData(None),
            RpcData::TapTypes => RpcMessage::TapTypes(None),
            RpcData::Cidr => RpcMessage::Cidr(None),
            RpcData::Groups => RpcMessage::Groups(None),
            RpcData::Segments => RpcMessage::Segments(None),
            RpcData::Version => RpcMessage::Version(None),
        };
        Message { module: Module::Rpc, msg: payload }
    }

    /// What the user is told when the agent has nothing of this.
    pub fn missing(self) -> (message: &'static str)
        ensures
            message@ == self.missing_of(),
    {
        match self {
            RpcData::Acls => "cannot get Acls",
            RpcData::Config => "cannot get Config",
            RpcData::Platform => "cannot get Platform",
            RpcData::TapTypes => "cannot get TapTypes",
            RpcData::Cidr => "cannot get Cidr",
            RpcData::Groups => "cannot get Groups",
            RpcData::Segments => "cannot get Segments",
            RpcData::Version => "cannot get Version",
        }
    }
}

/// What a reply of the agent asks of the tool: an answer is printed,
/// whatever was asked for; an answer without content, an error and the end
/// are told apart.
pub open spec fn rpc_step_of(resp: RpcMessage) -> RpcStep {
    match resp {
        RpcMessage::Acls(v)
        | RpcMessage::PlatformData(v)
        | RpcMessage::TapTypes(v)
        | RpcMessage::Cidr(v)
        | RpcMessage::Groups(v)
        | RpcMessage::Segments(v) => match v {
            Some(v) => RpcStep::Lines(v),
            None => RpcStep::Missing,
        },
        RpcMessage::Config(s) | RpcMessage::Version(s) => match s {
            Some(s) => RpcStep::Line(s),
            None => RpcStep::Missing,
        },
        RpcMessage::Fin => RpcStep::Finished,
        RpcMessage::Error(e) => RpcStep::Failed(e),
    }
}

/// Decides what to do with a reply of the agent.
pub fn rpc_step(resp: RpcMessage) -> (step: RpcStep)
    ensures
        step == rpc_step_of(resp),
{
    match resp {
        RpcMessage::Acls(v)
        | RpcMessage::PlatformData(v)
        | RpcMessage::TapTypes(v)
        | RpcMessage::Cidr(v)
        | RpcMessage::Groups(v)
        | RpcMessage::Segments(v) => match v {
            Some(v) => RpcStep::Lines(v),
            None => RpcStep::Missing,
        },
        RpcMessage::Config(s) | RpcMessage::Version(s) => match s {
            Some(s) => RpcStep::Line(s),
            None => RpcStep::Missing,
        },
        RpcMessage::Fin => RpcStep::Finished,
        RpcMessage::Error(e) => RpcStep::Failed(e),
    }
}

} // verus!

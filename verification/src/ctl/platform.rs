//! Asking the agent about the platform that it runs on.
use super::message::{Message, Module, PlatformMessage};
use super::refusal::Refusal;
use super::resource::Resource;
use vstd::prelude::*;

verus! {

/// What the user asks about the platform.
#[derive(Clone, Copy, PartialEq, Eq, Structural, Debug)]
pub struct PlatformCmd {
    /// List the resources of this kind.
    pub k8s_get: Option<Resource>,
    /// Show the interface indices and their addresses.
    pub mac_mappings: bool,
}

/// What the tool does for a command: the mappings where they are asked for,
/// else the resources.
#[derive(Clone, Copy, PartialEq, Eq, Structural, Debug)]
pub enum PlatformPlan {
    MacMappings,
    Version,
    Watch(Resource),
    /// The command asks for nothing.
    Nothing,
}

/// What a reply asks of the tool.
#[derive(PartialEq, Eq, Debug)]
pub enum PlatformStep {
    /// Print index and address of each mapping and wait for the next
    /// reply.
    Mappings(Vec<(u32, String)>),
    /// Print the line and wait for the next reply.
    Line(String),
    /// Print the lines and wait for the next reply.
    Lines(Vec<String>),
    /// The agent has nothing of what was asked for: give up.
    Missing,
    /// The agent has said all: end.
    Finished,
}

/// The plan for a command, or the reason to refuse it.
pub open spec fn platform_plan_of(port: Option<u16>, c: PlatformCmd) -> Result<
    PlatformPlan,
    Refusal,
> {
    if port is None {
        Err(Refusal::PortMissing)
    } else if c.mac_mappings {
        Ok(PlatformPlan::MacMappings)
    } else {
        match c.k8s_get {
            Some(Resource::Version) => Ok(PlatformPlan::Version),
            Some(resource) => Ok(PlatformPlan::Watch(resource)),
            None => Ok(PlatformPlan::Nothing),
        }
    }
}

/// Decides what to do for a command.
pub fn platform_plan(port: Option<u16>, c: PlatformCmd) -> (plan: Result<PlatformPlan, Refusal>)
    ensures
        plan == platform_plan_of(port, c),
{
    if port.is_none() {
        return Err(Refusal::PortMissing);
    }
    if c.mac_mappings {
        return Ok(PlatformPlan::MacMappings);
    }
    if let Some(r) = c.k8s_get {
        if let Resource::Version = r {
            return Ok(PlatformPlan::Version);
        }
        return Ok(PlatformPlan::Watch(r));
    }
    Ok(PlatformPlan::Nothing)
}

impl PlatformPlan {
    /// Whether `msg` is what the plan has the tool send.
    pub open spec fn asks(self, msg: PlatformMessage) -> bool {
        match self {
            PlatformPlan::MacMappings => msg == PlatformMessage::MacMappings(None),
            PlatformPlan::Version => msg == PlatformMessage::Version(None),
            PlatformPlan::Watch(resource) => {
                &&& msg matches PlatformMessage::WatcherReq(kind)
                &&& kind@ == resource.name_of()
            },
            PlatformPlan::Nothing => false,
        }
    }

    /// Whether `resp` is a reply that the agent gives to what the plan
    /// asks.
    pub open spec fn expects(self, resp: PlatformMessage) -> bool {
        match self {
            PlatformPlan::MacMappings => resp is MacMappings || resp is Fin,
            PlatformPlan::Version => resp is Version || resp is Fin,
            PlatformPlan::Watch(_) => resp is WatcherRes || resp is Fin,
            PlatformPlan::Nothing => false,
        }
    }

    /// What the user is told when the agent has nothing of what the plan
    /// asks for.
    pub open spec fn missing_of(self) -> Seq<char> {
        match self {
            PlatformPlan::MacMappings => "cannot get mac mappings"@,
            PlatformPlan::Version => "cannot get server version"@,
            _ => "cannot get watcher entries"@,
        }
    }

    /// The message to send, or `None` where the plan is to do nothing.
    pub fn request(&self) -> (request: Option<Message<PlatformMessage>>)
        ensures
            match request {
                Some(request) => request.module == Module::Platform && self.asks(request.msg),
                None => *self == PlatformPlan::Nothing,
            },
    {
        let msg = match self {
            PlatformPlan::MacMappings => PlatformMessage::MacMappings(None),
            PlatformPlan::Version => PlatformMessage::Version(None),
            PlatformPlan::Watch(r) => PlatformMessage::WatcherReq(r.name().to_owned()),
            PlatformPlan::Nothing => {
                return None;
            },
        };
        Some(Message { module: Module::Platform, msg })
    }

    /// Whether `resp` is a reply that the agent gives to what the plan
    /// asks.
    pub fn is_expected(&self, resp: &PlatformMessage) -> (expected: bool)
        ensures
            expected == self.expects(*resp),
    {
        match (self, resp) {
            (PlatformPlan::Nothing, _) => false,
            (_, PlatformMessage::Fin) => true,
            (PlatformPlan::MacMappings, PlatformMessage::MacMappings(_)) => true,
            (PlatformPlan::Version, PlatformMessage::Version(_)) => true,
            (PlatformPlan::Watch(_), PlatformMessage::WatcherRes(_)) => true,
            _ => false,
        }
    }

    /// What the user is told when the agent has nothing of what the plan
    /// asks for.
    pub fn missing(&self) -> (message: &'static str)
        ensures
            message@ == self.missing_of(),
    {
        match self {
            PlatformPlan::MacMappings => "cannot get mac mappings",
            PlatformPlan::Version => "cannot get server version",
            _ => "cannot get watcher entries",
        }
    }
}

/// What a reply of the agent asks of the tool.
pub open spec fn platform_step_of(resp: PlatformMessage) -> PlatformStep {
    match resp {
        PlatformMessage::MacMappings(Some(mappings)) => PlatformStep::Mappings(mappings),
        PlatformMessage::Version(Some(version)) => PlatformStep::Line(version),
        PlatformMessage::WatcherRes(Some(entries)) => PlatformStep::Lines(entries),
        PlatformMessage::Fin => PlatformStep::Finished,
        _ => PlatformStep::Missing,
    }
}

/// Decides what to do with a reply of the agent to what `plan` asked.
pub fn platform_step(plan: &PlatformPlan, resp: PlatformMessage) -> (step: PlatformStep)
    requires
        plan.expects(resp),
    ensures
        step == platform_step_of(resp),
{
    match resp {
        PlatformMessage::MacMappings(Some(e)) => PlatformStep::Mappings(e),
        PlatformMessage::Version(Some(v)) => PlatformStep::Line(v),
        PlatformMessage::WatcherRes(Some(v)) => PlatformStep::Lines(v),
        PlatformMessage::Fin => PlatformStep::Finished,
        _ => PlatformStep::Missing,
    }
}

} // verus!

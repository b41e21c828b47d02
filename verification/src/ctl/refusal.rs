//! Commands that the tool refuses before it sends anything.
use vstd::prelude::*;

verus! {

/// What the user is told when a command needs the port and has none.
pub const ERR_PORT_MSG: &'static str =
    "error: The following required arguments were not provided:\n    \t--port <PORT> required arguments were not provided";

/// Why a command is not carried out.
#[derive(Clone, Copy, PartialEq, Eq, Structural, Debug)]
pub enum Refusal {
    /// The command needs the port of the agent, and none was given.
    PortMissing,
    /// A queue cannot be switched on and off at once.
    OnAndOff,
    /// A queue cannot be watched for no time at all.
    ZeroDuration,
}

impl Refusal {
    /// What the user is told.
    pub open spec fn message_of(self) -> Seq<char> {
        match self {
            Refusal::PortMissing => ERR_PORT_MSG@,
            Refusal::OnAndOff => "error: --on and --off cannot set at the same time"@,
            Refusal::ZeroDuration => "zero duration isn't allowed"@,
        }
    }

    /// What the user is told.
    pub fn message(&self) -> (message: &'static str)
        ensures
            message@ == self.message_of(),
    {
        match self {
            Refusal::PortMissing => ERR_PORT_MSG,
            Refusal::OnAndOff => "error: --on and --off cannot set at the same time",
            Refusal::ZeroDuration => "zero duration isn't allowed",
        }
    }
}

/// The port of the agent, which every command but the listing needs.
pub fn required_port(port: Option<u16>) -> (checked: Result<u16, Refusal>)
    ensures
        checked == match port {
            Some(port) => Ok::<u16, Refusal>(port),
            None => Err::<u16, Refusal>(Refusal::PortMissing),
        },
{
    match port {
        Some(port) => Ok(port),
        None => Err(Refusal::PortMissing),
    }
}

} // verus!

//! Watching the queues of the agent.
use super::message::{Message, Module, QueueMessage};
use super::refusal::Refusal;
use crate::utils::time::{subsec_nanos, whole_secs};
use std::time::Duration;
use vstd::prelude::*;

verus! {

/// `str`'s `==`: two strings are equal when they hold the same characters.
pub assume_specification[ <str as PartialEq>::eq ](a: &str, b: &str) -> (equal: bool)
    ensures
        equal == (a@ == b@),
;

/// Whether `s` names a queue that can be watched.
pub open spec fn is_queue_name(s: Seq<char>) -> bool {
    ||| s == "1-tagged-flow-to-quadruple-generator"@
    ||| s == "1-packet-statistics-to-doc"@
    ||| s == "1-mini-meta-packet-to-pcap"@
    ||| s == "2-flow-with-meter-to-second-collector"@
    ||| s == "2-flow-with-meter-to-minute-collector"@
    ||| s == "2-second-flow-to-minute-aggrer"@
    ||| s == "2-doc-to-collector-sender"@
    ||| s == "3-flow-to-collector-sender"@
}

/// Accepts the names of the queues that can be watched and refuses every
/// other string.
pub fn queue_name_validator(s: &str) -> (checked: Result<(), &'static str>)
    ensures
        checked is Ok <==> is_queue_name(s@),
        checked matches Err(reason) ==> reason@ == "invalid queue name"@,
{
    if s.eq("1-tagged-flow-to-quadruple-generator") || s.eq("1-packet-statistics-to-doc") || s.eq(
        "1-mini-meta-packet-to-pcap",
    ) || s.eq("2-flow-with-meter-to-second-collector") || s.eq(
        "2-flow-with-meter-to-minute-collector",
    ) || s.eq("2-second-flow-to-minute-aggrer") || s.eq("2-doc-to-collector-sender") || s.eq(
        "3-flow-to-collector-sender",
    ) {
        Ok(())
    } else {
        Err("invalid queue name")
    }
}

/// What the user is told when the agent has no names of queues.
pub const NO_QUEUE_NAMES: &'static str = "cannot get queue names";

/// What the user asks of the queues.
#[derive(PartialEq, Eq, Debug)]
pub struct QueueCmd {
    /// Watch the queue of this name, for as long as `duration` says.
    pub on: Option<String>,
    /// Seconds to watch for.
    pub duration: Option<u64>,
    /// Watch the queue of this name no longer.
    pub off: Option<String>,
    /// List the queues.
    pub show: bool,
    /// Watch no queue any longer.
    pub clear: bool,
}

/// What the tool does for a command: the first of listing, clearing,
/// switching off and switching on that the command asks for.
#[derive(PartialEq, Eq, Debug)]
pub enum QueuePlan {
    Show,
    Clear,
    Off(String),
    /// The name of the queue and the seconds to watch it for.
    On(String, u64),
    /// The command asks for nothing.
    Nothing,
}

/// How far the exchange with the agent has come.
#[derive(Clone, Copy, PartialEq, Eq, Structural, Debug)]
pub enum QueuePhase {
    /// The names of the queues are coming in.
    Names,
    /// One reply ends the exchange.
    Once,
    /// The agent has yet to accept the queue to watch.
    Ack,
    /// Items of the watched queue are coming in.
    Stream,
}

/// What a reply asks of the tool.
#[derive(PartialEq, Eq, Debug)]
pub enum QueueStep {
    /// Print the names, numbered from zero, and wait for the next reply.
    Names(Vec<String>),
    /// Print the items, numbered from the given number on, and wait for the
    /// next reply.
    Items(u64, Vec<String>),
    /// Wait for the next reply.
    Proceed,
    /// The agent has no names: give up.
    Missing,
    /// The agent has said all: end.
    Finished,
    /// The agent reports an error: give up with it.
    Failed(String),
}

/// The plan for a command, or the reason to refuse it.
pub open spec fn queue_plan_of(port: Option<u16>, c: QueueCmd) -> Result<QueuePlan, Refusal> {
    if port is None {
        Err(Refusal::PortMissing)
    } else if c.on is Some && c.off is Some {
        Err(Refusal::OnAndOff)
    } else if c.show {
        Ok(QueuePlan::Show)
    } else if c.clear {
        Ok(QueuePlan::Clear)
    } else if c.off is Some {
        Ok(QueuePlan::Off(c.off->0))
    } else if c.on is Some && c.duration is Some {
        if c.duration->0 == 0 {
            Err(Refusal::ZeroDuration)
        } else {
            Ok(QueuePlan::On(c.on->0, c.duration->0))
        }
    } else {
        Ok(QueuePlan::Nothing)
    }
}

/// Decides what to do for a command.
pub fn queue_plan(port: Option<u16>, c: QueueCmd) -> (plan: Result<QueuePlan, Refusal>)
    ensures
        plan == queue_plan_of(port, c),
{
    if port.is_none() {
        return Err(Refusal::PortMissing);
    }
    if c.on.is_some() && c.off.is_some() {
        return Err(Refusal::OnAndOff);
    }
    if c.show {
        return Ok(QueuePlan::Show);
    }
    if c.clear {
        return Ok(QueuePlan::Clear);
    }
    if let Some(s) = c.off {
        return Ok(QueuePlan::Off(s));
    }
    match (c.on, c.duration) {
        (Some(s), Some(d)) => {
            if d == 0 {
                return Err(Refusal::ZeroDuration);
            }
            Ok(QueuePlan::On(s, d))
        },
        _ => Ok(QueuePlan::Nothing),
    }
}

impl QueuePlan {
    /// The phase in which the exchange for this plan begins, if there is an
    /// exchange.
    pub open spec fn first_phase(self) -> Option<QueuePhase> {
        match self {
            QueuePlan::Show => Some(QueuePhase::Names),
            QueuePlan::Clear => Some(QueuePhase::Once),
            QueuePlan::Off(_) => Some(QueuePhase::Once),
            QueuePlan::On(_, _) => Some(QueuePhase::Ack),
            QueuePlan::Nothing => None,
        }
    }

    /// Whether `msg` is what the plan has the tool send first.
    pub open spec fn asks(self, msg: QueueMessage) -> bool {
        match self {
            QueuePlan::Show => msg == QueueMessage::Names(None),
            QueuePlan::Clear => msg == QueueMessage::Clear,
            QueuePlan::Off(name) => msg == QueueMessage::Off(name),
            QueuePlan::On(name, secs) => {
                &&& msg matches QueueMessage::On((queue, duration))
                &&& queue == name
                &&& whole_secs(duration) == secs
                &&& subsec_nanos(duration) == 0
            },
            QueuePlan::Nothing => false,
        }
    }

    /// The message to send first and the exchange that it opens, or `None`
    /// where the plan is to do nothing.
    pub fn begin(self) -> (opening: Option<(Message<QueueMessage>, QueueSession)>)
        ensures
            match opening {
                Some((request, session)) => {
                    &&& request.module == Module::Queue
                    &&& self.asks(request.msg)
                    &&& Some(session.phase()) == self.first_phase()
                    &&& session.msg_seq() == 0
                },
                None => self == QueuePlan::Nothing,
            },
    {
        let (msg, phase) = match self {
            QueuePlan::Show => (QueueMessage::Names(None), QueuePhase::Names),
            QueuePlan::Clear => (QueueMessage::Clear, QueuePhase::Once),
            QueuePlan::Off(s) => (QueueMessage::Off(s), QueuePhase::Once),
            QueuePlan::On(s, d) => (QueueMessage::On((s, Duration::from_secs(d))), QueuePhase::Ack),
            QueuePlan::Nothing => {
                return None;
            },
        };
        Some((Message { module: Module::Queue, msg }, QueueSession { phase, msg_seq: 0 }))
    }
}

/// An exchange with the agent: its phase and the number of the next item
/// of the watched queue.
#[derive(Clone, Copy, PartialEq, Eq, Structural, Debug)]
pub struct QueueSession {
    phase: QueuePhase,
    msg_seq: u64,
}

/// The number of the item that follows `count` items numbered from `seq`
/// on. The numbers stop at the largest one.
pub open spec fn seq_after(seq: u64, count: nat) -> u64 {
    if seq + count <= u64::MAX {
        (seq + count) as u64
    } else {
        u64::MAX
    }
}

impl QueueSession {
    /// The phase of the exchange.
    pub closed spec fn phase(self) -> QueuePhase {
        self.phase
    }

    /// The number of the next item.
    pub closed spec fn msg_seq(self) -> u64 {
        self.msg_seq
    }

    /// Whether `resp` is a reply that the agent gives in this phase.
    pub open spec fn expects(self, resp: QueueMessage) -> bool {
        match self.phase() {
            QueuePhase::Names => resp is Names || resp is Fin || resp is Error,
            QueuePhase::Once => resp is Fin || resp is Error,
            QueuePhase::Ack => true,
            QueuePhase::Stream => resp is Send || resp is Fin || resp is Error,
        }
    }

    /// What `resp` asks of the tool in this phase.
    pub open spec fn step_of(self, resp: QueueMessage) -> QueueStep {
        match resp {
            QueueMessage::Error(e) => QueueStep::Failed(e),
            _ => match self.phase() {
                QueuePhase::Ack => QueueStep::Proceed,
                _ => match resp {
                    QueueMessage::Names(Some(names)) => QueueStep::Names(names),
                    QueueMessage::Names(None) => QueueStep::Missing,
                    QueueMessage::Send(items) => QueueStep::Items(self.msg_seq(), items),
                    _ => QueueStep::Finished,
                },
            },
        }
    }

    /// The exchange after `resp`: once accepted, the watched queue streams
    /// its items, and the items that came in are counted.
    pub open spec fn after(self, resp: QueueMessage) -> (QueuePhase, u64) {
        match (self.phase(), resp) {
            (QueuePhase::Ack, _) => (QueuePhase::Stream, self.msg_seq()),
            (phase, QueueMessage::Send(items)) => (phase, seq_after(self.msg_seq(), items@.len())),
            (phase, _) => (phase, self.msg_seq()),
        }
    }

    /// Whether `resp` is a reply that the agent gives in this phase.
    pub fn is_expected(&self, resp: &QueueMessage) -> (expected: bool)
        ensures
            expected == self.expects(*resp),
    {
        match self.phase {
            QueuePhase::Names => match resp {
                QueueMessage::Names(_) | QueueMessage::Fin | QueueMessage::Error(_) => true,
                _ => false,
            },
            QueuePhase::Once => match resp {
                QueueMessage::Fin | QueueMessage::Error(_) => true,
                _ => false,
            },
            QueuePhase::Ack => true,
            QueuePhase::Stream => match resp {
                QueueMessage::Send(_) | QueueMessage::Fin | QueueMessage::Error(_) => true,
                _ => false,
            },
        }
    }

    /// Takes a reply of the agent and decides what to do with it.
    pub fn step(&mut self, resp: QueueMessage) -> (step: QueueStep)
        requires
            old(self).expects(resp),
        ensures
            step == old(self).step_of(resp),
            (final(self).phase(), final(self).msg_seq()) == old(self).after(resp),
    {
        match self.phase {
            QueuePhase::Ack => {
                self.phase = QueuePhase::Stream;
                match resp {
                    QueueMessage::Error(e) => QueueStep::Failed(e),
                    _ => QueueStep::Proceed,
                }
            },
            _ => match resp {
                QueueMessage::Names(Some(e)) => QueueStep::Names(e),
                QueueMessage::Names(None) => QueueStep::Missing,
                QueueMessage::Send(e) => {
                    let first = self.msg_seq;
                    let count = e.len() as u64;
                    self.msg_seq = match first.checked_add(count) {
                        Some(next) => next,
                        None => u64::MAX,
                    };
                    QueueStep::Items(first, e)
                },
                QueueMessage::Error(e) => QueueStep::Failed(e),
                _ => QueueStep::Finished,
            },
        }
    }
}

} // verus!

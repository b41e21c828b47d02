//! The stages that turn flows into metrics, and the switch that starts and
//! stops them together.
use crate::utils::time::{subsec_nanos, whole_secs};
use std::time::Duration;
use vstd::prelude::*;

verus! {

/// Seconds in a minute.
pub const SECONDS_IN_MINUTE: u64 = 60;

/// The start of the minute in which `t` lies.
pub fn round_to_minute(t: Duration) -> (minute: Duration)
    ensures
        whole_secs(minute) == whole_secs(t) - whole_secs(t) % SECONDS_IN_MINUTE,
        subsec_nanos(minute) == 0,
{
    Duration::from_secs(t.as_secs() / SECONDS_IN_MINUTE * SECONDS_IN_MINUTE)
}

/// One stage of the pipeline, as far as starting and stopping goes.
#[derive(PartialEq, Eq, Structural, Clone, Copy, Debug)]
pub struct Stage {
    running: bool,
}

/// The stage that cuts flows into one record per connection and second.
pub type QuadrupleGeneratorThread = Stage;

/// The stage that sums the flows of each minute.
pub type FlowAggrThread = Stage;

/// A stage that collects the metrics of one window, a second or a minute.
pub type Collector = Stage;

impl Stage {
    /// Whether the stage runs.
    pub closed spec fn running(self) -> bool {
        self.running
    }

    /// A stage that does not run yet.
    pub fn new() -> (stage: Stage)
        ensures
            !stage.running(),
    {
        Stage { running: false }
    }

    /// Whether the stage runs.
    pub fn is_running(&self) -> (running: bool)
        ensures
            running == self.running(),
    {
        self.running
    }

    /// Starts the stage; a stage that runs goes on running.
    pub fn start(&mut self)
        ensures
            final(self).running(),
    {
        self.running = true;
    }

    /// Stops the stage; a stage that does not run stays as it is.
    pub fn stop(&mut self)
        ensures
            !final(self).running(),
    {
        self.running = false;
    }
}

/// The stages of one pipeline. The aggregation of flows and the two
/// collectors are optional.
pub struct CollectorThread {
    pub quadruple_generator: QuadrupleGeneratorThread,
    l4_flow_aggr: Option<FlowAggrThread>,
    second_collector: Option<Collector>,
    minute_collector: Option<Collector>,
}

/// A stage that is there runs or rests as `running` says; a stage that is
/// not there stays away.
pub open spec fn switched(stage: Option<Stage>, running: bool) -> bool {
    match stage {
        Some(stage) => stage.running() == running,
        None => true,
    }
}

/// One for a stage that is there and runs, else nothing.
pub open spec fn running_in(stage: Option<Stage>) -> nat {
    match stage {
        Some(stage) => if stage.running() {
            1
        } else {
            0
        },
        None => 0,
    }
}

impl CollectorThread {
    /// The stage that every pipeline has.
    pub closed spec fn quadruple_generator(self) -> QuadrupleGeneratorThread {
        self.quadruple_generator
    }

    /// The aggregation of flows, where the pipeline has one.
    pub closed spec fn l4_flow_aggr(self) -> Option<FlowAggrThread> {
        self.l4_flow_aggr
    }

    /// The collector of seconds, where the pipeline has one.
    pub closed spec fn second_collector(self) -> Option<Collector> {
        self.second_collector
    }

    /// The collector of minutes, where the pipeline has one.
    pub closed spec fn minute_collector(self) -> Option<Collector> {
        self.minute_collector
    }

    /// The same stages are there in `self` and in `other`.
    pub open spec fn same_stages(self, other: CollectorThread) -> bool {
        &&& self.l4_flow_aggr() is Some <==> other.l4_flow_aggr() is Some
        &&& self.second_collector() is Some <==> other.second_collector() is Some
        &&& self.minute_collector() is Some <==> other.minute_collector() is Some
    }

    /// Every stage that is there runs or rests as `running` says.
    pub open spec fn all_switched(self, running: bool) -> bool {
        &&& self.quadruple_generator().running() == running
        &&& switched(self.l4_flow_aggr(), running)
        &&& switched(self.second_collector(), running)
        &&& switched(self.minute_collector(), running)
    }

    /// How many of the stages that are there run.
    pub open spec fn running_count(self) -> nat {
        running_in(Some(self.quadruple_generator())) + running_in(self.l4_flow_aggr())
            + running_in(self.second_collector()) + running_in(self.minute_collector())
    }

    /// How many of the stages that are there run.
    pub fn running_stages(&self) -> (count: usize)
        ensures
            count == self.running_count(),
    {
        let mut count: usize = 0;
        if self.quadruple_generator.is_running() {
            count += 1;
        }
        if let Some(stage) = &self.l4_flow_aggr {
            if stage.is_running() {
                count += 1;
            }
        }
        if let Some(stage) = &self.second_collector {
            if stage.is_running() {
                count += 1;
            }
        }
        if let Some(stage) = &self.minute_collector {
            if stage.is_running() {
                count += 1;
            }
        }
        count
    }

    /// A pipeline of the given stages, each in the state it was handed over
    /// in.
    pub fn new(
        quadruple_generator: QuadrupleGeneratorThread,
        l4_flow_aggr: Option<FlowAggrThread>,
        second_collector: Option<Collector>,
        minute_collector: Option<Collector>,
    ) -> (thread: Self)
        ensures
            thread.quadruple_generator() == quadruple_generator,
            thread.l4_flow_aggr() == l4_flow_aggr,
            thread.second_collector() == second_collector,
            thread.minute_collector() == minute_collector,
    {
        Self { quadruple_generator, l4_flow_aggr, second_collector, minute_collector }
    }

    /// Starts every stage that is there.
    pub fn start(&mut self)
        ensures
            final(self).same_stages(*old(self)),
            final(self).all_switched(true),
    {
        self.quadruple_generator.start();
        if let Some(l4_flow_aggr) = &mut self.l4_flow_aggr {
            l4_flow_aggr.start();
        }
        if let Some(second_collector) = &mut self.second_collector {
            second_collector.start();
        }
        if let Some(minute_collector) = &mut self.minute_collector {
            minute_collector.start();
        }
    }

    /// Stops every stage that is there.
    pub fn stop(&mut self)
        ensures
            final(self).same_stages(*old(self)),
            final(self).all_switched(false),
    {
        self.quadruple_generator.stop();
        if let Some(l4_flow_aggr) = &mut self.l4_flow_aggr {
            l4_flow_aggr.stop();
        }
        if let Some(second_collector) = &mut self.second_collector {
            second_collector.stop();
        }
        if let Some(minute_collector) = &mut self.minute_collector {
            minute_collector.stop();
        }
    }
}

} // verus!

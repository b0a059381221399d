//! The live sampler's start gates.
//!
//! Each metric category has an emission loop that is launched by the first
//! start request and runs from then on; later requests change nothing. One
//! background refresher, launched once as well, keeps the system state that
//! the loops read up to date. This module decides; whoever owns the sampler
//! launches the loops and sleeps between the ticks.

use vstd::prelude::*;

verus! {

/// The interval between two emissions of one category, in milliseconds.
pub const EMIT_INTERVAL_MS: u64 = 1000;

/// The interval between two refreshes of the shared system state, in
/// milliseconds.
pub const REFRESH_INTERVAL_MS: u64 = 200;

/// A category of live metrics.
#[derive(Clone, Copy, Debug, PartialEq, Eq, Structural)]
pub enum MetricCategory {
    CpuUsage,
    Memory,
    SysInfo,
    Processes,
}

/// The state of one loop: it starts once and never stops.
#[derive(Clone, Copy, Debug, PartialEq, Eq, Structural)]
pub enum LoopState {
    Uninitialized,
    Running,
}

/// What the caller of a start request has to do.
#[derive(Clone, Copy, Debug, PartialEq, Eq, Structural)]
pub enum StartAction {
    /// The request came first: launch the loop.
    Launch,
    /// The loop runs already: do nothing.
    AlreadyRunning,
}

// ---------------------------------------------------------------------------
// The model: start requests on one gate
// ---------------------------------------------------------------------------

/// One start request as its gate sees it.
pub ghost struct StartRequest {
    pub before: LoopState,
    pub after: LoopState,
    pub action: StartAction,
}

impl StartRequest {
    /// What a start request may do: the first one launches the loop, every
    /// other one finds it running and leaves it so.
    pub open spec fn lawful(self) -> bool {
        match self.before {
            LoopState::Uninitialized => self.action == StartAction::Launch && self.after
                == LoopState::Running,
            LoopState::Running => self.action == StartAction::AlreadyRunning && self.after
                == LoopState::Running,
        }
    }
}

/// Start requests that follow one another on one gate.
pub open spec fn sequential(requests: Seq<StartRequest>) -> bool {
    &&& forall|i: int| 0 <= i < requests.len() ==> (#[trigger] requests[i]).lawful()
    &&& forall|i: int|
        0 <= i < requests.len() - 1 ==> (#[trigger] requests[i + 1]).before == requests[i].after
}

/// How many of the requests launched a loop.
pub open spec fn launches(requests: Seq<StartRequest>) -> nat
    decreases requests.len(),
{
    if requests.len() == 0 {
        0
    } else {
        launches(requests.drop_last()) + if requests.last().action == StartAction::Launch {
            1nat
        } else {
            0nat
        }
    }
}

/// One loop per category, however many start requests arrive and in
/// whatever order the lock serves them: the request served first launches
/// it if nothing runs yet, and no request launches one if the loop runs
/// already. The loop runs after every request.
pub proof fn lemma_one_loop_per_category(requests: Seq<StartRequest>)
    requires
        sequential(requests),
        requests.len() >= 1,
    ensures
        requests.last().after == LoopState::Running,
        requests[0].before == LoopState::Uninitialized ==> launches(requests) == 1,
        requests[0].before == LoopState::Running ==> launches(requests) == 0,
        requests[0].before == LoopState::Uninitialized ==> requests[0].action
            == StartAction::Launch,
        forall|i: int| 1 <= i < requests.len() ==> (#[trigger] requests[i]).action
            == StartAction::AlreadyRunning,
    decreases requests.len(),
{
    let n = requests.len() as int;
    let front = requests.drop_last();
    assert(requests[n - 1].lawful());
    if n == 1 {
        assert(launches(front) == 0);
    } else {
        assert(sequential(front)) by {
            assert forall|i: int| 0 <= i < front.len() - 1 implies (#[trigger] front[i + 1]).before
                == front[i].after by {
                assert(requests[i + 1].before == requests[i].after);
            }
        }
        lemma_one_loop_per_category(front);
        assert(requests[(n - 2) + 1].before == requests[n - 2].after);
        assert(front.last() == requests[n - 2]);
        assert forall|i: int| 1 <= i < requests.len() implies (#[trigger] requests[i]).action
            == StartAction::AlreadyRunning by {
            if i < n - 1 {
                assert(front[i] == requests[i]);
            }
        }
    }
}

// ---------------------------------------------------------------------------
// The gates
// ---------------------------------------------------------------------------

/// The start gates of the four emission loops and of the refresher.
#[derive(Debug)]
pub struct LiveSampler {
    cpu_usage: LoopState,
    memory: LoopState,
    sys_info: LoopState,
    processes: LoopState,
    refresher: LoopState,
}

impl LiveSampler {
    /// The state of a category's emission loop.
    pub closed spec fn state(&self, category: MetricCategory) -> LoopState {
        match category {
            MetricCategory::CpuUsage => self.cpu_usage,
            MetricCategory::Memory => self.memory,
            MetricCategory::SysInfo => self.sys_info,
            MetricCategory::Processes => self.processes,
        }
    }

    /// The state of the background refresher.
    pub closed spec fn refresher_state(&self) -> LoopState {
        self.refresher
    }

    /// The number of emission loops of a category that are alive.
    pub open spec fn active_loops(&self, category: MetricCategory) -> nat {
        match self.state(category) {
            LoopState::Uninitialized => 0,
            LoopState::Running => 1,
        }
    }

    /// A sampler on which nothing runs yet.
    pub fn new() -> (sampler: LiveSampler)
        ensures
            forall|category: MetricCategory|
                sampler.state(category) == LoopState::Uninitialized,
            sampler.refresher_state() == LoopState::Uninitialized,
    {
        LiveSampler {
            cpu_usage: LoopState::Uninitialized,
            memory: LoopState::Uninitialized,
            sys_info: LoopState::Uninitialized,
            processes: LoopState::Uninitialized,
            refresher: LoopState::Uninitialized,
        }
    }

    /// Whether the emission loop of a category runs.
    pub fn is_running(&self, category: MetricCategory) -> (running: bool)
        ensures
            running == (self.state(category) == LoopState::Running),
    {
        let state = match category {
            MetricCategory::CpuUsage => self.cpu_usage,
            MetricCategory::Memory => self.memory,
            MetricCategory::SysInfo => self.sys_info,
            MetricCategory::Processes => self.processes,
        };
        match state {
            LoopState::Running => true,
            LoopState::Uninitialized => false,
        }
    }

    /// Whether the background refresher runs.
    pub fn refresher_is_running(&self) -> (running: bool)
        ensures
            running == (self.refresher_state() == LoopState::Running),
    {
        match self.refresher {
            LoopState::Running => true,
            LoopState::Uninitialized => false,
        }
    }

    /// A request to start the emission loop of a category. The first request
    /// for a category is told to launch the loop; every later one is told
    /// that it runs. The other categories and the refresher are left alone.
    pub fn start(&mut self, category: MetricCategory) -> (action: StartAction)
        ensures
            (StartRequest {
                before: old(self).state(category),
                after: final(self).state(category),
                action,
            }).lawful(),
            forall|other: MetricCategory|
                other != category ==> final(self).state(other) == old(self).state(other),
            final(self).refresher_state() == old(self).refresher_state(),
            final(self).active_loops(category) == 1,
    {
        if self.is_running(category) {
            return StartAction::AlreadyRunning;
        }
        match category {
            MetricCategory::CpuUsage => {
                self.cpu_usage = LoopState::Running;
            },
            MetricCategory::Memory => {
                self.memory = LoopState::Running;
            },
            MetricCategory::SysInfo => {
                self.sys_info = LoopState::Running;
            },
            MetricCategory::Processes => {
                self.processes = LoopState::Running;
            },
        }
        StartAction::Launch
    }

    /// A request to start the background refresher, made by every sample
    /// before it reads the shared state. Only the first one launches it.
    pub fn start_refresher(&mut self) -> (action: StartAction)
        ensures
            (StartRequest {
                before: old(self).refresher_state(),
                after: final(self).refresher_state(),
                action,
            }).lawful(),
            forall|category: MetricCategory|
                final(self).state(category) == old(self).state(category),
    {
        match self.refresher {
            LoopState::Running => StartAction::AlreadyRunning,
            LoopState::Uninitialized => {
                self.refresher = LoopState::Running;
                StartAction::Launch
            },
        }
    }

    /// The name of the event under which the samples of a category are sent.
    pub open spec fn event(category: MetricCategory) -> Seq<char> {
        match category {
            MetricCategory::CpuUsage => "cpu_usage"@,
            MetricCategory::Memory => "memory"@,
            MetricCategory::SysInfo => "sys_info"@,
            MetricCategory::Processes => "processes"@,
        }
    }

    /// The event name as a string.
    pub fn event_name(category: MetricCategory) -> (name: String)
        ensures
            name@ == Self::event(category),
    {
        match category {
            MetricCategory::CpuUsage => String::from_str("cpu_usage"),
            MetricCategory::Memory => String::from_str("memory"),
            MetricCategory::SysInfo => String::from_str("sys_info"),
            MetricCategory::Processes => String::from_str("processes"),
        }
    }
}

} // verus!

//! Power state management: the power saving strategies and monitoring
//! intervals of the power manager, and the network bandwidth it allows in
//! each power state.

use vstd::prelude::*;
use crate::mobile::performance::PowerState;

verus! {

/// Power saving strategies.
#[derive(Debug, Clone, Copy, PartialEq, Eq, Structural)]
pub struct PowerSavingStrategies {
    /// Enable adaptive frequency scaling.
    pub adaptive_cpu_scaling: bool,
    /// Enable memory pressure management.
    pub memory_pressure_management: bool,
    /// Enable background task suspension.
    pub background_task_suspension: bool,
    /// Enable predictive power management.
    pub predictive_management: bool,
}

impl Default for PowerSavingStrategies {
    /// All strategies enabled.
    fn default() -> (s: Self)
        ensures
            s.adaptive_cpu_scaling,
            s.memory_pressure_management,
            s.background_task_suspension,
            s.predictive_management,
    {
        PowerSavingStrategies {
            adaptive_cpu_scaling: true,
            memory_pressure_management: true,
            background_task_suspension: true,
            predictive_management: true,
        }
    }
}

/// Monitoring intervals of the power manager, in seconds.
#[derive(Debug, Clone, Copy, PartialEq, Eq, Structural)]
pub struct MonitoringConfig {
    pub battery_check_interval_secs: u64,
    pub thermal_check_interval_secs: u64,
    pub power_usage_interval_secs: u64,
    pub prediction_interval_secs: u64,
}

impl Default for MonitoringConfig {
    fn default() -> (m: Self)
        ensures
            m.battery_check_interval_secs == 30,
            m.thermal_check_interval_secs == 15,
            m.power_usage_interval_secs == 60,
            m.prediction_interval_secs == 300,
    {
        MonitoringConfig {
            battery_check_interval_secs: 30,
            thermal_check_interval_secs: 15,
            power_usage_interval_secs: 60,
            prediction_interval_secs: 300,
        }
    }
}

/// Default network bandwidth, in bytes per second, for each power state.
pub open spec fn default_network_limit(state: PowerState) -> u64 {
    match state {
        PowerState::Active => 1048576,
        PowerState::PowerSaver => 524288,
        PowerState::Standby => 131072,
        PowerState::Critical => 65536,
        PowerState::Charging => 2097152,
    }
}

/// The default table of network limits, one entry per power state.
pub fn default_network_limits() -> (t: Vec<(PowerState, u64)>)
    ensures
        t@ == seq![
            (PowerState::Active, default_network_limit(PowerState::Active)),
            (PowerState::PowerSaver, default_network_limit(PowerState::PowerSaver)),
            (PowerState::Standby, default_network_limit(PowerState::Standby)),
            (PowerState::Critical, default_network_limit(PowerState::Critical)),
            (PowerState::Charging, default_network_limit(PowerState::Charging)),
        ],
{
    let t = vec![
        (PowerState::Active, 1024 * 1024),
        (PowerState::PowerSaver, 512 * 1024),
        (PowerState::Standby, 128 * 1024),
        (PowerState::Critical, 64 * 1024),
        (PowerState::Charging, 2048 * 1024),
    ];
    assert(t@ =~= seq![
        (PowerState::Active, default_network_limit(PowerState::Active)),
        (PowerState::PowerSaver, default_network_limit(PowerState::PowerSaver)),
        (PowerState::Standby, default_network_limit(PowerState::Standby)),
        (PowerState::Critical, default_network_limit(PowerState::Critical)),
        (PowerState::Charging, default_network_limit(PowerState::Charging)),
    ]);
    t
}

/// Network bandwidth allowed in `state`: the first entry of the table for
/// that state, or 512 KiB/s where the table has none.
pub fn get_network_limit(limits: &Vec<(PowerState, u64)>, state: PowerState) -> (r: u64)
    ensures
        (exists|i: int| 0 <= i < limits@.len() && (#[trigger] limits@[i]).0 == state) ==> exists|i: int|
            0 <= i < limits@.len() && (#[trigger] limits@[i]).0 == state && r == limits@[i].1
                && forall|j: int| 0 <= j < i ==> (#[trigger] limits@[j]).0 != state,
        (forall|i: int| 0 <= i < limits@.len() ==> (#[trigger] limits@[i]).0 != state) ==> r == 524288,
{
    let mut i: usize = 0;
    while i < limits.len()
        invariant
            i <= limits.len(),
            forall|j: int| 0 <= j < i ==> (#[trigger] limits@[j]).0 != state,
        decreases limits.len() - i,
    {
        if limits[i].0 == state {
            return limits[i].1;
        }
        i = i + 1;
    }
    512 * 1024
}

/// How many power-state transitions the manager remembers.
pub open spec fn state_history_limit() -> nat {
    100
}

/// The transition history after recording a change to `state` at `now`:
/// appended at the back, the oldest entry dropped when the limit is passed.
pub open spec fn history_after(history: Seq<(u64, PowerState)>, now: u64, state: PowerState) -> Seq<(u64, PowerState)> {
    let h = history.push((now, state));
    if h.len() > state_history_limit() { h.drop_first() } else { h }
}

/// A change of power state, as announced to subscribers.
#[derive(Debug, Clone, Copy, PartialEq, Eq, Structural)]
pub struct PowerStateChange {
    pub old_state: PowerState,
    pub new_state: PowerState,
    pub timestamp: u64,
}

/// The power state of the power manager, the recent transitions (time in
/// seconds since the Unix epoch, new state), oldest first, and the count of
/// transitions.
pub struct PowerManager {
    power_state: PowerState,
    state_history: std::collections::VecDeque<(u64, PowerState)>,
    state_transitions: u64,
}

impl PowerManager {
    #[verifier::type_invariant]
    spec fn inv(self) -> bool {
        self.state_history@.len() <= state_history_limit()
    }

    /// The current power state.
    pub closed spec fn state(self) -> PowerState {
        self.power_state
    }

    /// The remembered transitions, oldest first.
    pub closed spec fn history(self) -> Seq<(u64, PowerState)> {
        self.state_history@
    }

    /// The number of transitions made.
    pub closed spec fn transitions(self) -> u64 {
        self.state_transitions
    }

    /// A manager in the active state, with no transitions.
    pub fn new() -> (m: Self)
        ensures
            m.state() == PowerState::Active,
            m.history().len() == 0,
            m.transitions() == 0,
    {
        PowerManager {
            power_state: PowerState::Active,
            state_history: std::collections::VecDeque::new(),
            state_transitions: 0,
        }
    }

    /// The current power state.
    pub fn get_power_state(&self) -> (s: PowerState)
        ensures
            s == self.state(),
    {
        self.power_state
    }

    /// The number of transitions made.
    pub fn state_transitions(&self) -> (n: u64)
        ensures
            n == self.transitions(),
    {
        self.state_transitions
    }

    /// The remembered transitions, oldest first.
    pub fn state_history(&self) -> (h: Vec<(u64, PowerState)>)
        ensures
            h@ == self.history(),
    {
        let mut h: Vec<(u64, PowerState)> = Vec::new();
        let mut i: usize = 0;
        while i < self.state_history.len()
            invariant
                i <= self.state_history@.len(),
                h@ == self.state_history@.take(i as int),
            decreases self.state_history@.len() - i,
        {
            h.push(self.state_history[i]);
            i = i + 1;
            assert(h@ =~= self.state_history@.take(i as int));
        }
        assert(self.state_history@.take(i as int) =~= self.state_history@);
        h
    }

    /// Moves to `new_state` at `now`. A change is recorded in the history
    /// (which keeps the latest hundred), counted, and returned for the
    /// subscribers; setting the current state again changes nothing.
    pub fn set_power_state_at(&mut self, new_state: PowerState, now: u64) -> (r: Option<PowerStateChange>)
        requires
            old(self).transitions() < u64::MAX,
        ensures
            final(self).state() == new_state,
            old(self).state() == new_state ==> {
                &&& r is None
                &&& final(self).history() == old(self).history()
                &&& final(self).transitions() == old(self).transitions()
            },
            old(self).state() != new_state ==> {
                &&& r == Some(PowerStateChange { old_state: old(self).state(), new_state, timestamp: now })
                &&& final(self).history() == history_after(old(self).history(), now, new_state)
                &&& final(self).transitions() == old(self).transitions() + 1
            },
            final(self).history().len() <= state_history_limit(),
    {
        proof {
            use_type_invariant(&*self);
        }
        let old_state = self.power_state;
        if old_state == new_state {
            return None;
        }
        let mut history = std::collections::VecDeque::new();
        std::mem::swap(&mut history, &mut self.state_history);
        let ghost before = history@;
        history.push_back((now, new_state));
        if history.len() > 100 {
            let _ = history.pop_front();
        }
        proof {
            let h = before.push((now, new_state));
            if h.len() > state_history_limit() {
                assert(history@ =~= h.drop_first());
            } else {
                assert(history@ =~= h);
            }
        }
        self.state_history = history;
        self.power_state = new_state;
        self.state_transitions = self.state_transitions + 1;
        Some(PowerStateChange { old_state, new_state, timestamp: now })
    }

    /// Moves to `new_state` at the clock's current reading, as
    /// `set_power_state_at` does.
    pub fn set_power_state(&mut self, new_state: PowerState) -> (r: Option<PowerStateChange>)
        requires
            old(self).transitions() < u64::MAX,
        ensures
            final(self).state() == new_state,
            (r is Some) == (old(self).state() != new_state),
            old(self).state() == new_state ==> final(self).history() == old(self).history()
                && final(self).transitions() == old(self).transitions(),
            old(self).state() != new_state ==> final(self).transitions() == old(self).transitions() + 1
                && exists|now: u64| r == Some(PowerStateChange { old_state: old(self).state(), new_state, timestamp: now })
                    && final(self).history() == #[trigger] history_after(old(self).history(), now, new_state),
    {
        let now = crate::clock::current_timestamp();
        let r = self.set_power_state_at(new_state, now);
        proof {
            if old(self).state() != new_state {
                assert(self.history() == history_after(old(self).history(), now, new_state));
            }
        }
        r
    }
}

/// Recording a transition keeps the history within its limit, and the
/// transition just recorded is the last one remembered.
pub proof fn lemma_transition_recorded(before: Seq<(u64, PowerState)>, now: u64, state: PowerState)
    requires
        before.len() <= state_history_limit(),
    ensures
        history_after(before, now, state).len() <= state_history_limit(),
        history_after(before, now, state).len() > 0,
        history_after(before, now, state).last() == (now, state),
{
}

} // verus!

//! Classification of system activity into Online / Idle / Offline, with a
//! threshold on the idle duration and forced-state overrides.

use vstd::prelude::*;
use vstd::string::StringExecFns;

verus! {

/// The three activity classes a tick can observe.
#[derive(Clone, Copy, PartialEq, Eq, Structural, Debug)]
pub enum SystemState {
    /// The user is actively using the computer.
    Online,
    /// No input for at least the idle threshold.
    Idle,
    /// The computer is off-line or sleeping; reachable only through
    /// `set_offline`.
    Offline,
}

/// The display name of a state, as recorded in status items.
pub open spec fn spec_state_name(s: SystemState) -> Seq<char> {
    match s {
        SystemState::Online => "ONLINE"@,
        SystemState::Idle => "IDLE"@,
        SystemState::Offline => "OFFLINE"@,
    }
}

impl SystemState {
    /// The name of the state: `"ONLINE"`, `"IDLE"` or `"OFFLINE"`.
    pub fn name(&self) -> (r: String)
        ensures
            r@ == spec_state_name(*self),
    {
        match self {
            SystemState::Online => String::from_str("ONLINE"),
            SystemState::Idle => String::from_str("IDLE"),
            SystemState::Offline => String::from_str("OFFLINE"),
        }
    }
}

/// The state that an idle duration alone calls for: `Idle` once the
/// duration reaches the threshold, `Online` below it.
pub open spec fn spec_candidate(idle_secs: u64, threshold_secs: u64) -> SystemState {
    if idle_secs >= threshold_secs {
        SystemState::Idle
    } else {
        SystemState::Online
    }
}

/// Tracks the current activity class, the idle threshold that drives
/// `update`, and the time of the last transition (milliseconds).
pub struct StateMonitor {
    pub current_state: SystemState,
    pub idle_threshold_secs: u64,
    pub last_state_change: i64,
}

/// What `update` does: move to the candidate state, stamping the
/// transition time, exactly when the candidate differs from the current
/// state. The comparison is against whatever the current state is,
/// including a forced `Offline`, so an idle-driven update can leave it.
pub open spec fn spec_update(m: StateMonitor, idle_secs: u64, now_ms: i64) -> (StateMonitor, bool) {
    let cand = spec_candidate(idle_secs, m.idle_threshold_secs);
    if cand != m.current_state {
        (
            StateMonitor {
                current_state: cand,
                last_state_change: now_ms,
                ..m
            },
            true,
        )
    } else {
        (m, false)
    }
}

/// What the forced setters do: move to `target`, stamping the transition
/// time, exactly when the state actually changes.
pub open spec fn spec_force(m: StateMonitor, target: SystemState, now_ms: i64) -> StateMonitor {
    if m.current_state != target {
        StateMonitor {
            current_state: target,
            last_state_change: now_ms,
            ..m
        }
    } else {
        m
    }
}

impl StateMonitor {
    /// A monitor in the initial `Online` state with the default idle
    /// threshold of five minutes.
    pub fn new() -> (r: Self)
        ensures
            r == (StateMonitor {
                current_state: SystemState::Online,
                idle_threshold_secs: 300u64,
                last_state_change: 0i64,
            }),
    {
        Self::with_threshold(300)
    }

    /// A monitor in the initial `Online` state with the given idle
    /// threshold in seconds.
    pub fn with_threshold(threshold_secs: u64) -> (r: Self)
        ensures
            r == (StateMonitor {
                current_state: SystemState::Online,
                idle_threshold_secs: threshold_secs,
                last_state_change: 0i64,
            }),
    {
        StateMonitor {
            current_state: SystemState::Online,
            idle_threshold_secs: threshold_secs,
            last_state_change: 0,
        }
    }

    /// The current state.
    pub fn get_state(&self) -> (r: SystemState)
        ensures
            r == self.current_state,
    {
        self.current_state
    }

    /// Set the idle threshold, in seconds, for subsequent `update` calls.
    pub fn set_idle_threshold(&mut self, seconds: u64)
        ensures
            *final(self) == (StateMonitor { idle_threshold_secs: seconds, ..*old(self) }),
    {
        self.idle_threshold_secs = seconds;
    }

    /// The idle threshold in seconds.
    pub fn get_idle_threshold(&self) -> (r: u64)
        ensures
            r == self.idle_threshold_secs,
    {
        self.idle_threshold_secs
    }

    /// The time of the last state transition, in milliseconds.
    pub fn get_last_state_change(&self) -> (r: i64)
        ensures
            r == self.last_state_change,
    {
        self.last_state_change
    }

    /// Reclassify from the observed idle duration, at time `now_ms`.
    /// Returns whether the state changed; this is the only path by which
    /// Online/Idle transitions occur.
    pub fn update(&mut self, idle_secs: u64, now_ms: i64) -> (changed: bool)
        ensures
            (*final(self), changed) == spec_update(*old(self), idle_secs, now_ms),
            final(self).current_state == spec_candidate(idle_secs, old(self).idle_threshold_secs),
            changed == (old(self).current_state != spec_candidate(
                idle_secs,
                old(self).idle_threshold_secs,
            )),
    {
        let new_state = if idle_secs >= self.idle_threshold_secs {
            SystemState::Idle
        } else {
            SystemState::Online
        };
        if self.current_state != new_state {
            self.current_state = new_state;
            self.last_state_change = now_ms;
            true
        } else {
            false
        }
    }

    /// Force the state to `Offline` (an external sleep signal), at time
    /// `now_ms`.
    pub fn set_offline(&mut self, now_ms: i64)
        ensures
            *final(self) == spec_force(*old(self), SystemState::Offline, now_ms),
    {
        if self.current_state != SystemState::Offline {
            self.current_state = SystemState::Offline;
            self.last_state_change = now_ms;
        }
    }

    /// Force the state back to `Online` (an external wake signal), at time
    /// `now_ms`.
    pub fn set_online(&mut self, now_ms: i64)
        ensures
            *final(self) == spec_force(*old(self), SystemState::Online, now_ms),
    {
        if self.current_state != SystemState::Online {
            self.current_state = SystemState::Online;
            self.last_state_change = now_ms;
        }
    }
}

impl Default for StateMonitor {
    /// Same as `StateMonitor::new`.
    fn default() -> (r: Self)
        ensures
            r == (StateMonitor {
                current_state: SystemState::Online,
                idle_threshold_secs: 300u64,
                last_state_change: 0i64,
            }),
    {
        Self::new()
    }
}

/// Law: a second `update` with the same idle duration never reports a
/// change, whatever times the two calls are stamped with — there is no
/// spurious re-transition.
pub proof fn lemma_update_twice_same_idle(m: StateMonitor, idle_secs: u64, t1: i64, t2: i64)
    ensures
        !spec_update(spec_update(m, idle_secs, t1).0, idle_secs, t2).1,
{
}

} // verus!

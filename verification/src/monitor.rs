//! The session monitor: watches the workload of an active session and ends
//! the session when the workload is gone.
use vstd::prelude::*;
use crate::settings::AppSettings;

verus! {

/// Seconds between two ticks while a workload is watched.
pub const WATCHING_INTERVAL_SECS: u64 = 2;

/// Seconds between two ticks while nothing is watched.
pub const IDLE_INTERVAL_SECS: u64 = 5;

/// The two states of the monitor.
#[derive(Clone, Copy, Debug, PartialEq, Eq)]
pub enum MonitorState {
    Idle,
    Watching(u32),
}

/// What a tick asks the caller to do.
#[derive(Clone, Copy, Debug, PartialEq, Eq)]
pub enum MonitorAction {
    Nothing,
    /// End the session with the settings it was started with, then tell the
    /// front end that the session is over.
    EndSession { settings: AppSettings },
}

/// One step of a session start or end, for the caller to carry out in order.
#[derive(Clone, Copy, Debug, PartialEq, Eq, Structural)]
pub enum SessionStep {
    /// The system-wide tweak set.
    SystemTweaks,
    /// The hardware tweaks.
    HardwareTweaks,
    /// The orchestrator.
    GameMode,
    /// Look for the workload to watch.
    DetectWorkload,
}

/// The steps of a session start: the system-wide tweaks first, if they are
/// switched on, then the hardware tweaks, the orchestrator, and the search
/// for the workload.
pub open spec fn start_steps(settings: AppSettings) -> Seq<SessionStep> {
    (if settings.advanced_tweaks {
        seq![SessionStep::SystemTweaks]
    } else {
        Seq::empty()
    }) + seq![SessionStep::HardwareTweaks, SessionStep::GameMode, SessionStep::DetectWorkload]
}

/// The steps of a session end: what was applied last is restored first, so
/// that a value that two steps write ends up as the first of them found it.
/// The orchestrator comes first, then the hardware tweaks, then the
/// system-wide tweaks, if they are switched on.
pub open spec fn end_steps(settings: AppSettings) -> Seq<SessionStep> {
    seq![SessionStep::GameMode, SessionStep::HardwareTweaks] + (if settings.advanced_tweaks {
        seq![SessionStep::SystemTweaks]
    } else {
        Seq::empty()
    })
}

/// The flags shared between the front end, the session and the monitor.
#[derive(Clone, Copy, Debug, PartialEq, Eq)]
pub struct SessionMonitor {
    /// The watched process; 0 stands for none.
    pub monitored_pid: u32,
    pub is_monitoring: bool,
    /// Whether a session is active.
    pub active: bool,
    /// The settings the active session was started with.
    pub settings: AppSettings,
}

impl SessionMonitor {
    pub open spec fn state(&self) -> MonitorState {
        if self.is_monitoring && self.monitored_pid != 0 {
            MonitorState::Watching(self.monitored_pid)
        } else {
            MonitorState::Idle
        }
    }

    /// Seconds between two ticks: 2 while monitoring, 5 otherwise.
    pub open spec fn interval(&self) -> u64 {
        if self.is_monitoring {
            WATCHING_INTERVAL_SECS
        } else {
            IDLE_INTERVAL_SECS
        }
    }

    /// The monitor after a tick on which the watched process was found
    /// alive or not, and what the tick asks for. A tick changes something
    /// only when a process is watched and it is gone: then the watch is
    /// cleared, the session is flagged inactive, and the session end is
    /// asked for with the settings of its start.
    pub open spec fn probe(&self, alive: bool) -> (SessionMonitor, MonitorAction) {
        if self.state() != MonitorState::Idle && !alive {
            (
                SessionMonitor {
                    monitored_pid: 0,
                    is_monitoring: false,
                    active: false,
                    settings: self.settings,
                },
                MonitorAction::EndSession { settings: self.settings },
            )
        } else {
            (*self, MonitorAction::Nothing)
        }
    }

    /// A monitor with no session and nothing to watch.
    pub fn new(settings: AppSettings) -> (m: Self)
        ensures
            m == (SessionMonitor {
                monitored_pid: 0,
                is_monitoring: false,
                active: false,
                settings,
            }),
            m.state() == MonitorState::Idle,
    {
        SessionMonitor { monitored_pid: 0, is_monitoring: false, active: false, settings }
    }

    /// The current state.
    pub fn current_state(&self) -> (s: MonitorState)
        ensures
            s == self.state(),
    {
        if self.is_monitoring && self.monitored_pid != 0 {
            MonitorState::Watching(self.monitored_pid)
        } else {
            MonitorState::Idle
        }
    }

    /// Seconds to sleep before the next tick.
    pub fn poll_interval_secs(&self) -> (secs: u64)
        ensures
            secs == self.interval(),
    {
        if self.is_monitoring {
            WATCHING_INTERVAL_SECS
        } else {
            IDLE_INTERVAL_SECS
        }
    }

    /// The process whose existence this tick has to check, if any.
    pub fn watched(&self) -> (pid: Option<u32>)
        ensures
            pid == match self.state() {
                MonitorState::Watching(p) => Some(p),
                MonitorState::Idle => None,
            },
    {
        if self.is_monitoring && self.monitored_pid != 0 {
            Some(self.monitored_pid)
        } else {
            None
        }
    }

    /// The steps of a session start under `settings`.
    pub fn start_steps(settings: &AppSettings) -> (steps: Vec<SessionStep>)
        ensures
            steps@ == start_steps(*settings),
    {
        let mut steps: Vec<SessionStep> = Vec::new();
        if settings.advanced_tweaks {
            steps.push(SessionStep::SystemTweaks);
        }
        steps.push(SessionStep::HardwareTweaks);
        steps.push(SessionStep::GameMode);
        steps.push(SessionStep::DetectWorkload);
        assert(steps@ =~= start_steps(*settings));
        steps
    }

    /// The steps of a session end under `settings`.
    pub fn end_steps(settings: &AppSettings) -> (steps: Vec<SessionStep>)
        ensures
            steps@ == end_steps(*settings),
    {
        let mut steps: Vec<SessionStep> = Vec::new();
        steps.push(SessionStep::GameMode);
        steps.push(SessionStep::HardwareTweaks);
        if settings.advanced_tweaks {
            steps.push(SessionStep::SystemTweaks);
        }
        assert(steps@ =~= end_steps(*settings));
        steps
    }

    /// A session is being started with `settings`: it is flagged active and
    /// the settings are kept for its end.
    pub fn session_starting(&mut self, settings: &AppSettings)
        ensures
            *final(self) == (SessionMonitor { active: true, settings: *settings, ..*old(self) }),
    {
        self.active = true;
        self.settings = *settings;
    }

    /// The session start is done. A detected workload is watched from now
    /// on; without one the watch stays as it was.
    pub fn session_started(&mut self, detected: Option<(u32, usize)>)
        ensures
            *final(self) == match detected {
                Some((pid, _)) => SessionMonitor {
                    monitored_pid: pid,
                    is_monitoring: true,
                    ..*old(self)
                },
                None => *old(self),
            },
    {
        match detected {
            Some((pid, _)) => {
                self.monitored_pid = pid;
                self.is_monitoring = true;
            },
            None => {},
        }
    }

    /// The user ends the session: the watch is cleared first. The settings
    /// of the session start are handed out for the end.
    pub fn session_stopping(&mut self) -> (settings: AppSettings)
        ensures
            settings == old(self).settings,
            *final(self) == (SessionMonitor {
                monitored_pid: 0,
                is_monitoring: false,
                ..*old(self)
            }),
    {
        self.is_monitoring = false;
        self.monitored_pid = 0;
        self.settings
    }

    /// The session end is done: the session is flagged inactive.
    pub fn session_stopped(&mut self)
        ensures
            *final(self) == (SessionMonitor { active: false, ..*old(self) }),
    {
        self.active = false;
    }

    /// One tick. `alive` tells whether the watched process still exists; it
    /// is not looked at when nothing is watched.
    pub fn tick(&mut self, alive: bool) -> (action: MonitorAction)
        ensures
            (*final(self), action) == old(self).probe(alive),
    {
        if self.is_monitoring && self.monitored_pid != 0 && !alive {
            self.is_monitoring = false;
            self.monitored_pid = 0;
            self.active = false;
            MonitorAction::EndSession { settings: self.settings }
        } else {
            MonitorAction::Nothing
        }
    }

    /// Whether the program may exit: only while no session is active.
    pub fn may_exit(&self) -> (r: bool)
        ensures
            r == !self.active,
    {
        !self.active
    }
}

/// Auto-disable on exit. While an active session watches a process, ticks
/// come every 2 seconds. The first tick that finds the process gone flags
/// the session inactive and asks for its end with the settings it was
/// started with. After that nothing is watched, so every later tick, whatever
/// it is told, changes nothing and asks for nothing: the end is asked for
/// exactly once.
pub proof fn lemma_auto_disable_once(monitor: SessionMonitor, settings: AppSettings, pid: u32,
    window: usize, later_alive: bool)
    requires
        pid != 0,
    ensures
        ({
            let starting = SessionMonitor { active: true, settings, ..monitor };
            let watching = SessionMonitor { monitored_pid: pid, is_monitoring: true, ..starting };
            let (after, action) = watching.probe(false);
            let (again, second) = after.probe(later_alive);
            &&& watching.active
            &&& watching.state() == MonitorState::Watching(pid)
            &&& watching.interval() == 2
            &&& after.interval() == 5
            &&& watching.probe(true) == (watching, MonitorAction::Nothing)
            &&& action == (MonitorAction::EndSession { settings })
            &&& !after.active
            &&& after.state() == MonitorState::Idle
            &&& again == after
            &&& second == MonitorAction::Nothing
        }),
{
}

/// A session ends in the reverse order of its start: the steps of the end
/// are those of the start that apply something, last first.
pub proof fn lemma_end_reverses_start(settings: AppSettings)
    ensures
        end_steps(settings).len() + 1 == start_steps(settings).len(),
        forall|i: int|
            0 <= i < end_steps(settings).len() ==> #[trigger] end_steps(settings)[i]
                == start_steps(settings)[end_steps(settings).len() - 1 - i],
        start_steps(settings).last() == SessionStep::DetectWorkload,
{
}

} // verus!

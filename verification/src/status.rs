//! Status reports as the service control manager receives them.

use vstd::prelude::*;

verus! {

/// Lifecycle state carried by a status report.
#[derive(Clone, Copy, Debug, PartialEq, Eq)]
pub enum ServiceState {
    StartPending,
    Running,
    StopPending,
    Stopped,
}

/// The controls that the service declares it will accept.
#[derive(Clone, Copy, Debug, PartialEq, Eq)]
pub struct AcceptedControls {
    pub stop: bool,
    pub pause_continue: bool,
}

/// One status report. Each report supersedes the one before it.
#[derive(Clone, Copy, Debug, PartialEq, Eq)]
pub struct ServiceStatusReport {
    pub state: ServiceState,
    pub accepted: AcceptedControls,
    pub exit_code: u32,
    pub checkpoint: u32,
    pub wait_hint_secs: u64,
    pub process_id: Option<u32>,
}

/// Seconds the service control manager is asked to wait while the service starts.
pub const START_WAIT_HINT_SECS: u64 = 10;

/// Wait hint, in seconds, of the reports that are not about starting.
pub const STEADY_WAIT_HINT_SECS: u64 = 5;

/// Exit code of a run that ended without error.
pub const EXIT_CLEAN: u32 = 0;

/// Exit code reported when the child command could not be launched.
pub const EXIT_SPAWN_FAILED: u32 = 1;

/// Exit code reported when an earlier status report could not be sent.
pub const EXIT_REPORT_FAILED: u32 = 2;

/// Mask bit of the Stop control in the platform's status protocol.
pub const ACCEPT_STOP_BIT: u32 = 1;

/// Mask bit of the Pause and Continue controls in the platform's status protocol.
pub const ACCEPT_PAUSE_CONTINUE_BIT: u32 = 2;

/// No control accepted.
pub open spec fn accept_nothing() -> AcceptedControls {
    AcceptedControls { stop: false, pause_continue: false }
}

/// The report that announces initialisation: waiting to start, first
/// checkpoint, Stop alone accepted.
pub open spec fn start_pending_report(process_id: u32) -> ServiceStatusReport {
    ServiceStatusReport {
        state: ServiceState::StartPending,
        accepted: AcceptedControls { stop: true, pause_continue: false },
        exit_code: EXIT_CLEAN,
        checkpoint: 1,
        wait_hint_secs: START_WAIT_HINT_SECS,
        process_id: Some(process_id),
    }
}

/// The report that announces the running service: Stop, Pause and Continue
/// accepted, no checkpoint.
pub open spec fn running_report(process_id: u32) -> ServiceStatusReport {
    ServiceStatusReport {
        state: ServiceState::Running,
        accepted: AcceptedControls { stop: true, pause_continue: true },
        exit_code: EXIT_CLEAN,
        checkpoint: 0,
        wait_hint_secs: STEADY_WAIT_HINT_SECS,
        process_id: Some(process_id),
    }
}

/// The terminal report: stopped, nothing accepted, no process.
pub open spec fn stopped_report(exit_code: u32) -> ServiceStatusReport {
    ServiceStatusReport {
        state: ServiceState::Stopped,
        accepted: accept_nothing(),
        exit_code,
        checkpoint: 0,
        wait_hint_secs: STEADY_WAIT_HINT_SECS,
        process_id: None,
    }
}

impl AcceptedControls {
    /// The set as the platform's bit mask.
    pub open spec fn mask(self) -> int {
        (if self.stop {
            1int
        } else {
            0int
        }) + (if self.pause_continue {
            2int
        } else {
            0int
        })
    }

    /// Computes [`AcceptedControls::mask`].
    pub fn bits(&self) -> (bits: u32)
        ensures
            bits == self.mask(),
    {
        let stop: u32 = if self.stop {
            ACCEPT_STOP_BIT
        } else {
            0
        };
        let pause_continue: u32 = if self.pause_continue {
            ACCEPT_PAUSE_CONTINUE_BIT
        } else {
            0
        };
        stop + pause_continue
    }
}

impl ServiceStatusReport {
    /// Builds [`start_pending_report`].
    pub fn start_pending(process_id: u32) -> (report: Self)
        ensures
            report == start_pending_report(process_id),
    {
        ServiceStatusReport {
            state: ServiceState::StartPending,
            accepted: AcceptedControls { stop: true, pause_continue: false },
            exit_code: EXIT_CLEAN,
            checkpoint: 1,
            wait_hint_secs: START_WAIT_HINT_SECS,
            process_id: Some(process_id),
        }
    }

    /// Builds [`running_report`].
    pub fn running(process_id: u32) -> (report: Self)
        ensures
            report == running_report(process_id),
    {
        ServiceStatusReport {
            state: ServiceState::Running,
            accepted: AcceptedControls { stop: true, pause_continue: true },
            exit_code: EXIT_CLEAN,
            checkpoint: 0,
            wait_hint_secs: STEADY_WAIT_HINT_SECS,
            process_id: Some(process_id),
        }
    }

    /// Builds [`stopped_report`].
    pub fn stopped(exit_code: u32) -> (report: Self)
        ensures
            report == stopped_report(exit_code),
    {
        ServiceStatusReport {
            state: ServiceState::Stopped,
            accepted: AcceptedControls { stop: false, pause_continue: false },
            exit_code,
            checkpoint: 0,
            wait_hint_secs: STEADY_WAIT_HINT_SECS,
            process_id: None,
        }
    }
}

} // verus!

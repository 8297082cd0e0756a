//! What is known of the runners while the application runs.

use vstd::prelude::*;
use crate::config::{opt_text, Config};

verus! {

/// What a runner is doing.
#[derive(Debug, Clone, Copy, PartialEq, Eq, Structural)]
pub enum RunnerStatus {
    /// The runner is not running.
    Offline,
    /// The runner is running and waits for a job.
    Idle,
    /// The runner is running a job.
    Running,
}

/// What was last learnt of a runner.
#[derive(Debug)]
pub struct RuntimeState {
    pub status: RunnerStatus,
    pub pid: Option<u32>,
    /// Seconds since the epoch at which the state was last updated.
    pub last_heartbeat: Option<u64>,
    pub last_error: Option<String>,
}

/// The view of a [`RuntimeState`].
pub struct RuntimeView {
    pub status: RunnerStatus,
    pub pid: Option<u32>,
    pub last_heartbeat: Option<u64>,
    pub last_error: Option<Seq<char>>,
}

impl View for RuntimeState {
    type V = RuntimeView;

    open spec fn view(&self) -> RuntimeView {
        RuntimeView {
            status: self.status,
            pid: self.pid,
            last_heartbeat: self.last_heartbeat,
            last_error: opt_text(self.last_error),
        }
    }
}

impl Default for RuntimeState {
    fn default() -> (r: Self)
        ensures
            r@ == (RuntimeView {
                status: RunnerStatus::Offline,
                pid: None,
                last_heartbeat: None,
                last_error: None,
            }),
    {
        RuntimeState { status: RunnerStatus::Offline, pid: None, last_heartbeat: None, last_error: None }
    }
}

impl Clone for RuntimeState {
    fn clone(&self) -> (r: Self)
        ensures
            r@ == self@,
    {
        RuntimeState {
            status: self.status,
            pid: self.pid,
            last_heartbeat: self.last_heartbeat,
            last_error: self.last_error.clone(),
        }
    }
}

impl RuntimeState {
    /// Records what was learnt of a runner at the time `now`, in seconds
    /// since the epoch.
    pub fn record(&mut self, status: RunnerStatus, pid: Option<u32>, last_error: Option<String>, now: u64)
        ensures
            final(self)@ == (RuntimeView {
                status,
                pid,
                last_heartbeat: Some(now),
                last_error: opt_text(last_error),
            }),
    {
        self.status = status;
        self.pid = pid;
        self.last_heartbeat = Some(now);
        self.last_error = last_error;
    }
}

/// The status of a runner: offline unless its process or its service
/// runs; else what its log says.
pub open spec fn status_of_runner(process_running: bool, service_running: bool, in_log: RunnerStatus) -> RunnerStatus {
    if process_running || service_running {
        in_log
    } else {
        RunnerStatus::Offline
    }
}

/// The status of a runner, from whether it runs and what its log says.
pub fn runner_status(process_running: bool, service_running: bool, in_log: RunnerStatus) -> (r:
    RunnerStatus)
    ensures
        r == status_of_runner(process_running, service_running, in_log),
{
    if process_running || service_running {
        in_log
    } else {
        RunnerStatus::Offline
    }
}

/// The document together with what is known of each runner, by identity.
#[derive(Debug)]
pub struct AppSnapshot {
    pub config: Config,
    pub runtime: Vec<(String, RuntimeState)>,
}

} // verus!

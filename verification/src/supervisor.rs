//! The process supervisor: a single mutually-exclusive cell holding the one
//! optional worker handle, and the state machine behind the start, stop,
//! status, send-input and open-login operations.
//!
//! The cell itself is the only shared state; the embedding program guards a
//! `Supervisor` value with one lock and performs every check-then-act
//! sequence as a single call while holding it. OS interaction happens
//! outside: each operation takes the outcome of the non-blocking liveness
//! probe of the current worker as an argument and returns the decision, so
//! every transition is verified for every probe outcome.

use vstd::prelude::*;

use crate::events::{LifecycleEvent, LifecycleState};
use crate::redirect::{login_url, spec_oauth_origin};
use crate::settings::{spec_settings_valid, validate_settings, SyncSettings};
use crate::text::{spec_trim, trim_str};

verus! {

/// The typed failures of the supervisor's operations.
#[derive(Clone, Copy, PartialEq, Eq, Structural, Debug)]
pub enum SyncError {
    /// Bad caller input; nothing was touched.
    Validation,
    /// A start while the worker is still live.
    AlreadyRunning,
    /// An operation that needs a live worker found none.
    NotRunning,
    /// The lock around the supervisor cell is poisoned.
    Lock,
    /// The OS failed to create the worker.
    Spawn,
    /// A pipe write or flush failed, or the worker's input is unavailable.
    Io,
    /// The OS failed to answer a liveness query; the handle is discarded
    /// defensively since its true state is unknown.
    Inspect,
}

impl SyncError {
    /// A human-readable message for direct display.
    pub fn message(&self) -> (r: String)
        ensures
            *self is Validation ==> r@ == "Missing or empty required input"@,
            *self is AlreadyRunning ==> r@ == "Sync is already running"@,
            *self is NotRunning ==> r@ == "Sync is not running."@,
            *self is Lock ==> r@ == "Failed to lock process state"@,
            *self is Spawn ==> r@ == "Failed to start sync process. Ensure Bun is installed."@,
            *self is Io ==> r@ == "Failed to write to sync process input"@,
            *self is Inspect ==> r@ == "Failed to inspect sync process"@,
    {
        match self {
            SyncError::Validation => String::from_str("Missing or empty required input"),
            SyncError::AlreadyRunning => String::from_str("Sync is already running"),
            SyncError::NotRunning => String::from_str("Sync is not running."),
            SyncError::Lock => String::from_str("Failed to lock process state"),
            SyncError::Spawn => String::from_str(
                "Failed to start sync process. Ensure Bun is installed.",
            ),
            SyncError::Io => String::from_str("Failed to write to sync process input"),
            SyncError::Inspect => String::from_str("Failed to inspect sync process"),
        }
    }
}

/// The outcome of one non-blocking liveness probe of the current worker.
#[derive(Clone, Copy, PartialEq, Eq, Debug)]
pub enum Probe {
    /// The worker is still running.
    Alive,
    /// The worker has exited; the code is `None` when it was killed by a
    /// signal or the code is unobtainable on the host OS.
    Exited { code: Option<i32> },
    /// The OS could not answer the query.
    Failed,
}

/// The model of one live worker handle: its process identifier and whether
/// its standard input pipe was captured at spawn.
#[derive(Clone, Copy, PartialEq, Eq, Structural, Debug)]
pub struct Worker {
    pub pid: u32,
    pub has_input: bool,
}

/// The reply of a status query.
#[derive(Clone, Copy, PartialEq, Eq, Structural, Debug)]
pub struct SyncStatus {
    pub running: bool,
}

/// The decision of the pre-spawn phase of a start.
#[derive(Clone, Copy, PartialEq, Eq, Structural, Debug)]
pub enum StartDecision {
    /// A required credential is empty; nothing was touched and no OS spawn
    /// may be performed.
    RejectValidation,
    /// The worker is still live; the cell is untouched.
    AlreadyRunning,
    /// The liveness query failed; the stale handle was discarded and the
    /// start is aborted.
    InspectError,
    /// The cell is empty (a handle that had already exited was cleared);
    /// the embedding program may spawn and then commit.
    Proceed,
}

/// The decision of a stop.
#[derive(Clone, Copy, PartialEq, Eq, Structural, Debug)]
pub enum StopPlan {
    /// No worker was live; stopping is not an error.
    AlreadyIdle,
    /// Terminate descendants of `pid`, kill the worker, reap it, and sweep
    /// remaining descendants.
    Kill { pid: u32 },
}

/// The outcome of one liveness-monitor tick.
#[derive(Clone, Copy, PartialEq, Eq, Debug)]
pub enum TickOutcome {
    /// No worker is live; nothing to do.
    NoWorker,
    /// The worker is still running; nothing to do.
    StillRunning,
    /// The worker exited on its own; the cell was cleared.
    WorkerExited { code: Option<i32> },
    /// The liveness query failed; the cell was cleared defensively.
    InspectFailed,
}

/// The worker is live and its standard input pipe was captured.
pub open spec fn worker_accepts_input(w: Option<Worker>) -> bool {
    w matches Some(wk) && wk.has_input
}

/// What a status query does to the cell and returns, for every probe
/// outcome. A probe accompanies the query exactly when a worker is live.
pub open spec fn spec_status(w: Option<Worker>, probe: Option<Probe>) -> (Option<
    Worker,
>, Result<bool, SyncError>) {
    match w {
        Option::None => (Option::<Worker>::None, Ok(false)),
        Option::Some(_) => match probe {
            Some(Probe::Alive) => (w, Ok(true)),
            Some(Probe::Exited { .. }) => (Option::<Worker>::None, Ok(false)),
            _ => (Option::<Worker>::None, Err(SyncError::Inspect)),
        },
    }
}

/// What the pre-spawn phase of a start does to the cell and decides.
pub open spec fn spec_start_plan(w: Option<Worker>, valid: bool, probe: Option<Probe>) -> (Option<
    Worker,
>, StartDecision) {
    if !valid {
        (w, StartDecision::RejectValidation)
    } else {
        match w {
            Option::None => (Option::<Worker>::None, StartDecision::Proceed),
            Option::Some(_) => match probe {
                Some(Probe::Alive) => (w, StartDecision::AlreadyRunning),
                Some(Probe::Exited { .. }) => (Option::<Worker>::None, StartDecision::Proceed),
                _ => (Option::<Worker>::None, StartDecision::InspectError),
            },
        }
    }
}

/// What a stop does to the cell and decides.
pub open spec fn spec_stop(w: Option<Worker>) -> (Option<Worker>, StopPlan) {
    match w {
        Option::None => (Option::<Worker>::None, StopPlan::AlreadyIdle),
        Option::Some(wk) => (Option::<Worker>::None, StopPlan::Kill { pid: wk.pid }),
    }
}

/// What one monitor tick does to the cell and reports.
pub open spec fn spec_monitor_tick(w: Option<Worker>, probe: Option<Probe>) -> (Option<
    Worker,
>, TickOutcome) {
    match w {
        Option::None => (Option::<Worker>::None, TickOutcome::NoWorker),
        Option::Some(_) => match probe {
            Some(Probe::Alive) => (w, TickOutcome::StillRunning),
            Some(Probe::Exited { code }) => (
                Option::<Worker>::None,
                TickOutcome::WorkerExited { code },
            ),
            _ => (Option::<Worker>::None, TickOutcome::InspectFailed),
        },
    }
}

/// The supervisor cell: at most one worker handle is ever live, and every
/// operation reads and writes the cell as one atomic transition.
pub struct Supervisor {
    pub worker: Option<Worker>,
}

impl Supervisor {
    /// A fresh supervisor with no live worker.
    pub fn new() -> (s: Self)
        ensures
            s.worker is None,
    {
        Supervisor { worker: None }
    }

    /// The process identifier of the current worker, for the embedding
    /// program to probe before an operation.
    pub fn worker_pid(&self) -> (r: Option<u32>)
        ensures
            match r {
                Some(pid) => self.worker matches Some(w) && w.pid == pid,
                None => self.worker is None,
            },
    {
        match &self.worker {
            Some(w) => Some(w.pid),
            None => None,
        }
    }

    /// Non-blocking liveness check. A worker that has already exited is
    /// cleared and reported as not running; a failed query discards the
    /// handle defensively. Never blocks waiting for exit.
    pub fn is_sync_running(&mut self, probe: Option<Probe>) -> (r: Result<bool, SyncError>)
        requires
            old(self).worker is Some ==> probe is Some,
        ensures
            (final(self).worker, r) == spec_status(old(self).worker, probe),
    {
        match self.worker {
            None => Ok(false),
            Some(_) => match probe {
                Some(Probe::Alive) => Ok(true),
                Some(Probe::Exited { .. }) => {
                    self.worker = None;
                    Ok(false)
                },
                _ => {
                    self.worker = None;
                    Err(SyncError::Inspect)
                },
            },
        }
    }

    /// The status reply: whether a worker is currently live.
    pub fn get_sync_status(&mut self, probe: Option<Probe>) -> (r: Result<SyncStatus, SyncError>)
        requires
            old(self).worker is Some ==> probe is Some,
        ensures
            match r {
                Ok(st) => spec_status(old(self).worker, probe).1 == Ok::<bool, SyncError>(
                    st.running,
                ),
                Err(e) => spec_status(old(self).worker, probe).1 == Err::<bool, SyncError>(e),
            },
            final(self).worker == spec_status(old(self).worker, probe).0,
    {
        match self.is_sync_running(probe) {
            Ok(running) => Ok(SyncStatus { running }),
            Err(e) => Err(e),
        }
    }

    /// The pre-spawn phase of a start: reject empty credentials before any
    /// OS interaction, refuse a start while the worker is live, and clear a
    /// handle that has already exited. On `Proceed` the cell is empty and
    /// the embedding program may spawn the worker and commit its handle.
    pub fn start_sync_plan(&mut self, settings: &SyncSettings, probe: Option<Probe>) -> (d:
        StartDecision)
        requires
            old(self).worker is Some ==> probe is Some,
        ensures
            (final(self).worker, d) == spec_start_plan(
                old(self).worker,
                spec_settings_valid(*settings),
                probe,
            ),
            !spec_settings_valid(*settings) ==> d is RejectValidation && final(self).worker == old(self).worker,
            d is Proceed ==> final(self).worker is None,
    {
        if !validate_settings(settings) {
            return StartDecision::RejectValidation;
        }
        match self.worker {
            None => StartDecision::Proceed,
            Some(_) => match probe {
                Some(Probe::Alive) => StartDecision::AlreadyRunning,
                Some(Probe::Exited { .. }) => {
                    self.worker = None;
                    StartDecision::Proceed
                },
                _ => {
                    self.worker = None;
                    StartDecision::InspectError
                },
            },
        }
    }

    /// Store the handle of a freshly spawned worker. Only an empty cell can
    /// take one: a live handle is never overwritten.
    pub fn start_sync_commit(&mut self, pid: u32, has_input: bool)
        requires
            old(self).worker is None,
        ensures
            final(self).worker == Some(Worker { pid, has_input }),
    {
        self.worker = Some(Worker { pid, has_input });
    }

    /// Idempotent stop: clears the cell whatever it held. `AlreadyIdle` is
    /// success, never an error; `Kill` names the worker to terminate.
    pub fn stop_sync(&mut self) -> (plan: StopPlan)
        ensures
            (final(self).worker, plan) == spec_stop(old(self).worker),
            final(self).worker is None,
            plan is AlreadyIdle <==> old(self).worker is None,
            plan matches StopPlan::Kill { pid } ==> (old(self).worker matches Some(w) && w.pid
                == pid),
    {
        match self.worker {
            None => StopPlan::AlreadyIdle,
            Some(w) => {
                self.worker = None;
                StopPlan::Kill { pid: w.pid }
            },
        }
    }

    /// Relay one out-of-band input line to the worker. Empty or
    /// whitespace-only input is rejected before the cell is consulted; on
    /// success the returned payload is exactly the trimmed text followed by
    /// one newline, ready to be written to the worker's standard input.
    pub fn submit_steam_guard_code(&mut self, code: &str, probe: Option<Probe>) -> (r: Result<
        String,
        SyncError,
    >)
        requires
            old(self).worker is Some ==> probe is Some,
        ensures
            spec_trim(code@).len() == 0 ==> r == Err::<String, SyncError>(SyncError::Validation)
                && final(self).worker == old(self).worker,
            spec_trim(code@).len() > 0 ==> {
                match old(self).worker {
                    Option::None => r == Err::<String, SyncError>(SyncError::NotRunning) && final(self).worker is None,
                    Option::Some(w) => match probe {
                        Some(Probe::Alive) => final(self).worker == old(self).worker && (if w.has_input {
                            r matches Ok(payload) && payload@ == spec_trim(code@).push('\n')
                        } else {
                            r == Err::<String, SyncError>(SyncError::Io)
                        }),
                        Some(Probe::Exited { .. }) => r == Err::<String, SyncError>(
                            SyncError::NotRunning,
                        ) && final(self).worker is None,
                        _ => r == Err::<String, SyncError>(SyncError::Inspect) && final(self).worker is None,
                    },
                }
            },
            r is Ok <==> (spec_trim(code@).len() > 0 && worker_accepts_input(old(self).worker)
                && probe == Some(Probe::Alive)),
    {
        let trimmed = trim_str(code);
        if trimmed.unicode_len() == 0 {
            return Err(SyncError::Validation);
        }
        match self.worker {
            None => Err(SyncError::NotRunning),
            Some(w) => match probe {
                Some(Probe::Alive) => {
                    if w.has_input {
                        let payload = String::from_str(trimmed).concat("\n");
                        proof {
                            reveal_strlit("\n");
                            assert(spec_trim(code@) + "\n"@ =~= spec_trim(code@).push('\n'));
                        }
                        Ok(payload)
                    } else {
                        Err(SyncError::Io)
                    }
                },
                Some(Probe::Exited { .. }) => {
                    self.worker = None;
                    Err(SyncError::NotRunning)
                },
                _ => {
                    self.worker = None;
                    Err(SyncError::Inspect)
                },
            },
        }
    }

    /// Open the login page: allowed only while the worker is reported as
    /// running, by the same liveness check as a status query. On success the
    /// returned URL is the derived origin followed by `/login`; the handle
    /// itself is never touched.
    pub fn open_spotify_login(&mut self, redirect_uri: Option<&str>, probe: Option<Probe>) -> (r:
        Result<String, SyncError>)
        requires
            old(self).worker is Some ==> probe is Some,
        ensures
            final(self).worker == spec_status(old(self).worker, probe).0,
            spec_status(old(self).worker, probe).1 == Ok::<bool, SyncError>(true) ==> (r matches Ok(url)
                && url@ == spec_oauth_origin(redirect_uri.deep_view()) + "/login"@),
            spec_status(old(self).worker, probe).1 == Ok::<bool, SyncError>(false) ==> r == Err::<
                String,
                SyncError,
            >(SyncError::NotRunning),
            spec_status(old(self).worker, probe).1 matches Err(e) ==> r == Err::<String, SyncError>(
                e,
            ),
    {
        match self.is_sync_running(probe) {
            Err(e) => Err(e),
            Ok(false) => Err(SyncError::NotRunning),
            Ok(true) => Ok(login_url(redirect_uri)),
        }
    }

    /// One tick of the liveness monitor: detect an exit even when no caller
    /// is interacting, clear the cell, and report the exit code the probe
    /// observed; a failed query clears the cell defensively.
    pub fn sync_monitor_tick(&mut self, probe: Option<Probe>) -> (o: TickOutcome)
        requires
            old(self).worker is Some ==> probe is Some,
        ensures
            (final(self).worker, o) == spec_monitor_tick(old(self).worker, probe),
            probe matches Some(Probe::Exited { code }) ==> (old(self).worker is Some ==> final(self).worker is None && o == (TickOutcome::WorkerExited { code })),
    {
        match self.worker {
            None => TickOutcome::NoWorker,
            Some(_) => match probe {
                Some(Probe::Alive) => TickOutcome::StillRunning,
                Some(Probe::Exited { code }) => {
                    self.worker = None;
                    TickOutcome::WorkerExited { code }
                },
                _ => {
                    self.worker = None;
                    TickOutcome::InspectFailed
                },
            },
        }
    }
}

/// The lifecycle events a stop emits, in order: exactly one `idle` event for
/// a stop with no live worker, never an error; `stopping` before and
/// `stopped` after the kill sequence otherwise.
pub fn stop_event_plan(plan: &StopPlan) -> (evs: Vec<LifecycleEvent>)
    ensures
        *plan is AlreadyIdle ==> evs@.len() == 1 && evs@[0].state is Idle && evs@[0].exit_code
            is None,
        *plan is Kill ==> evs@.len() == 2 && evs@[0].state is Stopping && evs@[1].state is Stopped
            && evs@[0].exit_code is None && evs@[1].exit_code is None,
{
    let mut evs: Vec<LifecycleEvent> = Vec::new();
    match plan {
        StopPlan::AlreadyIdle => {
            evs.push(
                LifecycleEvent {
                    state: LifecycleState::Idle,
                    message: String::from_str("Sync process is not running."),
                    exit_code: None,
                },
            );
        },
        StopPlan::Kill { .. } => {
            evs.push(
                LifecycleEvent {
                    state: LifecycleState::Stopping,
                    message: String::from_str("Stopping sync process..."),
                    exit_code: None,
                },
            );
            evs.push(
                LifecycleEvent {
                    state: LifecycleState::Stopped,
                    message: String::from_str("Sync process stopped."),
                    exit_code: None,
                },
            );
        },
    }
    evs
}

/// The lifecycle events one monitor tick emits: nothing while the worker
/// runs, exactly one `exited` event carrying the observed exit code, or one
/// `error` event for a failed liveness query.
pub fn tick_event_plan(outcome: &TickOutcome) -> (evs: Vec<LifecycleEvent>)
    ensures
        (*outcome is NoWorker || *outcome is StillRunning) ==> evs@.len() == 0,
        *outcome matches TickOutcome::WorkerExited { code } ==> evs@.len() == 1 && evs@[0].state
            is Exited && evs@[0].exit_code == code,
        *outcome is InspectFailed ==> evs@.len() == 1 && evs@[0].state is Error && evs@[0].exit_code
            is None,
{
    let mut evs: Vec<LifecycleEvent> = Vec::new();
    match outcome {
        TickOutcome::NoWorker => {},
        TickOutcome::StillRunning => {},
        TickOutcome::WorkerExited { code } => {
            evs.push(
                LifecycleEvent {
                    state: LifecycleState::Exited,
                    message: String::from_str("Sync process exited."),
                    exit_code: *code,
                },
            );
        },
        TickOutcome::InspectFailed => {
            evs.push(
                LifecycleEvent {
                    state: LifecycleState::Error,
                    message: String::from_str("Failed to inspect sync process"),
                    exit_code: None,
                },
            );
        },
    }
    evs
}

/// At most one worker handle is ever live at a time. The cell holds at most
/// one handle by construction; this law states the other half: a start
/// attempted while the worker is still alive never proceeds to a spawn and
/// leaves the cell untouched, whatever the settings. Together with
/// `start_sync_commit` accepting a handle only into an empty cell, no
/// sequence of starts and stops ever spawns over a live worker.
pub proof fn lemma_no_double_spawn(w: Option<Worker>, valid: bool)
    requires
        w is Some,
    ensures
        spec_start_plan(w, valid, Some(Probe::Alive)).1 !is Proceed,
        spec_start_plan(w, valid, Some(Probe::Alive)).0 == w,
{
}

/// A stop always leaves the cell empty, and a stop of an already-stopped
/// supervisor succeeds with `AlreadyIdle` — whose event plan is exactly one
/// `idle` event, never an error — so the destructive transition is
/// idempotent.
pub proof fn lemma_stop_idempotent(w: Option<Worker>)
    ensures
        spec_stop(w).0 is None,
        spec_stop(spec_stop(w).0).1 is AlreadyIdle,
{
}

/// After a stop, a status query reports not running, and a start with valid
/// settings proceeds: no residual already-running state survives a stop.
pub proof fn lemma_stop_then_restart(w: Option<Worker>, valid: bool, probe: Option<Probe>)
    requires
        valid,
    ensures
        spec_status(spec_stop(w).0, probe).1 == Ok::<bool, SyncError>(false),
        spec_start_plan(spec_stop(w).0, valid, probe).1 is Proceed,
{
}

/// The fatal event the monitor emits when the lock around the cell cannot be
/// acquired: the one unrecoverable condition, after which the monitor loop
/// terminates.
pub fn monitor_lock_failure_event() -> (e: LifecycleEvent)
    ensures
        e.state is Error,
        e.exit_code is None,
{
    LifecycleEvent {
        state: LifecycleState::Error,
        message: String::from_str("Failed to lock process state in sync monitor."),
        exit_code: None,
    }
}

} // verus!

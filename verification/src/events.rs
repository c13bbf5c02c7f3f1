//! Lifecycle and log notification payloads handed to the event sink.

use vstd::prelude::*;

verus! {

/// The states a run of the worker moves through. Within one run they are
/// emitted in the relative order
/// `starting -> running -> (stopping -> stopped | exited | error)`,
/// with `idle` reserved for a stop of an already-stopped supervisor.
#[derive(Clone, Copy, PartialEq, Eq, Structural, Debug)]
pub enum LifecycleState {
    Starting,
    Running,
    Stopping,
    Stopped,
    Exited,
    Idle,
    Error,
}

impl LifecycleState {
    /// The wire name of the state, as the event sink receives it.
    pub fn name(&self) -> (r: String)
        ensures
            *self is Starting ==> r@ == "starting"@,
            *self is Running ==> r@ == "running"@,
            *self is Stopping ==> r@ == "stopping"@,
            *self is Stopped ==> r@ == "stopped"@,
            *self is Exited ==> r@ == "exited"@,
            *self is Idle ==> r@ == "idle"@,
            *self is Error ==> r@ == "error"@,
    {
        match self {
            LifecycleState::Starting => String::from_str("starting"),
            LifecycleState::Running => String::from_str("running"),
            LifecycleState::Stopping => String::from_str("stopping"),
            LifecycleState::Stopped => String::from_str("stopped"),
            LifecycleState::Exited => String::from_str("exited"),
            LifecycleState::Idle => String::from_str("idle"),
            LifecycleState::Error => String::from_str("error"),
        }
    }
}

/// One lifecycle notification: the state, a human message for direct
/// display, and the OS exit code when one was observed.
#[derive(Clone)]
pub struct LifecycleEvent {
    pub state: LifecycleState,
    pub message: String,
    pub exit_code: Option<i32>,
}

/// The source a log line is tagged with: one of the worker's two output
/// pipes, or the synthetic `ui` stream for supervisor-generated diagnostic
/// text, which is never confused with worker output.
#[derive(Clone, Copy, PartialEq, Eq, Structural, Debug)]
pub enum Stream {
    Stdout,
    Stderr,
    Ui,
}

impl Stream {
    /// The wire name of the stream, as the event sink receives it.
    pub fn name(&self) -> (r: String)
        ensures
            *self is Stdout ==> r@ == "stdout"@,
            *self is Stderr ==> r@ == "stderr"@,
            *self is Ui ==> r@ == "ui"@,
    {
        match self {
            Stream::Stdout => String::from_str("stdout"),
            Stream::Stderr => String::from_str("stderr"),
            Stream::Ui => String::from_str("ui"),
        }
    }
}

/// One line of output forwarded to the event sink: its source stream and its
/// text without the trailing newline.
#[derive(Clone)]
pub struct LogLine {
    pub stream: Stream,
    pub text: String,
}

} // verus!

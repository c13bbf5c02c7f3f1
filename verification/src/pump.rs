//! The log pump's per-line decision: forward each decoded line tagged with
//! its source stream, and stop after forwarding one `ui` diagnostic when a
//! line cannot be decoded — a broken pipe cannot self-heal, so there is no
//! retry.

use vstd::prelude::*;

use crate::events::{LogLine, Stream};

verus! {

/// What the pump does with one read from the worker's pipe.
pub enum PumpStep {
    /// Forward the line to the event sink and keep reading.
    Forward { line: LogLine },
    /// Forward one diagnostic on the `ui` stream and terminate the pump.
    FailStop { notice: LogLine },
}

/// Decide what to do with one read from the pipe: a decoded line is
/// forwarded unchanged on the pump's own stream; a decode failure becomes a
/// single `ui` diagnostic carrying the failure text, after which the pump
/// terminates.
pub fn log_reader_step(stream: Stream, read: Result<String, String>) -> (r: PumpStep)
    ensures
        read matches Ok(text) ==> (r matches PumpStep::Forward { line } && line.stream == stream
            && line.text == text),
        read matches Err(failure) ==> (r matches PumpStep::FailStop { notice } && notice.stream
            is Ui && notice.text == failure),
{
    match read {
        Ok(text) => PumpStep::Forward { line: LogLine { stream, text } },
        Err(failure) => PumpStep::FailStop {
            notice: LogLine { stream: Stream::Ui, text: failure },
        },
    }
}

} // verus!

//! Call-lifecycle events and their rendering.
//!
//! The external core emits a stream of tagged events while a call is running.
//! Each event is rendered to exactly one human-readable line; the rendering is
//! a pure function of the event, stated by [`line_of`] and implemented by
//! [`format_event`].

use vstd::prelude::*;

verus! {

/// One call-lifecycle event, as produced by the core client during a call:
/// free-form log text, a status change, an error report, or the end of the
/// call.
pub enum CallEvent {
    Log(String),
    Status(String),
    Error(String),
    Ended,
}

/// The one line that a [`CallEvent`] is rendered to.
pub open spec fn line_of(e: CallEvent) -> Seq<char> {
    match e {
        CallEvent::Log(m) => "[LOG] "@ + m@,
        CallEvent::Status(s) => "STATUS: "@ + s@,
        CallEvent::Error(t) => "ERROR: "@ + t@,
        CallEvent::Ended => "FINISH"@,
    }
}

/// The lines of a whole event sequence, in emission order.
pub open spec fn lines_of(events: Seq<CallEvent>) -> Seq<Seq<char>> {
    events.map_values(|e: CallEvent| line_of(e))
}

/// Render one event to its line.
pub fn format_event(e: &CallEvent) -> (line: String)
    ensures
        line@ == line_of(*e),
{
    match e {
        CallEvent::Log(m) => {
            let mut line = String::from_str("[LOG] ");
            line.append(m.as_str());
            line
        },
        CallEvent::Status(s) => {
            let mut line = String::from_str("STATUS: ");
            line.append(s.as_str());
            line
        },
        CallEvent::Error(t) => {
            let mut line = String::from_str("ERROR: ");
            line.append(t.as_str());
            line
        },
        CallEvent::Ended => String::from_str("FINISH"),
    }
}

} // verus!

use vstd::prelude::*;
use vstd::string::StringSliceAdditionalSpecFns;

use crate::text::bytes_equal;

verus! {

/// The phase that the split timer reports.
#[derive(Debug, Clone, Copy, PartialEq, Eq, Structural)]
pub enum TimerPhase {
    NotRunning,
    Running,
    Ended,
    Paused,
}

/// The phase that a reply of the timer names; none where it names none.
pub open spec fn phase_named(s: Seq<u8>) -> Option<TimerPhase> {
    if s == "NotRunning".spec_bytes() {
        Some(TimerPhase::NotRunning)
    } else if s == "Running".spec_bytes() {
        Some(TimerPhase::Running)
    } else if s == "Ended".spec_bytes() {
        Some(TimerPhase::Ended)
    } else if s == "Paused".spec_bytes() {
        Some(TimerPhase::Paused)
    } else {
        None
    }
}

impl TimerPhase {
    /// Reads a phase from a reply line of the timer, without its line end.
    pub fn try_from_raw(s: &[u8]) -> (r: Option<TimerPhase>)
        ensures
            r == phase_named(s@),
    {
        if bytes_equal(s, "NotRunning".as_bytes()) {
            Some(TimerPhase::NotRunning)
        } else if bytes_equal(s, "Running".as_bytes()) {
            Some(TimerPhase::Running)
        } else if bytes_equal(s, "Ended".as_bytes()) {
            Some(TimerPhase::Ended)
        } else if bytes_equal(s, "Paused".as_bytes()) {
            Some(TimerPhase::Paused)
        } else {
            None
        }
    }
}

/// Whether a reply to a request for a run variable says that the variable is
/// unset: it is empty, or a lone `-`.
pub open spec fn is_unset_reply(s: Seq<u8>) -> bool {
    s.len() == 0 || s == "-".spec_bytes()
}

/// The value of a run variable from the timer's reply to a request for it;
/// none where the variable is unset.
pub fn variable_value<'a>(reply: &'a [u8]) -> (r: Option<&'a [u8]>)
    ensures
        is_unset_reply(reply@) ==> r is None,
        !is_unset_reply(reply@) ==> r == Some(reply),
{
    if reply.len() == 0 || bytes_equal(reply, "-".as_bytes()) {
        None
    } else {
        Some(reply)
    }
}

} // verus!

//! The device locator's control state: one thread of control is either
//! scanning for the target device or listening to it, never both, so at
//! most one listener session is ever active.

use crate::config::Config;
use crate::events::{device_matches, spec_device_matches};
use vstd::prelude::*;

verus! {

/// The two phases of the control thread. `Scanning` covers both the
/// startup enumeration and the steady-state directory watch; `Listening`
/// is an open device session.
#[derive(Debug, Clone, Copy, PartialEq, Eq, Structural)]
pub enum Phase {
    Scanning,
    Listening,
}

/// Locator step on a candidate device (one enumerated at startup, or one
/// whose node appeared, changed attributes or was renamed into the
/// watched directory): a listener session is entered exactly when the
/// locator is scanning and the candidate's reported name matches the
/// configured name. A candidate seen while listening never opens a
/// second session.
pub fn on_candidate(config: &Config, phase: Phase, name: &Option<String>) -> (r: (
    Phase,
    bool,
))
    ensures
        r.1 == (phase == Phase::Scanning && spec_device_matches(*config, *name)),
        r.0 == (if r.1 {
            Phase::Listening
        } else {
            phase
        }),
{
    match phase {
        Phase::Scanning => {
            if device_matches(config, name) {
                (Phase::Listening, true)
            } else {
                (Phase::Scanning, false)
            }
        },
        Phase::Listening => (Phase::Listening, false),
    }
}

/// Locator step when a listener session ends (the device disappeared or
/// an event failed to decode): the locator goes back to scanning; the
/// session's end is reported, never propagated as a process failure.
pub fn on_session_end(phase: Phase) -> (r: Phase)
    ensures
        r == Phase::Scanning,
{
    match phase {
        Phase::Scanning => Phase::Scanning,
        Phase::Listening => Phase::Scanning,
    }
}

} // verus!

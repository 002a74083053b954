//! Input telemetry counters.
//!
//! The surrounding glue listens to the platform's input events and hands
//! each observed event kind in here; the counters themselves, and the
//! read-and-reset cycle the telemetry packets are built from, are verified.
//! The counting state is an explicit value handed to every call site, not
//! an ambient singleton; the caller guards it with its lock.

use vstd::prelude::*;

verus! {

/// Counters of input activity since the last reset.
#[derive(Clone, Copy, Debug, PartialEq, Eq, Structural)]
pub struct InputStats {
    pub mouse_clicks: u64,
    pub key_presses: u64,
    pub mouse_moves: u64,
}

impl Default for InputStats {
    /// All counters at zero.
    fn default() -> (r: Self)
        ensures
            r == (InputStats { mouse_clicks: 0, key_presses: 0, mouse_moves: 0 }),
    {
        InputStats { mouse_clicks: 0, key_presses: 0, mouse_moves: 0 }
    }
}

/// The kinds of input event the listener distinguishes.
#[derive(Clone, Copy, Debug, PartialEq, Eq, Structural)]
pub enum InputEventKind {
    KeyPress,
    ButtonPress,
    MouseMove,
    /// Anything else the listener reports; not counted.
    Other,
}

/// A counter bumped by one; it saturates rather than wrapping.
pub open spec fn spec_bump(c: u64) -> u64 {
    if c == u64::MAX {
        c
    } else {
        (c + 1) as u64
    }
}

/// The counters after one observed event.
pub open spec fn spec_record(s: InputStats, kind: InputEventKind) -> InputStats {
    match kind {
        InputEventKind::KeyPress => InputStats { key_presses: spec_bump(s.key_presses), ..s },
        InputEventKind::ButtonPress => InputStats {
            mouse_clicks: spec_bump(s.mouse_clicks),
            ..s
        },
        InputEventKind::MouseMove => InputStats { mouse_moves: spec_bump(s.mouse_moves), ..s },
        InputEventKind::Other => s,
    }
}

/// Counts one observed input event: exactly the matching counter is
/// bumped, and an uncounted kind changes nothing.
pub fn record_input_event(stats: &mut InputStats, kind: InputEventKind)
    ensures
        *final(stats) == spec_record(*old(stats), kind),
{
    match kind {
        InputEventKind::KeyPress => {
            if stats.key_presses < u64::MAX {
                stats.key_presses = stats.key_presses + 1;
            }
        },
        InputEventKind::ButtonPress => {
            if stats.mouse_clicks < u64::MAX {
                stats.mouse_clicks = stats.mouse_clicks + 1;
            }
        },
        InputEventKind::MouseMove => {
            if stats.mouse_moves < u64::MAX {
                stats.mouse_moves = stats.mouse_moves + 1;
            }
        },
        InputEventKind::Other => {},
    }
}

/// Returns the counters accumulated since the last reset and zeroes them,
/// as one atomic read-and-reset under the caller's lock.
pub fn get_and_reset_input_stats(stats: &mut InputStats) -> (r: InputStats)
    ensures
        r == *old(stats),
        *final(stats) == (InputStats { mouse_clicks: 0, key_presses: 0, mouse_moves: 0 }),
{
    let current = *stats;
    *stats = InputStats { mouse_clicks: 0, key_presses: 0, mouse_moves: 0 };
    current
}

} // verus!

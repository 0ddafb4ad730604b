//! Decisions of the heartbeat task.
//!
//! The task itself is a loop owned by the caller: wait one interval, emit
//! one liveness frame, and exit when the outbound channel closes. What it
//! emits and when the next beat is due are decided here.

use vstd::prelude::*;

use crate::events::Command;

verus! {

/// The liveness frame one beat emits: it carries the last observed sequence
/// number.
pub fn heartbeat_command(last_sequence: Option<u64>) -> (c: Command)
    ensures
        c == (Command::Heartbeat { last_sequence }),
{
    Command::new_heartbeat(last_sequence)
}

/// When the beat after `now` is due, or nothing at the end of representable
/// time.
pub fn next_beat_deadline(now: u64, interval_ms: u64) -> (d: Option<u64>)
    ensures
        match d {
            Option::Some(t) => t == now + interval_ms,
            Option::None => now + interval_ms > u64::MAX,
        },
{
    now.checked_add(interval_ms)
}

/// The due time of the `n`th beat after `start`: `start + n * interval`.
pub fn nth_beat_deadline(start: u64, interval_ms: u64, n: u64) -> (d: Option<u64>)
    ensures
        match d {
            Option::Some(t) => t == start + n * interval_ms,
            Option::None => start + n * interval_ms > u64::MAX,
        },
{
    match n.checked_mul(interval_ms) {
        None => None,
        Some(p) => start.checked_add(p),
    }
}

} // verus!

//! A keystroke-telemetry session library: a space-delimited text protocol
//! for latency probes and key events, a round-trip-time tracker, a sample
//! buffer with configurable flush policies, and the per-connection session
//! state machine that ties them together.

pub mod data;
pub mod err;
pub mod message;
pub mod ping;
pub mod server;
pub mod text;
pub mod time;

use vstd::prelude::*;

verus! {

/// Elapsed milliseconds from `start` to `now`; a clock that moved backwards
/// reports 0.
pub open spec fn elapsed_spec(start: u128, now_ms: u128) -> u128 {
    if now_ms >= start {
        (now_ms - start) as u128
    } else {
        0
    }
}

/// Elapsed milliseconds between two clock readings, never negative.
pub fn elapsed_since(start: u128, now_ms: u128) -> (r: u128)
    ensures
        r == elapsed_spec(start, now_ms),
{
    if now_ms >= start {
        now_ms - start
    } else {
        0
    }
}

} // verus!

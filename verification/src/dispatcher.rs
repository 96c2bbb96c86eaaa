//! The periodic dispatcher: detects elapsed-time thresholds on a
//! free-running monotonic counter with wraparound-safe arithmetic and
//! injects a tick event into the state machine at a fixed cadence.
//!
//! This is a busy poll, not a blocking wait: the outer control loop calls
//! [`PeriodicDispatcher::poll_tick`] on every iteration with the counter's
//! current reading, interleaved with whatever other polling it performs.

use vstd::prelude::*;

use crate::blinky_fsm::{BlinkyEvent, spec_step_ctx, spec_step_requests, spec_step_state};
use crate::coordinator::Coordinator;

verus! {

/// Time units of the monotonic counter between two ticks: 200 ms at
/// microsecond resolution.
pub const TICK_INTERVAL: u64 = 200_000;

/// Elapsed time by floor-at-zero subtraction on the monotonic counter.
///
/// When the counter wraps (rolls over to zero after its maximum value) the
/// reading drops below the stored timestamp and this understates the
/// elapsed time, delaying exactly one tick — an accepted, documented
/// approximation, given that the counter's period vastly exceeds the tick
/// interval.
pub open spec fn spec_elapsed(last_fired: u64, now: u64) -> u64 {
    if now >= last_fired {
        (now - last_fired) as u64
    } else {
        0
    }
}

/// Whether a tick is due: the interval has elapsed since the last one.
pub open spec fn spec_tick_due(last_fired: u64, now: u64) -> bool {
    spec_elapsed(last_fired, now) >= TICK_INTERVAL
}

/// The dispatcher's whole state: when it last fired, in the monotonic
/// counter's own units.
pub struct PeriodicDispatcher {
    pub last_fired: u64,
}

impl PeriodicDispatcher {
    /// A dispatcher that counts its first interval from `now`.
    pub fn new(now: u64) -> (d: PeriodicDispatcher)
        ensures
            d.last_fired == now,
    {
        PeriodicDispatcher { last_fired: now }
    }

    /// One poll: reports whether the interval has elapsed and, if so,
    /// re-bases the next interval at `now`.
    pub fn poll(&mut self, now: u64) -> (fired: bool)
        ensures
            fired == spec_tick_due(old(self).last_fired, now),
            final(self).last_fired == if fired {
                now
            } else {
                old(self).last_fired
            },
    {
        let elapsed: u64 = if now >= self.last_fired {
            now - self.last_fired
        } else {
            0
        };
        if elapsed >= TICK_INTERVAL {
            self.last_fired = now;
            true
        } else {
            false
        }
    }

    /// One iteration of the periodic task: if the interval has elapsed,
    /// injects a tick event through the coordinator and answers
    /// `Some(requested)`, where `requested` says whether that dispatch
    /// asked for a conversion; otherwise answers `None` and touches
    /// nothing. The caller then reports the coordinator's state label and
    /// performs any requested conversion.
    pub fn poll_tick(&mut self, coord: &mut Coordinator, now: u64) -> (r: Option<bool>)
        ensures
            r is Some <==> spec_tick_due(old(self).last_fired, now),
            final(self).last_fired == if r is Some {
                now
            } else {
                old(self).last_fired
            },
            r is None ==> *final(coord) == *old(coord),
            r is Some && old(coord).published() ==> {
                &&& final(coord).published()
                &&& final(coord).app_state().fsm == spec_step_state(
                    old(coord).app_state().fsm,
                    old(coord).app_state().ctx,
                    BlinkyEvent::TimerTick,
                )
                &&& final(coord).app_state().ctx == spec_step_ctx(
                    old(coord).app_state().fsm,
                    old(coord).app_state().ctx,
                    BlinkyEvent::TimerTick,
                )
                &&& r->Some_0 == spec_step_requests(
                    old(coord).app_state().fsm,
                    old(coord).app_state().ctx,
                    BlinkyEvent::TimerTick,
                )
            },
            r is Some && !old(coord).published() ==> *final(coord) == *old(coord)
                && r->Some_0 == false,
    {
        if self.poll(now) {
            let requested = coord.dispatch(&BlinkyEvent::TimerTick);
            Option::Some(requested)
        } else {
            Option::None
        }
    }
}

} // verus!

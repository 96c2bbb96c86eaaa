//! The event-driven state machine: states, events, the context carried
//! across transitions, and the dispatch engine.
//!
//! The machine has three states. `LedOff` (idle) keeps the output
//! de-asserted. `LedOn` (active) asserts the output and requests one analog
//! conversion. `HighValueWait` (cooldown) de-asserts the output and counts
//! elapsed ticks while re-sampling, leaving only once enough ticks have
//! passed *and* the most recently observed sample is back at or under
//! [`HIGH_THRESHOLD`] — a hysteresis policy that prevents rapid oscillation
//! when the monitored signal hovers near the threshold.
//!
//! Events are never queued: each one is consumed synchronously by
//! [`BlinkyFsm::dispatch`], which runs the active state's processing
//! function and, on a transition, the new state's entry action before it
//! returns. Unhandled events are deliberately treated as a no-op rather
//! than an error, so out-of-context events (a sample arriving while idle)
//! are safely ignored.

use vstd::prelude::*;

verus! {

/// Sample threshold, in the converter's native resolution, above which the
/// machine leaves the active state for its cooldown state.
pub const HIGH_THRESHOLD: u16 = 70;

/// Number of timer ticks that must have elapsed in the cooldown state
/// before the machine may return to idle (about two seconds at the default
/// tick cadence).
pub const COOLDOWN_TICKS: u32 = 10;

/// The indicator output: the one exclusively owned handle to the output
/// line, moved into the [`BlinkyContext`] at startup and never aliased.
/// The driven level is the only thing the machine's logic reads of it;
/// the caller mirrors that level onto the physical pin.
#[derive(PartialEq, Eq, Structural, Debug)]
pub struct Led {
    pub is_high: bool,
}

impl Led {
    /// A fresh handle with the output de-asserted.
    pub fn new() -> (l: Led)
        ensures
            !l.is_high,
    {
        Led { is_high: false }
    }

    /// Assert the output. Asserting an already-asserted output is a no-op.
    pub fn set_high(&mut self)
        ensures
            final(self).is_high,
    {
        self.is_high = true;
    }

    /// De-assert the output. De-asserting an already-de-asserted output is
    /// a no-op.
    pub fn set_low(&mut self)
        ensures
            !final(self).is_high,
    {
        self.is_high = false;
    }
}

/// Mutable data carried across transitions, not part of the state tag.
///
/// `wait_ticks` and `last_adc_value` are meaningful only while the machine
/// is in `HighValueWait`: the tick counter is reset on every entry into
/// that state, and both are ignored elsewhere.
#[derive(PartialEq, Eq, Structural, Debug)]
pub struct BlinkyContext {
    pub led: Led,
    /// Counter for the wait (cooldown) state.
    pub wait_ticks: u32,
    /// Most recent sample value observed while waiting.
    pub last_adc_value: u16,
}

/// The closed event vocabulary. Each event is consumed synchronously the
/// instant it is produced; there is no backlog.
#[derive(Clone, Copy, Debug, PartialEq, Eq, Structural)]
pub enum BlinkyEvent {
    /// Periodic, fixed-interval event injected by the polling dispatcher.
    TimerTick,
    /// One asynchronously produced reading from the monitored analog
    /// input, in the converter's native resolution (no implicit scaling).
    AdcResult(u16),
}

/// Decision of a state's event-processing function: stay put, or move to a
/// new state (whose entry action then runs before dispatch returns).
#[derive(Clone, Copy, Debug, PartialEq, Eq, Structural)]
pub enum Transition {
    Stay,
    To(BlinkyFsm),
}

/// The state tags. Exactly one is active at any time.
#[derive(Clone, Copy, Debug, PartialEq, Eq, Structural)]
pub enum BlinkyFsm {
    /// Output de-asserted, nothing in flight.
    LedOff,
    /// Output asserted; a conversion is in flight or due.
    LedOn,
    /// Output de-asserted, counting elapsed ticks while re-sampling.
    HighValueWait,
}

/// Increment that floors at the counter's ceiling instead of overflowing.
/// Once the counter has passed [`COOLDOWN_TICKS`] its exact value no longer
/// matters, so saturation preserves the cooldown policy on every input.
pub open spec fn saturating_inc(t: u32) -> u32 {
    if t < u32::MAX {
        (t + 1) as u32
    } else {
        t
    }
}

/// The transition table's decision column: what the active state's
/// processing function answers for an event, before any entry action runs.
pub open spec fn spec_decision(s: BlinkyFsm, c: BlinkyContext, e: BlinkyEvent) -> Transition {
    match s {
        BlinkyFsm::LedOff => match e {
            BlinkyEvent::TimerTick => Transition::To(BlinkyFsm::LedOn),
            BlinkyEvent::AdcResult(_) => Transition::Stay,
        },
        BlinkyFsm::LedOn => match e {
            BlinkyEvent::TimerTick => Transition::To(BlinkyFsm::LedOff),
            BlinkyEvent::AdcResult(v) => if v > HIGH_THRESHOLD {
                Transition::To(BlinkyFsm::HighValueWait)
            } else {
                Transition::Stay
            },
        },
        BlinkyFsm::HighValueWait => match e {
            BlinkyEvent::TimerTick => if saturating_inc(c.wait_ticks) >= COOLDOWN_TICKS
                && c.last_adc_value <= HIGH_THRESHOLD {
                Transition::To(BlinkyFsm::LedOff)
            } else {
                Transition::Stay
            },
            BlinkyEvent::AdcResult(_) => Transition::Stay,
        },
    }
}

/// Context changes made by the processing function itself: the cooldown
/// state's bookkeeping. Every other state leaves the context to its entry
/// actions alone.
pub open spec fn spec_process_ctx(s: BlinkyFsm, c: BlinkyContext, e: BlinkyEvent) -> BlinkyContext {
    if s is HighValueWait {
        match e {
            BlinkyEvent::TimerTick => BlinkyContext {
                led: c.led,
                wait_ticks: saturating_inc(c.wait_ticks),
                last_adc_value: c.last_adc_value,
            },
            BlinkyEvent::AdcResult(v) => BlinkyContext {
                led: c.led,
                wait_ticks: c.wait_ticks,
                last_adc_value: v,
            },
        }
    } else {
        c
    }
}

/// Whether the processing function itself requests a conversion: only the
/// cooldown state does, on every tick, to re-sample for its exit condition.
pub open spec fn spec_process_requests(s: BlinkyFsm, e: BlinkyEvent) -> bool {
    s is HighValueWait && e is TimerTick
}

/// The context after the entry action of `target` has run.
pub open spec fn spec_entry_ctx(target: BlinkyFsm, c: BlinkyContext) -> BlinkyContext {
    match target {
        BlinkyFsm::LedOff => BlinkyContext {
            led: Led { is_high: false },
            wait_ticks: c.wait_ticks,
            last_adc_value: c.last_adc_value,
        },
        BlinkyFsm::LedOn => BlinkyContext {
            led: Led { is_high: true },
            wait_ticks: c.wait_ticks,
            last_adc_value: c.last_adc_value,
        },
        BlinkyFsm::HighValueWait => BlinkyContext {
            led: Led { is_high: false },
            wait_ticks: 0,
            last_adc_value: c.last_adc_value,
        },
    }
}

/// Whether the entry action of `target` requests a conversion: only the
/// active state does.
pub open spec fn spec_entry_requests(target: BlinkyFsm) -> bool {
    target is LedOn
}

/// The state after one full dispatch of `e`.
pub open spec fn spec_step_state(s: BlinkyFsm, c: BlinkyContext, e: BlinkyEvent) -> BlinkyFsm {
    match spec_decision(s, c, e) {
        Transition::To(t) => t,
        Transition::Stay => s,
    }
}

/// The context after one full dispatch of `e`: first the processing
/// function's own changes, then — if a transition fired — the new state's
/// entry action.
pub open spec fn spec_step_ctx(s: BlinkyFsm, c: BlinkyContext, e: BlinkyEvent) -> BlinkyContext {
    let after_process = spec_process_ctx(s, c, e);
    match spec_decision(s, c, e) {
        Transition::To(t) => spec_entry_ctx(t, after_process),
        Transition::Stay => after_process,
    }
}

/// Whether one full dispatch of `e` requests a conversion, from either the
/// processing function or the entered state's entry action.
pub open spec fn spec_step_requests(s: BlinkyFsm, c: BlinkyContext, e: BlinkyEvent) -> bool {
    spec_process_requests(s, e) || (spec_decision(s, c, e) matches Transition::To(t)
        && spec_entry_requests(t))
}

/// The machine after dispatching a whole sequence of events, first first.
pub open spec fn spec_run(s: BlinkyFsm, c: BlinkyContext, es: Seq<BlinkyEvent>) -> (BlinkyFsm, BlinkyContext)
    decreases es.len(),
{
    if es.len() == 0 {
        (s, c)
    } else {
        spec_run(spec_step_state(s, c, es[0]), spec_step_ctx(s, c, es[0]), es.drop_first())
    }
}

/// Runs the entry action of `target` on the context and reports whether it
/// requested a conversion.
fn run_entry(target: BlinkyFsm, ctx: &mut BlinkyContext) -> (requested: bool)
    ensures
        *final(ctx) == spec_entry_ctx(target, *old(ctx)),
        requested == spec_entry_requests(target),
{
    match target {
        BlinkyFsm::LedOff => {
            ctx.led.set_low();
            false
        },
        BlinkyFsm::LedOn => {
            ctx.led.set_high();
            true
        },
        BlinkyFsm::HighValueWait => {
            ctx.led.set_low();
            ctx.wait_ticks = 0;
            false
        },
    }
}

impl BlinkyFsm {
    /// Runs the entry action of the current (initial) state exactly once,
    /// with no incoming event. The returned flag says whether that entry
    /// action requested a conversion; the caller performs the request.
    pub fn init(&mut self, ctx: &mut BlinkyContext) -> (requested: bool)
        ensures
            *final(self) == *old(self),
            *final(ctx) == spec_entry_ctx(*old(self), *old(ctx)),
            requested == spec_entry_requests(*old(self)),
    {
        run_entry(*self, ctx)
    }

    /// Dispatches one event: runs the active state's processing function
    /// and, on a transition, updates the tag and immediately runs the new
    /// state's entry action before returning.
    ///
    /// Dispatch never fails — an event the active state does not handle is
    /// a no-op, a deliberate permissive policy. The returned flag says
    /// whether this dispatch requested a conversion; the caller performs
    /// the request (fire-and-forget), and the result arrives later as an
    /// [`BlinkyEvent::AdcResult`] event.
    pub fn dispatch(&mut self, ctx: &mut BlinkyContext, evt: &BlinkyEvent) -> (requested: bool)
        ensures
            *final(self) == spec_step_state(*old(self), *old(ctx), *evt),
            *final(ctx) == spec_step_ctx(*old(self), *old(ctx), *evt),
            requested == spec_step_requests(*old(self), *old(ctx), *evt),
    {
        let mut requested = false;
        let decision: Transition = match *self {
            BlinkyFsm::LedOff => match evt {
                BlinkyEvent::TimerTick => Transition::To(BlinkyFsm::LedOn),
                BlinkyEvent::AdcResult(_) => Transition::Stay,
            },
            BlinkyFsm::LedOn => match evt {
                BlinkyEvent::TimerTick => Transition::To(BlinkyFsm::LedOff),
                BlinkyEvent::AdcResult(v) => if *v > HIGH_THRESHOLD {
                    Transition::To(BlinkyFsm::HighValueWait)
                } else {
                    Transition::Stay
                },
            },
            BlinkyFsm::HighValueWait => match evt {
                BlinkyEvent::TimerTick => {
                    requested = true;
                    ctx.wait_ticks = if ctx.wait_ticks < u32::MAX {
                        ctx.wait_ticks + 1
                    } else {
                        u32::MAX
                    };
                    if ctx.wait_ticks >= COOLDOWN_TICKS && ctx.last_adc_value <= HIGH_THRESHOLD {
                        Transition::To(BlinkyFsm::LedOff)
                    } else {
                        Transition::Stay
                    }
                },
                BlinkyEvent::AdcResult(v) => {
                    ctx.last_adc_value = *v;
                    Transition::Stay
                },
            },
        };
        match decision {
            Transition::To(target) => {
                *self = target;
                let entry_requested = run_entry(target, ctx);
                requested = requested || entry_requested;
            },
            Transition::Stay => {},
        }
        requested
    }
}

/// Consistency invariant tying the state tag to the context: the output is
/// asserted exactly while the machine is in the active state.
pub open spec fn led_consistent(s: BlinkyFsm, c: BlinkyContext) -> bool {
    c.led.is_high == (s is LedOn)
}

/// In the idle state a sample result is not handled, and an unhandled
/// event is a complete no-op: it leaves the state tag and the whole
/// context unchanged and requests nothing.
pub proof fn lemma_idle_ignores_samples(c: BlinkyContext, v: u16)
    ensures
        spec_step_state(BlinkyFsm::LedOff, c, BlinkyEvent::AdcResult(v)) == BlinkyFsm::LedOff,
        spec_step_ctx(BlinkyFsm::LedOff, c, BlinkyEvent::AdcResult(v)) == c,
        !spec_step_requests(BlinkyFsm::LedOff, c, BlinkyEvent::AdcResult(v)),
{
}

/// Every event of `es` is a sample at or under the threshold.
pub open spec fn all_low_samples(es: Seq<BlinkyEvent>) -> bool {
    forall|i: int| 0 <= i < es.len()
        ==> (#[trigger] es[i] matches BlinkyEvent::AdcResult(v) && v <= HIGH_THRESHOLD)
}

/// While active, any number of at-or-under-threshold samples changes
/// nothing at all: the machine stays active with the same context.
pub proof fn lemma_active_absorbs_low_samples(c: BlinkyContext, es: Seq<BlinkyEvent>)
    requires
        all_low_samples(es),
    ensures
        spec_run(BlinkyFsm::LedOn, c, es) == (BlinkyFsm::LedOn, c),
    decreases es.len(),
{
    if es.len() > 0 {
        assert((es[0] matches BlinkyEvent::AdcResult(v) && v <= HIGH_THRESHOLD));
        assert(spec_step_state(BlinkyFsm::LedOn, c, es[0]) == BlinkyFsm::LedOn);
        assert(spec_step_ctx(BlinkyFsm::LedOn, c, es[0]) == c);
        assert(all_low_samples(es.drop_first())) by {
            assert forall|i: int| 0 <= i < es.drop_first().len()
                implies (#[trigger] es.drop_first()[i] matches BlinkyEvent::AdcResult(v)
                    && v <= HIGH_THRESHOLD) by {
                assert(es.drop_first()[i] == es[i + 1]);
            }
        }
        lemma_active_absorbs_low_samples(c, es.drop_first());
    }
}

/// From idle, one tick always yields the active state with the output
/// asserted; a second tick always returns to idle with the output
/// de-asserted, for any number of at-or-under-threshold samples in
/// between. (A sample above the threshold is handled, not ignored — it
/// moves the active machine into cooldown — so those are excluded here;
/// its behaviour is [`lemma_active_sample_hysteresis`].)
pub proof fn lemma_idle_tick_round_trip(c: BlinkyContext, es: Seq<BlinkyEvent>)
    requires
        all_low_samples(es),
    ensures
        ({
            let s1 = spec_step_state(BlinkyFsm::LedOff, c, BlinkyEvent::TimerTick);
            let c1 = spec_step_ctx(BlinkyFsm::LedOff, c, BlinkyEvent::TimerTick);
            let (s2, c2) = spec_run(s1, c1, es);
            let s3 = spec_step_state(s2, c2, BlinkyEvent::TimerTick);
            let c3 = spec_step_ctx(s2, c2, BlinkyEvent::TimerTick);
            s1 is LedOn && c1.led.is_high && s3 is LedOff && !c3.led.is_high
        }),
{
    let c1 = spec_step_ctx(BlinkyFsm::LedOff, c, BlinkyEvent::TimerTick);
    lemma_active_absorbs_low_samples(c1, es);
}

/// While active, a sample at or under the threshold never changes state —
/// or anything else; a sample above it always moves the machine into
/// cooldown, which resets the tick counter to zero and de-asserts the
/// output.
pub proof fn lemma_active_sample_hysteresis(c: BlinkyContext, v: u16)
    ensures
        v <= HIGH_THRESHOLD ==> spec_step_state(BlinkyFsm::LedOn, c, BlinkyEvent::AdcResult(v))
            == BlinkyFsm::LedOn
            && spec_step_ctx(BlinkyFsm::LedOn, c, BlinkyEvent::AdcResult(v)) == c
            && !spec_step_requests(BlinkyFsm::LedOn, c, BlinkyEvent::AdcResult(v)),
        v > HIGH_THRESHOLD ==> spec_step_state(BlinkyFsm::LedOn, c, BlinkyEvent::AdcResult(v))
            is HighValueWait
            && spec_step_ctx(BlinkyFsm::LedOn, c, BlinkyEvent::AdcResult(v)).wait_ticks == 0
            && !spec_step_ctx(BlinkyFsm::LedOn, c, BlinkyEvent::AdcResult(v)).led.is_high
            && spec_step_ctx(BlinkyFsm::LedOn, c, BlinkyEvent::AdcResult(v)).last_adc_value
                == c.last_adc_value,
{
}

/// In cooldown, a tick moves the machine to idle exactly when the tick
/// counter, after its increment, has reached [`COOLDOWN_TICKS`] *and* the
/// last recorded sample is at or under the threshold; otherwise the
/// machine stays in cooldown, however many ticks have elapsed.
pub proof fn lemma_cooldown_exit_iff(c: BlinkyContext)
    ensures
        spec_step_state(BlinkyFsm::HighValueWait, c, BlinkyEvent::TimerTick) is LedOff
            <==> (saturating_inc(c.wait_ticks) >= COOLDOWN_TICKS
                && c.last_adc_value <= HIGH_THRESHOLD),
        !(saturating_inc(c.wait_ticks) >= COOLDOWN_TICKS && c.last_adc_value <= HIGH_THRESHOLD)
            ==> spec_step_state(BlinkyFsm::HighValueWait, c, BlinkyEvent::TimerTick)
                is HighValueWait,
        spec_step_requests(BlinkyFsm::HighValueWait, c, BlinkyEvent::TimerTick),
{
}

/// Entry actions are idempotent at the observable level: running a state's
/// entry action a second time leaves the context exactly as the first run
/// left it. In particular the initial state's entry action (run once by
/// `init`) may harmlessly be repeated.
pub proof fn lemma_entry_idempotent(target: BlinkyFsm, c: BlinkyContext)
    ensures
        spec_entry_ctx(target, spec_entry_ctx(target, c)) == spec_entry_ctx(target, c),
{
}

/// The initial entry action establishes the consistency invariant.
pub proof fn lemma_init_establishes_consistency(c: BlinkyContext)
    ensures
        led_consistent(BlinkyFsm::LedOff, spec_entry_ctx(BlinkyFsm::LedOff, c)),
{
}

/// One dispatch preserves the consistency invariant, whatever the event.
pub proof fn lemma_step_preserves_consistency(s: BlinkyFsm, c: BlinkyContext, e: BlinkyEvent)
    requires
        led_consistent(s, c),
    ensures
        led_consistent(spec_step_state(s, c, e), spec_step_ctx(s, c, e)),
{
}

/// Any finite sequence of tick and sample events, dispatched one by one
/// from a machine that satisfies the consistency invariant, only ever
/// yields machines that satisfy it: no interleaving of the two event
/// producers can expose an inconsistent (state, context) pair.
pub proof fn lemma_run_preserves_consistency(s: BlinkyFsm, c: BlinkyContext, es: Seq<BlinkyEvent>)
    requires
        led_consistent(s, c),
    ensures
        led_consistent(spec_run(s, c, es).0, spec_run(s, c, es).1),
    decreases es.len(),
{
    if es.len() > 0 {
        lemma_step_preserves_consistency(s, c, es[0]);
        lemma_run_preserves_consistency(
            spec_step_state(s, c, es[0]),
            spec_step_ctx(s, c, es[0]),
            es.drop_first(),
        );
    }
}

} // verus!

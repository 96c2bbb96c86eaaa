//! The shared-state coordinator: one cell owning the only piece of mutable
//! application state that the two event producers — the periodic dispatcher
//! and the asynchronous sample producer — share.
//!
//! The cell is populated exactly once at startup, before the asynchronous
//! producer is armed, and never emptied afterwards. The coordinator never
//! copies or clones the (machine, context) pair: it owns the pair uniquely
//! and performs each event dispatch itself, under exclusive access, so a
//! producer only ever sees the pair either untouched or after one complete
//! transition step — never anything in between. On a bare-metal single-core
//! target that exclusivity comes from masking interrupts for the duration
//! of the access; here it is the exclusivity of a mutable borrow, which the
//! type system grants to exactly one caller at a time.

use vstd::prelude::*;

use crate::blinky_fsm::{
    BlinkyContext, BlinkyEvent, BlinkyFsm, led_consistent, lemma_step_preserves_consistency,
    spec_step_ctx, spec_step_requests, spec_step_state,
};

verus! {

/// The machine and its context, unified into a single addressable unit so
/// that one exclusive access covers both.
#[derive(PartialEq, Eq, Structural, Debug)]
pub struct AppState {
    pub fsm: BlinkyFsm,
    pub ctx: BlinkyContext,
}

/// Human-readable label of a state, for the once-per-tick report line.
pub open spec fn spec_state_label(s: BlinkyFsm) -> Seq<char> {
    match s {
        BlinkyFsm::LedOff => "OFF"@,
        BlinkyFsm::LedOn => "ON"@,
        BlinkyFsm::HighValueWait => "WAIT_HIGH_VALUE"@,
    }
}

/// A published pair that satisfies the machine's consistency invariant
/// still satisfies it after any dispatch. Together with the atomicity
/// stated by [`Coordinator::dispatch`] — the pair afterwards is exactly
/// one complete transition step applied to the pair before — this rules
/// out a caller ever observing an invalid (machine, context) combination,
/// under any interleaving of the two event producers.
pub proof fn lemma_dispatch_preserves_consistency(st: AppState, e: BlinkyEvent)
    requires
        led_consistent(st.fsm, st.ctx),
    ensures
        led_consistent(spec_step_state(st.fsm, st.ctx, e), spec_step_ctx(st.fsm, st.ctx, e)),
{
    lemma_step_preserves_consistency(st.fsm, st.ctx, e);
}

/// The coordinator cell. Unpublished at first; [`Coordinator::publish`]
/// moves the (machine, context) pair in, exactly once, and every later
/// operation works on that pair in place.
pub struct Coordinator {
    cell: Option<AppState>,
}

impl Coordinator {
    /// Whether the pair has been published.
    pub closed spec fn published(&self) -> bool {
        self.cell is Some
    }

    /// The pair the coordinator owns; meaningful only once published.
    pub closed spec fn app_state(&self) -> AppState
        recommends
            self.published(),
    {
        self.cell->Some_0
    }

    /// An empty, unpublished coordinator.
    pub fn new() -> (c: Coordinator)
        ensures
            !c.published(),
    {
        Coordinator { cell: Option::None }
    }

    /// Whether [`Coordinator::publish`] has run.
    pub fn is_published(&self) -> (b: bool)
        ensures
            b == self.published(),
    {
        self.cell.is_some()
    }

    /// Moves the machine and context into the cell. Callable exactly once,
    /// before the asynchronous producer is armed: a second call is a
    /// programming error, ruled out here rather than handled defensively.
    pub fn publish(&mut self, fsm: BlinkyFsm, ctx: BlinkyContext)
        requires
            !old(self).published(),
        ensures
            final(self).published(),
            final(self).app_state() == (AppState { fsm, ctx }),
    {
        self.cell = Option::Some(AppState { fsm, ctx });
    }

    /// Dispatches one event into the machine under exclusive access, or
    /// does nothing if the pair has not been published yet.
    ///
    /// The access is atomic: the pair afterwards is exactly the result of
    /// one complete transition step — processing function, then any entry
    /// action — applied to the pair before, so no caller ever observes a
    /// partially updated pair. The returned flag says whether the step
    /// requested a conversion; the caller performs the request.
    pub fn dispatch(&mut self, evt: &BlinkyEvent) -> (requested: bool)
        ensures
            old(self).published() ==> {
                &&& final(self).published()
                &&& final(self).app_state().fsm == spec_step_state(
                    old(self).app_state().fsm,
                    old(self).app_state().ctx,
                    *evt,
                )
                &&& final(self).app_state().ctx == spec_step_ctx(
                    old(self).app_state().fsm,
                    old(self).app_state().ctx,
                    *evt,
                )
                &&& requested == spec_step_requests(
                    old(self).app_state().fsm,
                    old(self).app_state().ctx,
                    *evt,
                )
            },
            !old(self).published() ==> *final(self) == *old(self) && !requested,
    {
        match &mut self.cell {
            Option::Some(state) => state.fsm.dispatch(&mut state.ctx, evt),
            Option::None => false,
        }
    }

    /// The label of the active state, for reporting; `"Unknown"` while the
    /// pair has not been published.
    pub fn state_label(&self) -> (r: &'static str)
        ensures
            self.published() ==> r@ == spec_state_label(self.app_state().fsm),
            !self.published() ==> r@ == "Unknown"@,
    {
        match &self.cell {
            Option::Some(state) => match state.fsm {
                BlinkyFsm::LedOff => "OFF",
                BlinkyFsm::LedOn => "ON",
                BlinkyFsm::HighValueWait => "WAIT_HIGH_VALUE",
            },
            Option::None => "Unknown",
        }
    }
}

} // verus!

//! Behaviour of the state machine engine: the transition table, entry
//! actions, the permissive no-op policy for unhandled events, and the
//! cooldown/hysteresis exit condition.

use blinky::blinky_fsm::{
    BlinkyContext, BlinkyEvent, BlinkyFsm, Led, COOLDOWN_TICKS, HIGH_THRESHOLD,
};

fn fresh_machine() -> (BlinkyFsm, BlinkyContext) {
    let mut ctx = BlinkyContext {
        led: Led::new(),
        wait_ticks: 0,
        last_adc_value: 0,
    };
    let mut fsm = BlinkyFsm::LedOff;
    let requested = fsm.init(&mut ctx);
    assert!(!requested);
    (fsm, ctx)
}

#[test]
fn init_deasserts_output_and_stays_idle() {
    let (fsm, ctx) = fresh_machine();
    assert_eq!(fsm, BlinkyFsm::LedOff);
    assert!(!ctx.led.is_high);
}

#[test]
fn init_is_idempotent() {
    let (mut fsm, mut ctx) = fresh_machine();
    let after_once = BlinkyContext {
        led: Led {
            is_high: ctx.led.is_high,
        },
        wait_ticks: ctx.wait_ticks,
        last_adc_value: ctx.last_adc_value,
    };
    let requested = fsm.init(&mut ctx);
    assert!(!requested);
    assert_eq!(fsm, BlinkyFsm::LedOff);
    assert_eq!(ctx, after_once);
}

#[test]
fn idle_tick_asserts_output_and_requests_conversion() {
    let (mut fsm, mut ctx) = fresh_machine();
    let requested = fsm.dispatch(&mut ctx, &BlinkyEvent::TimerTick);
    assert!(requested);
    assert_eq!(fsm, BlinkyFsm::LedOn);
    assert!(ctx.led.is_high);
}

#[test]
fn idle_ignores_samples_entirely() {
    let (mut fsm, mut ctx) = fresh_machine();
    for value in [0u16, HIGH_THRESHOLD, HIGH_THRESHOLD + 1, 4095] {
        let requested = fsm.dispatch(&mut ctx, &BlinkyEvent::AdcResult(value));
        assert!(!requested);
        assert_eq!(fsm, BlinkyFsm::LedOff);
        assert!(!ctx.led.is_high);
        assert_eq!(ctx.wait_ticks, 0);
        assert_eq!(ctx.last_adc_value, 0);
    }
}

#[test]
fn second_tick_returns_to_idle_despite_interleaved_low_samples() {
    let (mut fsm, mut ctx) = fresh_machine();
    fsm.dispatch(&mut ctx, &BlinkyEvent::TimerTick);
    assert_eq!(fsm, BlinkyFsm::LedOn);
    for value in [0u16, 35, HIGH_THRESHOLD] {
        let requested = fsm.dispatch(&mut ctx, &BlinkyEvent::AdcResult(value));
        assert!(!requested);
        assert_eq!(fsm, BlinkyFsm::LedOn);
        assert!(ctx.led.is_high);
    }
    let requested = fsm.dispatch(&mut ctx, &BlinkyEvent::TimerTick);
    assert!(!requested);
    assert_eq!(fsm, BlinkyFsm::LedOff);
    assert!(!ctx.led.is_high);
}

#[test]
fn active_low_sample_changes_nothing() {
    let (mut fsm, mut ctx) = fresh_machine();
    fsm.dispatch(&mut ctx, &BlinkyEvent::TimerTick);
    let requested = fsm.dispatch(&mut ctx, &BlinkyEvent::AdcResult(HIGH_THRESHOLD));
    assert!(!requested);
    assert_eq!(fsm, BlinkyFsm::LedOn);
    assert!(ctx.led.is_high);
    assert_eq!(ctx.wait_ticks, 0);
    assert_eq!(ctx.last_adc_value, 0);
}

#[test]
fn active_high_sample_enters_cooldown() {
    let (mut fsm, mut ctx) = fresh_machine();
    fsm.dispatch(&mut ctx, &BlinkyEvent::TimerTick);
    ctx.wait_ticks = 7;
    let requested = fsm.dispatch(&mut ctx, &BlinkyEvent::AdcResult(HIGH_THRESHOLD + 1));
    assert!(!requested);
    assert_eq!(fsm, BlinkyFsm::HighValueWait);
    assert_eq!(ctx.wait_ticks, 0);
    assert!(!ctx.led.is_high);
}

fn cooldown_machine(wait_ticks: u32, last_adc_value: u16) -> (BlinkyFsm, BlinkyContext) {
    let ctx = BlinkyContext {
        led: Led::new(),
        wait_ticks,
        last_adc_value,
    };
    (BlinkyFsm::HighValueWait, ctx)
}

#[test]
fn cooldown_tick_requests_conversion_and_counts() {
    let (mut fsm, mut ctx) = cooldown_machine(0, 100);
    let requested = fsm.dispatch(&mut ctx, &BlinkyEvent::TimerTick);
    assert!(requested);
    assert_eq!(fsm, BlinkyFsm::HighValueWait);
    assert_eq!(ctx.wait_ticks, 1);
}

#[test]
fn cooldown_exits_only_with_both_conditions() {
    // Counter short of the threshold, sample safe: stays.
    let (mut fsm, mut ctx) = cooldown_machine(COOLDOWN_TICKS - 2, 50);
    fsm.dispatch(&mut ctx, &BlinkyEvent::TimerTick);
    assert_eq!(fsm, BlinkyFsm::HighValueWait);

    // Counter reaches the threshold on this tick, sample safe: exits.
    let (mut fsm, mut ctx) = cooldown_machine(COOLDOWN_TICKS - 1, 50);
    fsm.dispatch(&mut ctx, &BlinkyEvent::TimerTick);
    assert_eq!(fsm, BlinkyFsm::LedOff);
    assert!(!ctx.led.is_high);

    // Counter far beyond the threshold, sample still high: stays, however
    // many ticks have elapsed.
    let (mut fsm, mut ctx) = cooldown_machine(1000, HIGH_THRESHOLD + 1);
    fsm.dispatch(&mut ctx, &BlinkyEvent::TimerTick);
    assert_eq!(fsm, BlinkyFsm::HighValueWait);

    // Counter reaches the threshold, sample just over: stays.
    let (mut fsm, mut ctx) = cooldown_machine(COOLDOWN_TICKS - 1, HIGH_THRESHOLD + 1);
    fsm.dispatch(&mut ctx, &BlinkyEvent::TimerTick);
    assert_eq!(fsm, BlinkyFsm::HighValueWait);
}

#[test]
fn cooldown_sample_is_recorded_without_leaving() {
    let (mut fsm, mut ctx) = cooldown_machine(3, 100);
    let requested = fsm.dispatch(&mut ctx, &BlinkyEvent::AdcResult(42));
    assert!(!requested);
    assert_eq!(fsm, BlinkyFsm::HighValueWait);
    assert_eq!(ctx.last_adc_value, 42);
    assert_eq!(ctx.wait_ticks, 3);
}

#[test]
fn cooldown_counter_saturates_instead_of_wrapping() {
    let (mut fsm, mut ctx) = cooldown_machine(u32::MAX, HIGH_THRESHOLD + 1);
    fsm.dispatch(&mut ctx, &BlinkyEvent::TimerTick);
    assert_eq!(fsm, BlinkyFsm::HighValueWait);
    assert_eq!(ctx.wait_ticks, u32::MAX);
}

#[test]
fn threshold_cooldown_scenario() {
    // HIGH_THRESHOLD = 70, COOLDOWN_TICKS = 10.
    assert_eq!(HIGH_THRESHOLD, 70);
    assert_eq!(COOLDOWN_TICKS, 10);
    let (mut fsm, mut ctx) = fresh_machine();

    // Idle, tick: active.
    fsm.dispatch(&mut ctx, &BlinkyEvent::TimerTick);
    assert_eq!(fsm, BlinkyFsm::LedOn);

    // Sample of 80: cooldown, counter reset.
    fsm.dispatch(&mut ctx, &BlinkyEvent::AdcResult(80));
    assert_eq!(fsm, BlinkyFsm::HighValueWait);
    assert_eq!(ctx.wait_ticks, 0);

    // Nine ticks, each followed by a sample of 75: counter reaches 9 and
    // the last sample stays above the threshold, so the machine waits.
    for round in 1..=9u32 {
        fsm.dispatch(&mut ctx, &BlinkyEvent::TimerTick);
        assert_eq!(fsm, BlinkyFsm::HighValueWait);
        assert_eq!(ctx.wait_ticks, round);
        fsm.dispatch(&mut ctx, &BlinkyEvent::AdcResult(75));
        assert_eq!(fsm, BlinkyFsm::HighValueWait);
    }

    // Tenth tick: counter reaches 10, but the last sample (75) is still
    // above the threshold, so the machine keeps waiting.
    fsm.dispatch(&mut ctx, &BlinkyEvent::TimerTick);
    assert_eq!(fsm, BlinkyFsm::HighValueWait);
    assert_eq!(ctx.wait_ticks, 10);

    // A sample of 50 brings the last known value back under the threshold.
    fsm.dispatch(&mut ctx, &BlinkyEvent::AdcResult(50));
    assert_eq!(fsm, BlinkyFsm::HighValueWait);
    assert_eq!(ctx.last_adc_value, 50);

    // The next tick finds both conditions met and returns to idle.
    fsm.dispatch(&mut ctx, &BlinkyEvent::TimerTick);
    assert_eq!(fsm, BlinkyFsm::LedOff);
    assert!(!ctx.led.is_high);
}

#[test]
fn fuzzed_interleavings_never_expose_inconsistent_pairs() {
    // Drive the machine with a long pseudo-random interleaving of the two
    // producers' events and check, after every single dispatch, that the
    // pair stays consistent: the output is asserted exactly in the active
    // state, and the cooldown counter is zero whenever cooldown was just
    // entered.
    let (mut fsm, mut ctx) = fresh_machine();
    let mut seed: u64 = 0x2545F4914F6CDD1D;
    for _ in 0..10_000 {
        seed = seed
            .wrapping_mul(6364136223846793005)
            .wrapping_add(1442695040888963407);
        let previous = fsm;
        let event = if seed & 1 == 0 {
            BlinkyEvent::TimerTick
        } else {
            BlinkyEvent::AdcResult(((seed >> 16) % 4096) as u16)
        };
        fsm.dispatch(&mut ctx, &event);
        assert_eq!(ctx.led.is_high, fsm == BlinkyFsm::LedOn);
        if fsm == BlinkyFsm::HighValueWait && previous != BlinkyFsm::HighValueWait {
            assert_eq!(ctx.wait_ticks, 0);
        }
    }
}

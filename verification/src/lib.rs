//! Core of a bare-metal control loop: an event-driven finite-state machine
//! that reacts to periodic timer ticks and asynchronously produced analog
//! samples, drives an indicator output, and enforces a cooldown/hysteresis
//! policy around a high-value threshold.
//!
//! The crate is organised leaf-first:
//!
//! * [`blinky_fsm`] — the state machine itself: states, events, the mutable
//!   context carried across transitions, and the dispatch engine with its
//!   transition table and entry actions.
//! * [`coordinator`] — the shared-state coordinator: the single cell that
//!   owns the (machine, context) pair and hands out exclusive, atomic access
//!   to the two event producers.
//! * [`dispatcher`] — the periodic dispatcher: wraparound-safe elapsed-time
//!   detection on a monotonic counter, injecting a tick event at a fixed
//!   cadence.
//!
//! Everything hardware-specific (peripheral bring-up, the ADC register
//! driver, the serial transport) is an external collaborator: it hands this
//! core plain values (the current counter reading, a completed sample) and
//! carries out the actions the core decides on (driving the output pin,
//! requesting one conversion, writing a report line).

pub mod blinky_fsm;
pub mod coordinator;
pub mod dispatcher;

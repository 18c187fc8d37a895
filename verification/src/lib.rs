//! Discrete-event combat engine for an idle-RPG battle simulator.
//!
//! The engine replays, tick by tick, a deterministic-but-randomized battle
//! loop: an event scheduler ordered by `(time, priority)`, per-archetype
//! attack/defense resolution with chance-gated modifiers, a boss sub-state
//! machine (rage escalation and timed hardening), a run controller, and a
//! Monte-Carlo aggregation layer.
//!
//! All quantities are fixed-point integers in micro-units (one unit equals
//! `1_000_000`): health, power and loot are micro-amounts, chances and
//! multipliers are micro-fractions, and event times are micro-seconds.
//! Event times are rounded to whole milli-seconds when an event is
//! rescheduled, which keeps timestamp comparisons reproducible.

use vstd::prelude::*;

pub mod fixed;
pub mod rng;
pub mod event;
pub mod stats;
pub mod hunter;
pub mod enemy;
pub mod combat;
pub mod sim;

verus! {

} // verus!

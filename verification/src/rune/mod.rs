//! Deterministic Power Rune rules, independent of physics and rendering.
//!
//! Five correct illuminated-module hits activate a rune, each within 2.5 s;
//! hitting another module or exceeding that interval resets activation. A rune
//! is created in its *training* configuration: it starts Activating, picks the
//! lowest unhit blade instead of a random one, and restarts one second after
//! completion. A referee switches it to the match behaviour: it then rests
//! Inactive (dark, still rotating) until triggered, chooses targets from a
//! seeded generator, and holds Activated until the referee takes the buff away.
pub mod big;
pub mod laws;
pub mod runner;
pub mod small;
pub mod stream;
pub mod wheel;

use crate::binary::Pose;
use vstd::prelude::*;
use wheel::BigRuneMotion;

verus! {

/// Blades on the rune wheel; five targets must be hit.
pub const BLADE_COUNT: usize = 5;

/// An illuminated module must be hit within 2.5 s. A hit exactly at the end of
/// the window is valid; failure first occurs one nanosecond later.
pub const RESET_PERIOD_NS: u64 = 2_500_000_001;

/// Training policy: restart this long after completion.
pub const ACTIVATED_HOLD_NS: u64 = 1_000_000_000;

/// Rune activation state.
#[derive(Clone, Copy, Debug, PartialEq, Eq, Structural)]
pub enum RuneState {
    /// Dark and rotating; hits are ignored.
    Inactive,
    /// Targets are lit in turn and the rune accepts hits.
    Activating,
    /// Every blade is lit and the buff is held; further hits are ignored.
    Activated,
}

/// Which Power Rune mode a rune runs.
#[derive(Clone, Copy, Debug, PartialEq, Eq, Structural)]
pub enum RuneKind {
    /// Constant speed, one lit target at a time.
    Small,
    /// Sinusoidal speed during activation, five pairs of lit targets.
    Big,
}

/// What a rune did with a hit, including the hits it refused.
#[derive(Clone, Copy, Debug, PartialEq, Eq, Structural)]
pub enum HitOutcome {
    /// A Big Rune target was hit: the first of the pair, or the optional bonus
    /// when `bonus` is set and it landed within one second of the first.
    GroupHit {
        /// Blade that was struck.
        blade: u32,
        /// Groups completed before this hit.
        group: u32,
        /// The pair's first target was already hit within the last second.
        bonus: bool,
    },
    /// A Small Rune target was hit; `next_blade` is now lit.
    Accepted {
        /// Blade that was struck.
        blade: u32,
        /// Blade the rune now demands.
        next_blade: u32,
    },
    /// The hit completed the rune, which now holds Activated.
    Activated {
        /// Blade that completed the sequence.
        blade: u32,
    },
    /// Resets progress, as required for hitting a non-illuminated module.
    WrongBlade {
        /// Blade that was struck.
        blade: u32,
        /// Blade that was lit instead.
        expected: u32,
    },
    /// No active target: the rune is Inactive or already Activated.
    Inactive,
}

/// Reasons a rune call is refused. A refused call leaves the rune unchanged.
#[derive(Clone, Copy, Debug, PartialEq, Eq, Structural)]
pub enum RuneError {
    /// The hub pose is not finite, its quaternion is zero, or the orbit has no
    /// radius.
    Pose,
    /// The requested time is before the rune's current time.
    TimeReversal,
    /// The blade index is not below [`BLADE_COUNT`].
    Blade,
    /// Big Rune amplitude or frequency is outside the rule bounds, or its
    /// motion started in the future.
    Motion,
}

/// One rune frame at an authoritative tick: which blades are lit, how far
/// activation got, where the state machine stands and how the wheel moves.
#[derive(Clone, Copy, Debug, PartialEq, Eq)]
pub struct RuneSnapshot {
    /// The speed function and the time it started, while one is in force.
    pub motion: Option<(BigRuneMotion, u64)>,
    /// When the wheel took up its present motion.
    pub epoch_ns: u64,
    /// Which mode the rune is in.
    pub kind: RuneKind,
    /// Which of the five blades are lit as targets right now.
    pub active_blades: [bool; 5],
    /// Blades hit on a Small Rune, groups completed on a Big Rune.
    pub completed_groups: u32,
    /// Field time this frame was taken at.
    pub time_ns: u64,
    /// Face centre pose; local +x points into the wheel, away from the shooter.
    pub hub_pose: Pose,
    /// Orbit radius of the five targets, in micrometres.
    pub target_radius_um: u32,
    /// Whether the rune is Inactive, Activating or Activated.
    pub state: RuneState,
    /// The lit blade that is demanded first, when one is lit.
    pub active_blade: Option<u32>,
    /// Blades already hit in the current attempt.
    pub activated: [bool; 5],
    /// When the current state began.
    pub state_since_ns: u64,
}

} // verus!

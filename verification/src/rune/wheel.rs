//! How a rune wheel turns.
//!
//! A wheel turns at a constant speed, or by a sinusoidal speed function while
//! a Big Rune activates. The angle itself is a real number and is kept by
//! whoever draws the wheel: the rules say which motion held from when to when.
use super::stream::Rng;
use super::RuneError;
use crate::binary::Pose;
use vstd::prelude::*;
use vstd::slice::slice_to_vec;

verus! {

/// Nominal 700 mm orbit of the five targets, in micrometres.
pub const TARGET_RADIUS_UM: u32 = 700_000;

/// Measured CAD orbit, in micrometres; rule timing is unchanged.
pub const CAD_TARGET_RADIUS_UM: u32 = 698_500;

/// The pattern of 0.780, the least amplitude in rad/s.
pub const AMPLITUDE_MIN: u64 = 0x3fe8_f5c2_8f5c_28f6;

/// The pattern of 1.045, the largest amplitude in rad/s.
pub const AMPLITUDE_MAX: u64 = 0x3ff0_b851_eb85_1eb8;

/// The pattern of 1.884, the least frequency in rad/s.
pub const FREQUENCY_MIN: u64 = 0x3ffe_24dd_2f1a_9fbe;

/// The pattern of 2.000, the largest frequency in rad/s.
pub const FREQUENCY_MAX: u64 = 0x4000_0000_0000_0000;

/// The pattern of 0.9, the training amplitude in rad/s.
pub const AMPLITUDE_TRAINING: u64 = 0x3fec_cccc_cccc_cccd;

/// The pattern of 1.94, the training frequency in rad/s.
pub const FREQUENCY_TRAINING: u64 = 0x3fff_0a3d_70a3_d70a;

/// Draws of a speed parameter: the fraction of its range, out of 2^53.
pub const DRAW_RANGE: u64 = 0x0020_0000_0000_0000;

/// The bits of a stream number that a draw leaves out.
pub const DRAW_STEP: u64 = 2048;

/// The parameters of a Big Rune's speed function, within the rule bounds.
#[derive(Clone, Copy, Debug, PartialEq, Eq, Structural)]
pub enum BigRuneMotion {
    /// Caller-selected parameters in rad/s, as binary64 patterns.
    Chosen {
        /// Amplitude of the sinusoid.
        amplitude_bits: u64,
        /// Frequency of the sinusoid.
        frequency_bits: u64,
    },
    /// Parameters drawn from the rule ranges by a seeded stream, each as the
    /// fraction of its range above the least value, out of [`DRAW_RANGE`].
    Drawn {
        /// Fraction of the amplitude range.
        amplitude: u64,
        /// Fraction of the frequency range.
        frequency: u64,
    },
}

impl BigRuneMotion {
    /// The parameters are within the rule bounds. Patterns of positive numbers
    /// are ordered as the numbers are, and those of other numbers lie above.
    pub open spec fn wf(self) -> bool {
        match self {
            BigRuneMotion::Chosen { amplitude_bits, frequency_bits } => {
                &&& AMPLITUDE_MIN <= amplitude_bits <= AMPLITUDE_MAX
                &&& FREQUENCY_MIN <= frequency_bits <= FREQUENCY_MAX
            },
            BigRuneMotion::Drawn { amplitude, frequency } => {
                amplitude < DRAW_RANGE && frequency < DRAW_RANGE
            },
        }
    }

    /// The training parameters: amplitude 0.9 and frequency 1.94 rad/s.
    pub open spec fn training() -> BigRuneMotion {
        BigRuneMotion::Chosen {
            amplitude_bits: AMPLITUDE_TRAINING,
            frequency_bits: FREQUENCY_TRAINING,
        }
    }

    /// The parameters that a stream draws next: the upper 53 bits of two
    /// numbers, amplitude first.
    pub open spec fn from_stream(rng: Rng) -> BigRuneMotion {
        BigRuneMotion::Drawn {
            amplitude: (rng.drawn() as int / DRAW_STEP as int) as u64,
            frequency: (rng.stepped().drawn() as int / DRAW_STEP as int) as u64,
        }
    }

    /// Checked sinusoid parameters: amplitude in 0.780..=1.045 and frequency
    /// in 1.884..=2.000 rad/s, as binary64 patterns. Anything else is refused.
    pub fn new(amplitude_bits: u64, frequency_bits: u64) -> (r: Result<BigRuneMotion, RuneError>)
        ensures
            r == (if AMPLITUDE_MIN <= amplitude_bits <= AMPLITUDE_MAX && FREQUENCY_MIN
                <= frequency_bits <= FREQUENCY_MAX {
                Ok(BigRuneMotion::Chosen { amplitude_bits, frequency_bits })
            } else {
                Err(RuneError::Motion)
            }),
            r is Ok ==> r->Ok_0.wf(),
    {
        if amplitude_bits < AMPLITUDE_MIN || amplitude_bits > AMPLITUDE_MAX || frequency_bits
            < FREQUENCY_MIN || frequency_bits > FREQUENCY_MAX {
            return Err(RuneError::Motion);
        }
        Ok(BigRuneMotion::Chosen { amplitude_bits, frequency_bits })
    }

    /// Parameters drawn from the rule ranges by a seeded stream.
    pub fn drawn(rng: &mut Rng) -> (r: BigRuneMotion)
        ensures
            r == BigRuneMotion::from_stream(*old(rng)),
            r.wf(),
            *final(rng) == old(rng).stepped().stepped(),
    {
        let amplitude: u64 = rng.next() / DRAW_STEP;
        let frequency: u64 = rng.next() / DRAW_STEP;
        BigRuneMotion::Drawn { amplitude, frequency }
    }

    /// Whether the parameters lie within the rule bounds.
    pub fn is_valid(&self) -> (r: bool)
        ensures
            r == self.wf(),
    {
        match *self {
            BigRuneMotion::Chosen { amplitude_bits, frequency_bits } => AMPLITUDE_MIN
                <= amplitude_bits && amplitude_bits <= AMPLITUDE_MAX && FREQUENCY_MIN
                <= frequency_bits && frequency_bits <= FREQUENCY_MAX,
            BigRuneMotion::Drawn { amplitude, frequency } => amplitude < DRAW_RANGE && frequency
                < DRAW_RANGE,
        }
    }
}

impl Default for BigRuneMotion {
    /// The training parameters.
    fn default() -> (r: BigRuneMotion)
        ensures
            r == BigRuneMotion::training(),
            r.wf(),
    {
        BigRuneMotion::Chosen {
            amplitude_bits: AMPLITUDE_TRAINING,
            frequency_bits: FREQUENCY_TRAINING,
        }
    }
}

/// One stretch of a wheel's rotation under one motion.
#[derive(Clone, Copy, Debug, PartialEq, Eq, Structural)]
pub struct Turn {
    /// When the motion began.
    pub from_ns: u64,
    /// When it ended.
    pub to_ns: u64,
    /// The speed function, or `None` for the constant speed.
    pub motion: Option<BigRuneMotion>,
}

/// Where a rune hangs and how it has turned.
#[derive(Clone, Debug, PartialEq, Eq)]
pub struct Wheel {
    /// Face centre pose; local +x points into the wheel, away from the shooter.
    pub hub: Pose,
    /// Orbit radius of the five targets, in micrometres.
    pub target_radius_um: u32,
    /// Stretches of rotation that ended and were not yet taken.
    pub turns: Vec<Turn>,
}

impl Wheel {
    /// A copy of the wheel.
    pub fn copied(&self) -> (r: Wheel)
        ensures
            r.hub == self.hub,
            r.target_radius_um == self.target_radius_um,
            r.turns@ == self.turns@,
    {
        Wheel {
            hub: self.hub,
            target_radius_um: self.target_radius_um,
            turns: slice_to_vec(self.turns.as_slice()),
        }
    }

    /// The hub is finite and the targets have an orbit.
    pub open spec fn wf(self) -> bool {
        self.hub.finite() && self.target_radius_um > 0
    }

    /// Whether the hub is finite and the targets have an orbit.
    pub fn is_consistent(&self) -> (r: bool)
        ensures
            r == self.wf(),
    {
        self.hub.is_finite() && self.target_radius_um > 0
    }

    /// The same hub and orbit, with `more` stretches of rotation behind it.
    pub open spec fn turned(self, later: Wheel, more: Seq<Turn>) -> bool {
        &&& later.hub == self.hub
        &&& later.target_radius_um == self.target_radius_um
        &&& later.turns@ == self.turns@ + more
    }

    /// A wheel at `hub` that has not turned, on the measured orbit when `cad`
    /// is set and on the nominal one otherwise.
    pub open spec fn is_new(self, hub: Pose, cad: bool) -> bool {
        &&& self.hub == hub
        &&& self.target_radius_um == (if cad {
            CAD_TARGET_RADIUS_UM
        } else {
            TARGET_RADIUS_UM
        })
        &&& self.turns@ == Seq::<Turn>::empty()
    }

    /// A wheel that has not turned, on the nominal orbit or the measured one.
    /// `unit_rotation` says whether the rotation could be normalised. A hub
    /// that is not finite or has no rotation is refused.
    pub fn new(hub: Pose, unit_rotation: bool, cad: bool) -> (r: Result<Wheel, RuneError>)
        ensures
            r is Ok <==> hub.finite() && unit_rotation,
            r is Err ==> r->Err_0 == RuneError::Pose,
            r is Ok ==> r->Ok_0.is_new(hub, cad),
    {
        if !hub.is_finite() || !unit_rotation {
            return Err(RuneError::Pose);
        }
        Ok(
            Wheel {
                hub,
                target_radius_um: if cad {
                    CAD_TARGET_RADIUS_UM
                } else {
                    TARGET_RADIUS_UM
                },
                turns: Vec::new(),
            },
        )
    }

    /// Hand out the stretches of rotation that ended since the last call.
    pub fn take_turns(&mut self) -> (r: Vec<Turn>)
        ensures
            r@ == old(self).turns@,
            final(self).turns@ == Seq::<Turn>::empty(),
            final(self).hub == old(self).hub,
            final(self).target_radius_um == old(self).target_radius_um,
    {
        let mut out: Vec<Turn> = Vec::new();
        out.append(&mut self.turns);
        proof {
            assert(out@ =~= old(self).turns@);
        }
        out
    }
}

} // verus!

//! The hit report of a contact, and what a centre strike is worth.
use crate::binary::{abs_at_most, at_most, is_abs_at_most};
use crate::rune::HitOutcome;
use crate::target::{ArmorTarget, Caliber};
use vstd::prelude::*;

verus! {

/// The pattern of 0.005: half the side of the centre square in metres.
pub const CENTRE_HALF: u64 = 0x3f74_7ae1_47ae_147b;

/// Contacts stay in the hit list this long.
pub const HIT_MEMORY_NS: u64 = 1_000_000_000;

/// Why an armor module did not register a contact.
#[derive(Clone, Copy, Debug, PartialEq, Eq, Structural)]
pub enum Rejection {
    /// Normal speed at or below the threshold.
    NormalSpeed,
    /// Within the module's minimum detection interval of its previous strike.
    DetectionInterval,
    /// A rune ring the referee has switched off after earlier Big Rune
    /// activations.
    DisabledRing,
    /// Contact on the housing, edge or back rather than the scoring face.
    OutsideTarget,
    /// 42 mm projectiles are not detected by the Power Rune.
    Caliber,
}

/// One armor contact the field evaluated at a tick, whether the module
/// registered it or not. Detected hits carry damage; rejected ones name the
/// condition that failed.
#[derive(Clone, Copy, Debug, PartialEq, Eq)]
pub struct ArmorHit {
    /// Field time the contact was scored at.
    pub time_ns: u64,
    /// Identity of the ball.
    pub projectile: u64,
    /// The chassis that fired, when a pilot did.
    pub shooter: Option<u32>,
    /// Projectile caliber that made the contact.
    pub caliber: Caliber,
    /// Which armor module was touched.
    pub target: ArmorTarget,
    /// Contact point in metres.
    pub position_m: [u64; 3],
    /// Signed width and height offset from the scoring face centre.
    pub local_offset_m: [u64; 2],
    /// Closing speed along the plate's outward normal.
    pub normal_speed_m_s: u64,
    /// The module registered the strike; `rejection` explains a `false`.
    pub detected: bool,
    /// Why the module ignored the contact; `None` for a detected strike.
    pub rejection: Option<Rejection>,
    /// Rule outcome for detected rune strikes.
    pub rune_outcome: Option<HitOutcome>,
    /// HP removed, including the centre bonus.
    pub damage: u32,
}

/// Whether an offset lies in the 10 mm centre square, edges included.
pub open spec fn central(offset_m: [u64; 2]) -> bool {
    abs_at_most(offset_m[0], CENTRE_HALF) && abs_at_most(offset_m[1], CENTRE_HALF)
}

/// Whether an offset lies in the 10 mm centre square, edges included.
pub fn in_centre_square(offset_m: [u64; 2]) -> (r: bool)
    ensures
        r == central(offset_m),
{
    is_abs_at_most(offset_m[0], CENTRE_HALF) && is_abs_at_most(offset_m[1], CENTRE_HALF)
}

/// Half as much again, an odd amount rounded up.
pub open spec fn with_bonus(amount: u32) -> int {
    (3 * amount + 1) / 2
}

/// The 150 % damage of a centre strike; an odd amount rounds up.
pub fn centre_bonus(amount: u32) -> (r: u32)
    requires
        with_bonus(amount) <= u32::MAX,
    ensures
        r == with_bonus(amount),
{
    ((3 * amount as u64 + 1) / 2) as u32
}

/// What a strike removes from an outpost: strikes inside the centre square
/// earn a 150 % attack buff.
pub fn outpost_damage(caliber: Caliber, offset_m: [u64; 2]) -> (r: u32)
    ensures
        r == (if central(offset_m) {
            with_bonus(caliber.outpost_hp())
        } else {
            caliber.outpost_hp() as int
        }),
{
    let amount: u32 = caliber.outpost_damage();
    if in_centre_square(offset_m) {
        centre_bonus(amount)
    } else {
        amount
    }
}

/// A centre strike is worth half as much again; a half point counts as a whole.
pub proof fn a_centre_strike_is_worth_half_as_much_again(amount: u32)
    ensures
        0 <= 2 * with_bonus(amount) - 3 * amount <= 1,
{
}

/// The centre square reaches 5 mm to each side, edges included: both offsets
/// lie between the number 0.005 and its negative.
pub proof fn the_centre_square_is_ten_millimetres_wide(offset_m: [u64; 2])
    ensures
        central(offset_m) <==> {
            &&& at_most(offset_m[0], 0x3f74_7ae1_47ae_147b)
            &&& at_most(0xbf74_7ae1_47ae_147b, offset_m[0])
            &&& at_most(offset_m[1], 0x3f74_7ae1_47ae_147b)
            &&& at_most(0xbf74_7ae1_47ae_147b, offset_m[1])
        },
{
}

} // verus!

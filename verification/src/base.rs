//! Live base armor: HP, shield and what a strike removes.
use crate::projectile::{central, centre_bonus, in_centre_square, with_bonus};
use crate::binary::{abs_at_most, at_most, finite, is_abs_at_most, is_finite, Pose};
use crate::target::{Caliber, Team};
use vstd::prelude::*;

verus! {

/// Base HP at the start of a match.
pub const INITIAL_HP: u32 = 5000;

/// The separate virtual shield, spent before HP.
pub const INITIAL_SHIELD_HP: u32 = 150;

/// The plate worth less to a 17 mm round: the upper front.
pub const UPPER_FRONT: u32 = 3;

/// The dart detector, which takes projectiles without a centre bonus.
pub const DART_PLATE: u32 = 6;

/// The pattern of 1.0: the farthest a dart rail stop may be, in metres.
pub const DART_REACH: u64 = 0x3ff0_0000_0000_0000;

/// Fitted scoring geometry for one live base: the seven plate poses and the
/// dart rail's two stops.
#[derive(Clone, Copy, Debug, PartialEq, Eq)]
pub struct BaseConfig {
    /// Team defending this base.
    pub team: Team,
    /// Three lower plates, upper front, two other upper plates, then the dart
    /// detector.
    pub plates: [Pose; 7],
    /// Translations at the dart rail's two stops, relative to its rest pose.
    pub dart_offsets_m: [[u64; 3]; 2],
}

impl BaseConfig {
    /// Every plate is finite and the dart travel stays within 1 m.
    pub open spec fn valid(&self) -> bool {
        &&& forall|i: int| 0 <= i < 7 ==> (#[trigger] self.plates[i]).finite()
        &&& forall|i: int, k: int|
            0 <= i < 2 && 0 <= k < 3 ==> {
                let offset = #[trigger] self.dart_offsets_m[i][k];
                finite(offset) && abs_at_most(offset, DART_REACH)
            }
    }

    /// Reject non-finite plates, a rotation that is not unit length, or dart
    /// travel outside 1 m. `unit_rotations` says whether every plate's
    /// rotation has unit length.
    pub fn validate(&self, unit_rotations: bool) -> (r: Result<(), &'static str>)
        ensures
            r == (if unit_rotations && self.valid() {
                Ok(())
            } else {
                Err("invalid base scoring pose or dart travel")
            }),
    {
        let mut sound = unit_rotations;
        let mut i: usize = 0;
        while i < 7
            invariant
                i <= 7,
                sound == (unit_rotations && forall|j: int|
                    0 <= j < i ==> (#[trigger] self.plates[j]).finite()),
            decreases 7 - i,
        {
            let plate = self.plates[i].is_finite();
            sound = sound && plate;
            i += 1;
        }
        let ghost plates = sound;
        let mut stop: usize = 0;
        while stop < 2
            invariant
                stop <= 2,
                sound == (plates && forall|j: int, k: int|
                    0 <= j < stop && 0 <= k < 3 ==> {
                        let offset = #[trigger] self.dart_offsets_m[j][k];
                        finite(offset) && abs_at_most(offset, DART_REACH)
                    }),
            decreases 2 - stop,
        {
            let row: [u64; 3] = self.dart_offsets_m[stop];
            let x: u64 = row[0];
            let y: u64 = row[1];
            let z: u64 = row[2];
            let near = is_finite(x) && is_abs_at_most(x, DART_REACH) && is_finite(y)
                && is_abs_at_most(y, DART_REACH) && is_finite(z) && is_abs_at_most(z, DART_REACH);
            sound = sound && near;
            stop += 1;
        }
        if sound {
            Ok(())
        } else {
            Err("invalid base scoring pose or dart travel")
        }
    }
}

/// One base's fitted geometry with its current HP and shield.
#[derive(Clone, Copy, Debug, PartialEq, Eq)]
pub struct BaseSnapshot {
    /// Plates and dart travel this state was fitted with.
    pub config: BaseConfig,
    /// Remaining HP; zero disables every plate and ends a running match.
    pub hp: u32,
    /// Remaining virtual shield, spent before HP.
    pub shield_hp: u32,
}

/// The lesser of two amounts.
pub open spec fn lesser(a: int, b: int) -> int {
    if a < b {
        a
    } else {
        b
    }
}

impl BaseSnapshot {
    /// A base at full HP and shield.
    pub fn new(config: BaseConfig) -> (r: BaseSnapshot)
        ensures
            r == (BaseSnapshot { config, hp: INITIAL_HP, shield_hp: INITIAL_SHIELD_HP }),
            r.hp == 5000,
            r.shield_hp == 150,
    {
        BaseSnapshot { config, hp: INITIAL_HP, shield_hp: INITIAL_SHIELD_HP }
    }

    /// Refill HP and shield for a new match or a reset.
    pub fn reset(&mut self)
        ensures
            *final(self) == (BaseSnapshot {
                hp: INITIAL_HP,
                shield_hp: INITIAL_SHIELD_HP,
                ..*old(self)
            }),
            final(self).hp == 5000,
            final(self).shield_hp == 150,
    {
        self.hp = INITIAL_HP;
        self.shield_hp = INITIAL_SHIELD_HP;
    }

    /// Spend the shield, then HP; returns the total absorbed. A destroyed base
    /// absorbs nothing.
    pub fn damage(&mut self, amount: u32) -> (r: u32)
        ensures
            final(self).config == old(self).config,
            r == (if old(self).hp == 0 {
                0
            } else {
                lesser(amount as int, old(self).hp + old(self).shield_hp)
            }),
            final(self).hp + final(self).shield_hp == old(self).hp + old(self).shield_hp - r,
            old(self).hp > 0 ==> final(self).shield_hp == old(self).shield_hp - lesser(
                amount as int,
                old(self).shield_hp as int,
            ),
            old(self).hp == 0 ==> *final(self) == *old(self),
            final(self).hp < old(self).hp ==> final(self).shield_hp == 0,
            final(self).hp > 0 && old(self).hp > 0 ==> r == amount,
            r <= amount,
    {
        if self.hp == 0 {
            return 0;
        }
        let shield: u32 = if amount < self.shield_hp {
            amount
        } else {
            self.shield_hp
        };
        self.shield_hp = self.shield_hp - shield;
        let rest: u32 = amount - shield;
        let hp: u32 = if rest < self.hp {
            rest
        } else {
            self.hp
        };
        self.hp = self.hp - hp;
        shield + hp
    }
}

/// What a strike on `plate` is worth outside the centre square: 17 mm does 5
/// HP to the upper front and 20 to the others; 42 mm does 200.
pub open spec fn plain_damage(caliber: Caliber, plate: u32) -> u32 {
    match caliber {
        Caliber::Mm17 => if plate == UPPER_FRONT {
            5
        } else {
            20
        },
        Caliber::Mm42 => 200,
    }
}

/// What a strike on `plate` is worth. The centre square has 150 % damage on
/// every plate but the dart detector.
pub fn damage(caliber: Caliber, plate: u32, offset_m: [u64; 2]) -> (r: u32)
    ensures
        r == (if plate != DART_PLATE && central(offset_m) {
            with_bonus(plain_damage(caliber, plate))
        } else {
            plain_damage(caliber, plate) as int
        }),
{
    let amount: u32 = match caliber {
        Caliber::Mm17 => if plate == UPPER_FRONT {
            5
        } else {
            20
        },
        Caliber::Mm42 => 200,
    };
    if plate != DART_PLATE && in_centre_square(offset_m) {
        centre_bonus(amount)
    } else {
        amount
    }
}

/// A 42 mm strike does 200 to every plate; a 17 mm strike does 20, but only 5
/// to the upper front, which is the fourth plate.
pub proof fn the_upper_front_is_worth_less(caliber: Caliber, plate: u32)
    ensures
        caliber == Caliber::Mm42 ==> plain_damage(caliber, plate) == 200,
        caliber == Caliber::Mm17 && plate != 3 ==> plain_damage(caliber, plate) == 20,
        caliber == Caliber::Mm17 && plate == 3 ==> plain_damage(caliber, plate) == 5,
{
}

/// A layout counts as valid only where the dart rail's stops lie within a metre
/// of its rest pose on every axis and everything is finite.
pub proof fn dart_travel_stays_within_a_metre(config: BaseConfig, stop: int, axis: int)
    requires
        config.valid(),
        0 <= stop < 2,
        0 <= axis < 3,
    ensures
        finite(config.dart_offsets_m[stop][axis]),
        at_most(config.dart_offsets_m[stop][axis], 0x3ff0_0000_0000_0000),
        at_most(0xbff0_0000_0000_0000, config.dart_offsets_m[stop][axis]),
        forall|i: int| 0 <= i < 7 ==> (#[trigger] config.plates[i]).finite(),
{
    let offset = config.dart_offsets_m[stop][axis];
    assert(finite(offset) && abs_at_most(offset, DART_REACH));
}

} // verus!

//! Teams, calibers and the armor modules a projectile can touch.
use vstd::prelude::*;

verus! {

/// The two teams of a match.
#[derive(Clone, Copy, Debug, PartialEq, Eq, Structural)]
pub enum Team {
    /// Index 0.
    Red,
    /// Index 1.
    Blue,
}

impl Team {
    /// The opposing team.
    pub open spec fn opponent(self) -> Team {
        match self {
            Team::Red => Team::Blue,
            Team::Blue => Team::Red,
        }
    }

    /// The opposing team.
    pub fn other(self) -> (r: Team)
        ensures
            r == self.opponent(),
    {
        match self {
            Team::Red => Team::Blue,
            Team::Blue => Team::Red,
        }
    }

    /// Position of the team in lists of both: red, then blue.
    pub open spec fn place(self) -> int {
        match self {
            Team::Red => 0,
            Team::Blue => 1,
        }
    }

    /// Position of the team in lists of both: red, then blue.
    pub fn index(self) -> (r: usize)
        ensures
            r == self.place(),
    {
        match self {
            Team::Red => 0,
            Team::Blue => 1,
        }
    }
}

/// Projectile calibers.
#[derive(Clone, Copy, Debug, PartialEq, Eq, Structural)]
pub enum Caliber {
    /// The 17 mm projectile of Infantry, Sentry and Drone.
    Mm17,
    /// The 42 mm projectile of the Hero.
    Mm42,
}

/// The pattern of 12.0, a speed in m/s.
pub const SPEED_12: u64 = 0x4028_0000_0000_0000;

/// The pattern of 10.0, a speed in m/s.
pub const SPEED_10: u64 = 0x4024_0000_0000_0000;

impl Caliber {
    /// Least time between two detected strikes on one module.
    pub open spec fn interval_ns(self) -> u64 {
        match self {
            Caliber::Mm17 => 50_000_000,
            Caliber::Mm42 => 200_000_000,
        }
    }

    /// Least time between two detected strikes on one module: 50 ms for 17 mm
    /// and 200 ms for 42 mm.
    pub fn detection_interval_ns(self) -> (r: u64)
        ensures
            r == self.interval_ns(),
    {
        match self {
            Caliber::Mm17 => 50_000_000,
            Caliber::Mm42 => 200_000_000,
        }
    }

    /// Normal speed that a strike has to exceed, as a binary64 pattern.
    pub open spec fn threshold(self) -> u64 {
        match self {
            Caliber::Mm17 => SPEED_12,
            Caliber::Mm42 => SPEED_10,
        }
    }

    /// Normal speed in m/s that a strike has to exceed, as a binary64 pattern:
    /// 12 for 17 mm and 10 for 42 mm.
    pub fn armor_detection_speed_m_s(self) -> (r: u64)
        ensures
            r == self.threshold(),
    {
        match self {
            Caliber::Mm17 => SPEED_12,
            Caliber::Mm42 => SPEED_10,
        }
    }

    /// HP a strike removes from an outpost outside the centre square.
    pub open spec fn outpost_hp(self) -> u32 {
        match self {
            Caliber::Mm17 => 20,
            Caliber::Mm42 => 200,
        }
    }

    /// HP a strike removes from an outpost outside the centre square: 20 for
    /// 17 mm and 200 for 42 mm.
    pub fn outpost_damage(self) -> (r: u32)
        ensures
            r == self.outpost_hp(),
    {
        match self {
            Caliber::Mm17 => 20,
            Caliber::Mm42 => 200,
        }
    }
}

/// One armor module that a projectile can touch.
#[derive(Clone, Copy, Debug, PartialEq, Eq, PartialOrd, Ord, Hash, Structural)]
pub enum ArmorTarget {
    /// A face of an outpost's rotating armor.
    Outpost {
        /// Outpost index in the field's outpost list.
        outpost: u32,
        /// Face index, front first.
        face: u32,
    },
    /// A target of a Power Rune.
    Rune {
        /// Rune index in the field's rune list.
        rune: u32,
        /// Blade index.
        blade: u32,
    },
    /// An armor module of a robot.
    Chassis {
        /// Chassis id.
        chassis: u32,
        /// Plate index.
        plate: u32,
    },
    /// A plate of a base.
    Base {
        /// Base index in the field's base list.
        base: u32,
        /// Plate index: three lower plates, upper front, two other upper
        /// plates, then the dart detector.
        plate: u32,
    },
}

/// The other team is never the same one, and its other team is the first again.
pub proof fn teams_are_two(team: Team)
    ensures
        team.opponent() != team,
        team.opponent().opponent() == team,
        Team::Red.place() == 0,
        team.place() + team.opponent().place() == 1,
{
}

/// A module takes twenty 17 mm strikes or five 42 mm strikes a second at most; a
/// 17 mm strike has to be faster than 12 m/s, one and a half times eight, and a
/// 42 mm strike faster than 10 m/s, one and a quarter times eight. An outpost
/// loses ten times as much to 42 mm.
pub proof fn calibers_have_their_limits(caliber: Caliber)
    ensures
        caliber == Caliber::Mm17 ==> {
            &&& 20 * caliber.interval_ns() == 1_000_000_000
            &&& caliber.threshold() == (1023 + 3) * 0x10_0000_0000_0000 + 0x8_0000_0000_0000
            &&& caliber.outpost_hp() == 20
        },
        caliber == Caliber::Mm42 ==> {
            &&& 5 * caliber.interval_ns() == 1_000_000_000
            &&& caliber.threshold() == (1023 + 3) * 0x10_0000_0000_0000 + 0x4_0000_0000_0000
            &&& caliber.outpost_hp() == 200
        },
{
}

} // verus!

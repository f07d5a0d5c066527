//! Drive commands and pilot input frames.
use crate::binary::{finite, is_finite, is_same_number, same_number};
use crate::target::Team;
use vstd::prelude::*;

verus! {

/// A chassis' desired body velocity and turret aim, each as its binary64
/// pattern.
#[derive(Clone, Copy, Debug, PartialEq, Eq, Structural)]
pub struct ChassisCommand {
    /// Forward speed.
    pub forward_m_s: u64,
    /// Speed to the left.
    pub left_m_s: u64,
    /// Turning rate.
    pub yaw_rate_rad_s: u64,
    /// Turret yaw.
    pub aim_yaw_rad: u64,
    /// Turret pitch.
    pub aim_pitch_rad: u64,
}

impl Default for ChassisCommand {
    /// At rest, aiming ahead: every number is zero.
    fn default() -> (r: ChassisCommand)
        ensures
            r == neutral(),
    {
        ChassisCommand {
            forward_m_s: 0,
            left_m_s: 0,
            yaw_rate_rad_s: 0,
            aim_yaw_rad: 0,
            aim_pitch_rad: 0,
        }
    }
}

/// At rest, aiming ahead.
pub open spec fn neutral() -> ChassisCommand {
    ChassisCommand {
        forward_m_s: 0,
        left_m_s: 0,
        yaw_rate_rad_s: 0,
        aim_yaw_rad: 0,
        aim_pitch_rad: 0,
    }
}

impl ChassisCommand {
    /// Every number is finite.
    pub open spec fn finite(self) -> bool {
        &&& finite(self.forward_m_s)
        &&& finite(self.left_m_s)
        &&& finite(self.yaw_rate_rad_s)
        &&& finite(self.aim_yaw_rad)
        &&& finite(self.aim_pitch_rad)
    }

    /// Whether every number is finite.
    pub fn is_finite(&self) -> (r: bool)
        ensures
            r == self.finite(),
    {
        is_finite(self.forward_m_s) && is_finite(self.left_m_s) && is_finite(self.yaw_rate_rad_s)
            && is_finite(self.aim_yaw_rad) && is_finite(self.aim_pitch_rad)
    }

    /// This command's aim on top of held movement.
    pub open spec fn aim_over(self, held: ChassisCommand) -> ChassisCommand {
        ChassisCommand {
            aim_yaw_rad: self.aim_yaw_rad,
            aim_pitch_rad: self.aim_pitch_rad,
            ..held
        }
    }

    /// This command's aim on top of held movement.
    pub fn aimed_over(&self, held: &ChassisCommand) -> (r: ChassisCommand)
        ensures
            r == self.aim_over(*held),
    {
        ChassisCommand {
            aim_yaw_rad: self.aim_yaw_rad,
            aim_pitch_rad: self.aim_pitch_rad,
            ..*held
        }
    }
}

impl ChassisCommand {
    /// Every control is the same number.
    pub open spec fn same(self, other: ChassisCommand) -> bool {
        &&& same_number(self.forward_m_s, other.forward_m_s)
        &&& same_number(self.left_m_s, other.left_m_s)
        &&& same_number(self.yaw_rate_rad_s, other.yaw_rate_rad_s)
        &&& same_number(self.aim_yaw_rad, other.aim_yaw_rad)
        &&& same_number(self.aim_pitch_rad, other.aim_pitch_rad)
    }

    /// Whether every control is the same number.
    pub fn is_same(&self, other: &ChassisCommand) -> (r: bool)
        ensures
            r == self.same(*other),
    {
        is_same_number(self.forward_m_s, other.forward_m_s) && is_same_number(
            self.left_m_s,
            other.left_m_s,
        ) && is_same_number(self.yaw_rate_rad_s, other.yaw_rate_rad_s) && is_same_number(
            self.aim_yaw_rad,
            other.aim_yaw_rad,
        ) && is_same_number(self.aim_pitch_rad, other.aim_pitch_rad)
    }
}

/// One sample of a pilot's controls.
#[derive(Clone, Copy, Debug, PartialEq, Eq, Structural)]
pub struct InputFrame {
    /// Pause epoch the sample belongs to.
    pub input_epoch: u64,
    /// Number of the sample; the first is one.
    pub sequence: u64,
    /// Simulation time of the sample on the pilot's clock.
    pub sampled_time_ns: u64,
    /// Ticks the sample covers.
    pub duration_ticks: u32,
    /// Placement the sample belongs to.
    pub placement_revision: u64,
    /// The controls.
    pub command: ChassisCommand,
}

impl InputFrame {
    /// The same sample: the same stamps, and every control the same number.
    pub open spec fn same(self, other: InputFrame) -> bool {
        &&& other == (InputFrame { command: other.command, ..self })
        &&& self.command.same(other.command)
    }

    /// Whether it is the same sample.
    pub fn is_same(&self, other: &InputFrame) -> (r: bool)
        ensures
            r == self.same(*other),
    {
        self.input_epoch == other.input_epoch && self.sequence == other.sequence
            && self.sampled_time_ns == other.sampled_time_ns && self.duration_ticks
            == other.duration_ticks && self.placement_revision == other.placement_revision
            && self.command.is_same(&other.command)
    }
}

/// The pattern of 1.0.
pub const ONE: u64 = 0x3ff0_0000_0000_0000;

/// The pattern of 0.4.
pub const TWO_FIFTHS: u64 = 0x3fd9_9999_9999_999a;

/// The command the constant-drive measurement workloads apply to every
/// chassis: a steady forward speed of 1 m/s with a yaw rate of 0.4 rad/s.
pub fn constant_drive() -> (r: ChassisCommand)
    ensures
        r == (ChassisCommand { forward_m_s: ONE, yaw_rate_rad_s: TWO_FIFTHS, ..neutral() }),
        r.forward_m_s == 0x3ff0_0000_0000_0000,
        r.yaw_rate_rad_s == 0x3fd9_9999_9999_999a,
        r.left_m_s == 0 && r.aim_yaw_rad == 0 && r.aim_pitch_rad == 0,
{
    ChassisCommand {
        forward_m_s: ONE,
        left_m_s: 0,
        yaw_rate_rad_s: TWO_FIFTHS,
        aim_yaw_rad: 0,
        aim_pitch_rad: 0,
    }
}

/// The team of each player of a measurement workload, in spawn order: they
/// alternate, red first.
pub fn workload_teams(players: usize) -> (r: Vec<Team>)
    ensures
        r@ == crate::referee::alternating_owners(players as nat),
{
    crate::referee::alternate(players)
}

/// A shot aims with its own sample and moves as held.
pub proof fn a_shot_moves_as_held(own: ChassisCommand, held: ChassisCommand)
    ensures
        ({
            let both = own.aim_over(held);
            &&& both.forward_m_s == held.forward_m_s
            &&& both.left_m_s == held.left_m_s
            &&& both.yaw_rate_rad_s == held.yaw_rate_rad_s
            &&& both.aim_yaw_rad == own.aim_yaw_rad
            &&& both.aim_pitch_rad == own.aim_pitch_rad
        }),
{
}

/// At rest every control is zero.
pub proof fn rest_is_zero()
    ensures
        neutral().forward_m_s == 0,
        neutral().left_m_s == 0,
        neutral().yaw_rate_rad_s == 0,
        neutral().aim_yaw_rad == 0,
        neutral().aim_pitch_rad == 0,
{
}

/// Two samples are the same exactly where every stamp agrees and every control
/// is the same number; whether numbers are finite is asked of every control.
pub proof fn samples_are_compared_whole(a: InputFrame, b: InputFrame)
    ensures
        a.same(b) <==> {
            &&& a.input_epoch == b.input_epoch
            &&& a.sequence == b.sequence
            &&& a.sampled_time_ns == b.sampled_time_ns
            &&& a.duration_ticks == b.duration_ticks
            &&& a.placement_revision == b.placement_revision
            &&& same_number(a.command.forward_m_s, b.command.forward_m_s)
            &&& same_number(a.command.left_m_s, b.command.left_m_s)
            &&& same_number(a.command.yaw_rate_rad_s, b.command.yaw_rate_rad_s)
            &&& same_number(a.command.aim_yaw_rad, b.command.aim_yaw_rad)
            &&& same_number(a.command.aim_pitch_rad, b.command.aim_pitch_rad)
        },
        a.command.finite() <==> {
            &&& finite(a.command.forward_m_s)
            &&& finite(a.command.left_m_s)
            &&& finite(a.command.yaw_rate_rad_s)
            &&& finite(a.command.aim_yaw_rad)
            &&& finite(a.command.aim_pitch_rad)
        },
{
}

} // verus!

//! Match referee on the field clock: teams, the round timer, Power Rune
//! availability and buffs, and outpost ownership.
//!
//! Damage, experience, levels, heat, respawn and the round result come from
//! the gameplay engine, which the referee drives on the round clock. The
//! referee does not hold the engine: it says which call it needs next and is
//! resumed with the engine's state after the call.
//!
//! Outside a match (`Idle`) the runes run their training policy and the engine
//! is free practice. `StartMatch` switches the runes to referee control and
//! seeds their target streams from the config's seed: dark until a team spends
//! an opportunity, then Activating for at most 20 s, then Activated for the
//! buff's duration, then unavailable. `ResetMatch` drops the seeds again. The
//! referee never reads host time.


pub mod command;
pub mod conduct;
pub mod decisions;
pub mod desk;
pub mod handover;
pub mod laws;
pub mod machine;
pub mod model;
pub mod rules;
pub mod stamps;

use crate::game::{RobotKind, RoundResult, Stats, ZoneKind};
use crate::rune::RuneKind;
use crate::target::{Caliber, Team};
use vstd::prelude::*;

verus! {

/// Countdown before a round.
pub const COUNTDOWN_NS: u64 = 5_000_000_000;

/// Length of a round, and the longest one allowed.
pub const ROUND_NS: u64 = 420_000_000_000;

/// An Activating rune not activated within 20 s reverts.
pub const RUNE_ACTIVATING_WINDOW_NS: u64 = 20_000_000_000;

/// Small Rune until three minutes, Big Rune afterwards.
pub const BIG_RUNE_STAGE_NS: u64 = 180_000_000_000;

/// Share of damage the Small Rune's buff removes.
pub const SMALL_RUNE_DEFENSE_PCT: u32 = 25;

/// The Small Rune's buff lasts 45 s.
pub const SMALL_RUNE_BUFF_NS: u64 = 45_000_000_000;

/// The outpost's middle armor stops rotating at 3:00.
pub const OUTPOST_ROTOR_STOP_NS: u64 = 180_000_000_000;

/// HP a robot loses when one of its armor modules collides.
pub const COLLISION_DAMAGE_HP: u32 = 2;

/// Recent events kept in the snapshot.
pub const EVENT_MEMORY: usize = 48;

/// The default seed for target selection and Big Rune motion parameters.
pub const DEFAULT_SEED: u64 = 0x5EED_2026;

/// The odd factor that spreads a seed over the runes.
pub const SEED_FACTOR: u64 = 0x9E37_79B9_7F4A_7C15;

/// Where the match is.
#[derive(Clone, Copy, Debug, PartialEq, Eq, Structural)]
pub enum MatchPhase {
    /// No match: runes run their training policy and damage is free practice.
    Idle,
    /// A started match waiting out its countdown.
    Countdown,
    /// The round clock is running.
    Running,
    /// The round ended by timeout, base destruction or an operator stop; the
    /// round clock is frozen at that instant.
    Finished,
}

/// Which Power Rune stage the round is in. Every rune converts at 3:00.
#[derive(Clone, Copy, Debug, PartialEq, Eq, Structural)]
pub enum RuneStage {
    /// From the start until 3:00: one target at a time.
    Small,
    /// From 3:00 to the end: pairs of targets.
    Big,
}

impl RuneStage {
    /// The rune mode this stage runs.
    pub fn kind(self) -> (r: RuneKind)
        ensures
            r == (match self {
                RuneStage::Small => RuneKind::Small,
                RuneStage::Big => RuneKind::Big,
            }),
    {
        match self {
            RuneStage::Small => RuneKind::Small,
            RuneStage::Big => RuneKind::Big,
        }
    }
}

/// An active rune buff. The gameplay engine applies the effects to the whole
/// team; this record drives the rune's presentation. Times are on the round
/// clock, so a `SkipTo` ages the buff with the round.
#[derive(Clone, Copy, Debug, PartialEq, Eq, Structural)]
pub struct BuffState {
    /// Which stage granted the buff.
    pub source: RuneStage,
    /// Share of incoming damage removed, in percent.
    pub defense_pct: u32,
    /// Projectile damage multiplier in percent; 100 is no attack buff.
    pub attack_pct: u32,
    /// Barrel cooling multiplier.
    pub cooling_multiplier: u32,
    /// Round clock time the buff was granted.
    pub started_ns: u64,
    /// Round clock time the buff ends.
    pub expires_ns: u64,
}

/// Performance for robots that the rulebook's tables do not cover. Hero,
/// Infantry, Engineer and Sentry use their rulebook values unless the placement
/// selects a performance; anything else uses `fallback`.
#[derive(Clone, Copy, Debug, PartialEq, Eq, Structural)]
pub struct RobotConfig {
    /// HP, power, heat limit and cooling for a robot without rulebook values.
    pub fallback: Stats,
}

/// A 200 HP robot with a 100 heat limit cooling at 20 per second.
pub open spec fn default_robot() -> RobotConfig {
    RobotConfig {
        fallback: Stats { max_hp: 200, chassis_power_w: 0, heat_limit: 100, cooling_per_s: 20 },
    }
}

impl Default for RobotConfig {
    /// A 200 HP robot with a 100 heat limit cooling at 20 per second.
    fn default() -> (r: RobotConfig)
        ensures
            r == default_robot(),
    {
        RobotConfig {
            fallback: Stats { max_hp: 200, chassis_power_w: 0, heat_limit: 100, cooling_per_s: 20 },
        }
    }
}

/// Match rules for one field: who owns each rune and outpost, how long the
/// round lasts and the seed the runes draw from.
#[derive(Clone, Debug, PartialEq, Eq)]
pub struct RefereeConfig {
    /// Owner of each field rune, by rune index.
    pub rune_teams: Vec<Team>,
    /// Owner of each field outpost, by outpost index; at most one per team.
    pub outpost_teams: Vec<Team>,
    /// Performance for robot classes without rulebook values.
    pub robot: RobotConfig,
    /// Round length.
    pub round_ns: u64,
    /// Countdown before the round.
    pub countdown_ns: u64,
    /// Seed for target selection and Big Rune motion parameters.
    pub seed: u64,
}

/// Match rules for one field as a value.
pub ghost struct ConfigModel {
    pub rune_teams: Seq<Team>,
    pub outpost_teams: Seq<Team>,
    pub robot: RobotConfig,
    pub round_ns: u64,
    pub countdown_ns: u64,
    pub seed: u64,
}

impl View for RefereeConfig {
    type V = ConfigModel;

    open spec fn view(&self) -> ConfigModel {
        ConfigModel {
            rune_teams: self.rune_teams@,
            outpost_teams: self.outpost_teams@,
            robot: self.robot,
            round_ns: self.round_ns,
            countdown_ns: self.countdown_ns,
            seed: self.seed,
        }
    }
}

/// Owners that alternate, red first.
pub open spec fn alternating_owners(n: nat) -> Seq<Team> {
    Seq::new(
        n,
        |i: int| if i % 2 == 0 {
            Team::Red
        } else {
            Team::Blue
        },
    )
}

/// A list of owners that alternate, red first.
pub fn alternate(n: usize) -> (r: Vec<Team>)
    ensures
        r@ == alternating_owners(n as nat),
{
    let mut owners: Vec<Team> = Vec::new();
    let mut i: usize = 0;
    while i < n
        invariant
            i <= n,
            owners@ == alternating_owners(i as nat),
        decreases n - i,
    {
        if i % 2 == 0 {
            owners.push(Team::Red);
        } else {
            owners.push(Team::Blue);
        }
        i += 1;
        proof {
            assert(owners@ =~= alternating_owners(i as nat));
        }
    }
    proof {
        assert(owners@ =~= alternating_owners(n as nat));
    }
    owners
}

impl RefereeConfig {
    /// The default robot, clock and seed.
    pub open spec fn has_defaults(&self) -> bool {
        &&& self.robot == default_robot()
        &&& self.round_ns == ROUND_NS
        &&& self.countdown_ns == COUNTDOWN_NS
        &&& self.seed == DEFAULT_SEED
    }

    /// Rune and outpost `i` belong to red when `i` is even, else blue.
    pub fn alternating(runes: usize, outposts: usize) -> (r: RefereeConfig)
        ensures
            r.rune_teams@ == alternating_owners(runes as nat),
            r.outpost_teams@ == alternating_owners(outposts as nat),
            r.has_defaults(),
    {
        RefereeConfig::owned(alternate(runes), alternate(outposts))
    }

    /// Explicit owners per rune and outpost index, with the default robot,
    /// clock and seed.
    pub fn owned(rune_teams: Vec<Team>, outpost_teams: Vec<Team>) -> (r: RefereeConfig)
        ensures
            r.rune_teams == rune_teams,
            r.outpost_teams == outpost_teams,
            r.has_defaults(),
    {
        RefereeConfig {
            rune_teams,
            outpost_teams,
            robot: RobotConfig::default(),
            round_ns: ROUND_NS,
            countdown_ns: COUNTDOWN_NS,
            seed: DEFAULT_SEED,
        }
    }
}

impl Default for RefereeConfig {
    /// One rune and two outposts, owned in turn.
    fn default() -> (r: RefereeConfig)
        ensures
            r.rune_teams@ == alternating_owners(1),
            r.outpost_teams@ == alternating_owners(2),
            r.has_defaults(),
    {
        RefereeConfig::alternating(1, 2)
    }
}

/// Something the referee decided or observed, kept in the snapshot's event
/// list.
#[derive(Clone, Copy, Debug, PartialEq, Eq, Structural)]
pub enum RefereeEvent {
    /// A base lost HP or shield.
    BaseDamaged {
        /// Team whose base was hit.
        team: Team,
        /// HP plus shield removed, after the team's defenses.
        amount: u32,
        /// Base HP after the hit.
        hp: u32,
        /// Base shield after the hit.
        shield_hp: u32,
        /// The chassis whose projectile did it.
        shooter: Option<u32>,
    },
    /// A base reached zero HP.
    BaseDestroyed {
        /// Team whose base was destroyed.
        team: Team,
    },
    /// `StartMatch` entered Countdown.
    CountdownStarted,
    /// The countdown elapsed and the round clock started.
    MatchStarted,
    /// The round ended.
    MatchFinished,
    /// The result of the round, or a referee's decision.
    RoundResult(RoundResult),
    /// `ResetMatch` returned the field to Idle.
    MatchReset,
    /// The round reached 3:00 and the runes converted to Big.
    RuneStage(RuneStage),
    /// A team received a rune opportunity.
    RuneOpportunity {
        /// Team that received it.
        team: Team,
        /// Stage the opportunity belongs to.
        stage: RuneStage,
        /// Opportunities the team now holds.
        total: u32,
    },
    /// A team spent an opportunity and its rune began Activating.
    RuneActivating {
        /// Team that spent the opportunity.
        team: Team,
    },
    /// Twenty seconds passed without activating the rune.
    RuneActivationExpired {
        /// Team whose attempt expired.
        team: Team,
    },
    /// A rune completed and granted its buff.
    RuneActivated {
        /// Team that activated it.
        team: Team,
        /// Stage the rune was in.
        stage: RuneStage,
        /// Arms lit: rings recorded in the attempt.
        arms: u32,
        /// Sum of the recorded rings; the average ring is this over `arms`.
        ring_sum: u64,
        /// The buff that was granted.
        buff: BuffState,
    },
    /// A team's buff ran out and its rune went dark.
    BuffExpired {
        /// Team whose buff expired.
        team: Team,
    },
    /// A robot lost HP.
    RobotDamaged {
        /// Chassis id of the robot.
        robot: u32,
        /// HP removed, after defenses.
        amount: u32,
        /// Robot HP after the hit.
        hp: u32,
        /// The chassis whose projectile did it.
        shooter: Option<u32>,
    },
    /// A chassis joined the field and got a robot record.
    RobotJoined {
        /// Chassis id the robot was opened under.
        robot: u32,
        /// Team the chassis plays for.
        team: Team,
    },
    /// A chassis left the field and its robot record was dropped.
    RobotLeft {
        /// Chassis id that left.
        robot: u32,
    },
    /// A robot reached zero HP.
    RobotDefeated {
        /// Chassis id of the robot.
        robot: u32,
    },
    /// An operator restored a defeated robot.
    RobotRevived {
        /// Chassis id of the robot.
        robot: u32,
    },
    /// A defeated robot returned through its respawn timer.
    RobotRespawned {
        /// Chassis id of the robot.
        robot: u32,
    },
    /// A robot's weakened state ended.
    WeaknessCleared {
        /// Chassis id of the robot.
        robot: u32,
    },
    /// A robot reached a new level.
    LevelUp {
        /// Chassis id of the robot.
        robot: u32,
        /// New level.
        level: u8,
    },
    /// An outpost reached zero HP.
    OutpostDestroyed {
        /// Outpost index in the field's outpost list.
        outpost: u32,
        /// Team that owned it.
        team: Team,
    },
    /// A destroyed outpost was rebuilt.
    OutpostRebuilt {
        /// Team whose outpost was rebuilt.
        team: Team,
    },
    /// A robot completed a terrain crossing and gained its buff.
    TerrainCrossing {
        /// Robot that crossed.
        robot: u32,
        /// Crossing kind.
        kind: ZoneKind,
    },
    /// A team's base armor expanded.
    BaseArmorExpanded {
        /// Team whose base armor expanded.
        team: Team,
    },
}

/// One event with the field time, and the round time when a round was running.
#[derive(Clone, Copy, Debug, PartialEq, Eq, Structural)]
pub struct TimedEvent {
    /// Field time the event was recorded at.
    pub time_ns: u64,
    /// Round time, when the round was running or finished.
    pub match_time_ns: Option<u64>,
    /// What happened.
    pub event: RefereeEvent,
}

/// Operator and organiser inputs.
#[derive(Clone, Copy, Debug, PartialEq, Eq)]
pub enum RefereeCommand {
    /// Set a base's HP and shield directly; zero HP in a round ends it.
    SetBaseHp {
        /// Team whose base to edit.
        team: Team,
        /// New HP.
        hp: u32,
        /// New shield.
        shield_hp: u32,
    },
    /// Manual mechanism override, independent of match rules.
    SetBaseOpen {
        /// Team whose base cover to move.
        team: Team,
        /// Whether the cover stands open.
        open: bool,
    },
    /// Manual mechanism override for the dart door.
    SetDartDoorOpen {
        /// Team whose dart door to move.
        team: Team,
        /// Whether the door stands open.
        open: bool,
    },
    /// Start or stop both dart targets sweeping along their rails. They rest
    /// by default; a sweep sets off from rest, and stopping returns them there.
    SetDartTargetMoving {
        /// Whether the targets sweep.
        moving: bool,
    },
    /// Set an outpost's HP directly. In training a restored tower spins again;
    /// in a match a stopped rotor stays stopped.
    SetOutpostHp {
        /// Outpost index in the field's outpost list.
        outpost: u32,
        /// New HP.
        hp: u32,
    },
    /// Set a team's gold.
    SetGold {
        /// Team to edit.
        team: Team,
        /// New balance.
        gold: u32,
    },
    /// Set a robot's projectile allowance, 17 mm then 42 mm.
    SetAllowance {
        /// Chassis id of the robot.
        robot: u32,
        /// New allowance in caliber order.
        allowance: [u32; 2],
    },
    /// Replace the rule switches.
    SetPolicy {
        /// Shots need allowance.
        enforce_allowance: bool,
        /// Ammunition is only sold at a service zone.
        exchange_requires_zone: bool,
    },
    /// Select a robot's performance by its code.
    SetPerformance {
        /// Chassis id of the robot.
        robot: u32,
        /// Code of the new performance.
        performance: u32,
    },
    /// Buy rounds for a robot's allowance with team gold.
    BuyAmmo {
        /// Chassis id of the robot.
        robot: u32,
        /// Caliber bought.
        caliber: Caliber,
        /// Rounds to buy.
        amount: u32,
    },
    /// Set a team's unspent rune opportunities.
    SetRuneOpportunities {
        /// Team to edit.
        team: Team,
        /// Opportunities the team should hold.
        opportunities: u32,
    },
    /// Operator override; zero duration clears the buff and deactivates the
    /// rune.
    SetRuneBuff {
        /// Team to grant the buff to.
        team: Team,
        /// Defense share in percent, at most 100.
        defense_pct: u32,
        /// Attack multiplier in percent, at most 1000.
        attack_pct: u32,
        /// Cooling multiplier, at most 100.
        cooling_multiplier: u32,
        /// Buff duration, at most the round length.
        duration_ns: u64,
    },
    /// Idle to Countdown to Running.
    StartMatch,
    /// Skip the round clock forward, at most to the end of the round.
    SkipTo {
        /// Round time to jump to.
        match_time_ns: u64,
    },
    /// End a counting-down or running match now.
    FinishMatch,
    /// Decide a finished round the comparison of the teams could not.
    Adjudicate {
        /// Winning team, or `None` for a draw.
        winner: Option<Team>,
    },
    /// Back to Idle: runes return to their training policy.
    ResetMatch,
    /// Spend one opportunity to put the team's rune into Activating.
    ActivateRune {
        /// Team whose rune to trigger.
        team: Team,
    },
    /// Add one opportunity without spending anything.
    GrantRuneOpportunity {
        /// Team to grant it to.
        team: Team,
    },
    /// Referee penalty damage to a robot: no defense applies.
    DamageRobot {
        /// Chassis id of the robot.
        robot: u32,
        /// HP to remove; refused for an already defeated robot.
        amount: u32,
    },
    /// Restore a robot to full HP in place.
    ReviveRobot {
        /// Chassis id of the robot.
        robot: u32,
    },
    /// Revive a defeated robot at once for gold.
    InstantRespawn {
        /// Chassis id of the robot.
        robot: u32,
    },
    /// End a robot's weakened state as an own service zone would.
    ClearWeakened {
        /// Chassis id of the robot.
        robot: u32,
    },
    /// Set a robot's HP, clamped to its maximum; zero defeats it.
    SetRobotHp {
        /// Chassis id of the robot.
        robot: u32,
        /// New HP.
        hp: u32,
    },
}

/// The clock an absolute referee timestamp is measured on.
#[derive(Clone, Copy, Debug, PartialEq, Eq, Structural)]
pub enum StampClock {
    /// The field's own tick clock.
    Field,
    /// The round clock, which `SkipTo` moves and which stops when a round
    /// finishes.
    Round,
}

/// One chassis' robot record, summarised from the engine's state.
#[derive(Clone, Copy, Debug, PartialEq, Eq, Structural)]
pub struct RobotSnapshot {
    /// Chassis id the robot was opened under.
    pub id: u32,
    /// Team the chassis plays for.
    pub team: Team,
    /// Robot class.
    pub kind: RobotKind,
    /// Remaining HP; zero means defeated.
    pub hp: u32,
    /// Maximum HP at the robot's current level.
    pub max_hp: u32,
    /// Current level.
    pub level: u8,
    /// Whether the robot is weakened after a respawn.
    pub weakened: bool,
}

impl RobotSnapshot {
    /// Whether the robot has any HP left.
    pub fn alive(&self) -> (r: bool)
        ensures
            r == (self.hp > 0),
    {
        self.hp > 0
    }
}

/// Unless it says otherwise a match counts down for five seconds, runs for seven
/// minutes and draws from one seed, and a robot without a table of its own has
/// 200 HP and a barrel of 100 heat that cools by 20 a second.
pub proof fn the_default_match(config: RefereeConfig)
    requires
        config.has_defaults(),
    ensures
        config.round_ns == 7 * 60 * 1_000_000_000,
        config.countdown_ns == 5 * 1_000_000_000,
        config.seed == 0x5EED_2026,
        config.robot.fallback.max_hp == 200,
        config.robot.fallback.chassis_power_w == 0,
        config.robot.fallback.heat_limit == 100,
        config.robot.fallback.cooling_per_s == 20,
{
}

/// Owners take turns and red begins: neighbours are never of one team.
pub proof fn owners_take_turns(n: nat, i: int)
    requires
        0 <= i < n,
    ensures
        alternating_owners(n).len() == n,
        alternating_owners(n)[0] == Team::Red,
        i + 1 < n ==> alternating_owners(n)[i + 1] == alternating_owners(n)[i].opponent(),
{
}

} // verus!

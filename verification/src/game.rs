//! The boundary to the gameplay engine.
//!
//! The engine owns robot, base and outpost HP, gold, experience, heat and the
//! round result. The referee reads a [`GameView`] of its state, asks for a
//! [`GameCall`] and is told how it went.
use crate::target::{Caliber, Team};
use vstd::prelude::*;

verus! {

/// One tick of the engine's round clock.
pub const TICK_NS: u64 = 1_000_000;

/// The robot classes a chassis can be recorded as.
#[derive(Clone, Copy, Debug, PartialEq, Eq, Structural)]
pub enum RobotKind {
    /// Hero: 42 mm gun.
    Hero,
    /// Engineer: no launcher.
    Engineer,
    /// Infantry: 17 mm gun. The default class of a placement that names none.
    Infantry,
    /// Sentry: 17 mm gun.
    Sentry,
    /// Aerial drone: 17 mm gun that needs air support to fire.
    Drone,
}

impl Default for RobotKind {
    /// The class of a placement that names none.
    fn default() -> (r: RobotKind)
        ensures
            r == RobotKind::Infantry,
    {
        RobotKind::Infantry
    }
}

/// Where the engine's own match is.
#[derive(Clone, Copy, Debug, PartialEq, Eq, Structural)]
pub enum GamePhase {
    /// Free practice.
    Idle,
    /// Waiting out the countdown.
    Countdown,
    /// The round clock runs.
    Running,
    /// The round is over.
    Ended,
}

/// The result of a round.
#[derive(Clone, Copy, Debug, PartialEq, Eq, Structural)]
pub struct RoundResult {
    /// Whether the comparison of the two teams decided the round.
    pub decided: bool,
    /// Winning team, or `None` for a draw.
    pub winner: Option<Team>,
}

/// The kinds of buff point on the field.
#[derive(Clone, Copy, Debug, PartialEq, Eq, Structural)]
pub enum ZoneKind {
    /// A team's base.
    Base,
    /// A resupply zone.
    Resupply,
    /// The trapezoid highland.
    TrapezoidHighland,
    /// The fortress.
    Fortress,
    /// A pad of the elevated crossing.
    ElevatedCrossing,
    /// The central highland.
    CentralHighland,
    /// An outpost's surroundings.
    Outpost,
    /// A pad of the road crossing.
    Road,
    /// A pad of the tunnel crossing.
    Tunnel,
    /// A pad of the launch ramp.
    LaunchRamp,
}

/// One buff point.
#[derive(Clone, Copy, Debug, PartialEq, Eq, Structural)]
pub struct Zone {
    /// Buff point kind.
    pub kind: ZoneKind,
    /// Team the point belongs to, or the side it lies on.
    pub owner: Team,
    /// Pad number within a terrain crossing course; 0 otherwise.
    pub pad: u8,
}

/// Whether a robot stands on a buff point, as the engine has it.
#[derive(Clone, Copy, Debug, PartialEq, Eq, Structural)]
pub struct ZoneContact {
    /// Robot id.
    pub robot: u32,
    /// Buff point.
    pub zone: Zone,
    /// The robot stands on it.
    pub detected: bool,
}

/// One robot as the engine has it.
#[derive(Clone, Copy, Debug, PartialEq, Eq, Structural)]
pub struct RobotState {
    /// Chassis id the robot was opened under.
    pub id: u32,
    /// Team the chassis plays for.
    pub team: Team,
    /// Robot class.
    pub kind: RobotKind,
    /// Remaining HP.
    pub hp: u32,
    /// Maximum HP at the robot's current level.
    pub max_hp: u32,
    /// Current level.
    pub level: u8,
    /// The robot takes part: it has HP and was not ejected.
    pub alive: bool,
    /// The robot was sent off.
    pub ejected: bool,
    /// The robot is weakened after a respawn.
    pub weakened: bool,
    /// The barrel is too hot.
    pub overheated: bool,
    /// The barrel is locked for the round.
    pub heat_locked_for_round: bool,
    /// Launching is locked for the round.
    pub speed_locked_for_round: bool,
    /// Launching is locked until this round tick.
    pub speed_locked_until_ticks: u64,
    /// The robot disconnected against the rules.
    pub irregularly_disconnected: bool,
    /// A drone has air support.
    pub air_support_active: bool,
}

/// What the engine reports of something it did.
#[derive(Clone, Copy, Debug, PartialEq, Eq, Structural)]
pub enum GameEventKind {
    /// A robot lost HP.
    RobotDamage {
        /// Robot id.
        robot: u32,
        /// The chassis whose projectile did it.
        shooter: Option<u32>,
        /// HP removed.
        hp: u32,
        /// Shield removed.
        shield: u32,
    },
    /// A base lost HP or shield.
    BaseDamage {
        /// Team whose base it is.
        team: Team,
        /// The chassis whose projectile did it.
        shooter: Option<u32>,
        /// HP removed.
        hp: u32,
        /// Shield removed.
        shield: u32,
    },
    /// An outpost lost HP.
    OutpostDamage {
        /// Team whose outpost it is.
        team: Team,
        /// HP removed.
        hp: u32,
        /// Shield removed.
        shield: u32,
    },
    /// A robot reached zero HP.
    RobotDefeated(u32),
    /// A robot came back by its respawn timer.
    RobotRespawned(u32),
    /// An operator restored a robot.
    RobotRevived(u32),
    /// A robot's weakened state ended.
    WeaknessCleared(u32),
    /// A destroyed outpost was rebuilt.
    OutpostRebuilt(Team),
    /// A robot reached a new level.
    LevelChanged {
        /// Robot id.
        robot: u32,
        /// New level.
        level: u8,
    },
    /// A robot completed a terrain crossing.
    TerrainCrossing {
        /// Robot id.
        robot: u32,
        /// Crossing kind.
        kind: ZoneKind,
    },
    /// A team's base armor expanded.
    BaseArmorExpanded(Team),
    /// Anything else.
    Other,
}

/// One numbered report.
#[derive(Clone, Copy, Debug, PartialEq, Eq, Structural)]
pub struct GameEvent {
    /// Number of the report; reports are numbered in order.
    pub id: u64,
    /// What happened.
    pub kind: GameEventKind,
}

/// What one team has, as the engine has it.
#[derive(Clone, Copy, Debug, PartialEq, Eq, Structural)]
pub struct GameTeam {
    /// Base HP.
    pub base_hp: u32,
    /// Base shield.
    pub base_shield_hp: u32,
    /// Outpost HP.
    pub outpost_hp: u32,
    /// The base armor has expanded.
    pub base_armor_expanded: bool,
}

/// The part of the engine's state that the referee reads.
#[derive(Clone, Debug, PartialEq, Eq)]
pub struct GameView {
    /// Where the engine's own match is.
    pub phase: GamePhase,
    /// Ticks of the round clock.
    pub round_ticks: u64,
    /// Ticks left of the countdown.
    pub countdown_left_ticks: u64,
    /// Red's base and outpost.
    pub red: GameTeam,
    /// Blue's base and outpost.
    pub blue: GameTeam,
    /// Every robot, in join order.
    pub robots: Vec<RobotState>,
    /// Every recorded contact of a robot with a buff point.
    pub contacts: Vec<ZoneContact>,
    /// The result of the round, once there is one.
    pub result: Option<RoundResult>,
    /// Recent reports, oldest first.
    pub events: Vec<GameEvent>,
    /// The number of the next report.
    pub next_event_id: u64,
}

/// The first robot of a list with an id.
pub open spec fn robot_in(robots: Seq<RobotState>, id: u32) -> Option<RobotState>
    decreases robots.len(),
{
    if robots.len() == 0 {
        None
    } else if robots[0].id == id {
        Some(robots[0])
    } else {
        robot_in(robots.subrange(1, robots.len() as int), id)
    }
}

/// Whether a contact list holds a standing contact.
pub open spec fn stands_on(contacts: Seq<ZoneContact>, robot: u32, zone: Zone) -> bool {
    exists|i: int|
        0 <= i < contacts.len() && #[trigger] contacts[i] == (ZoneContact {
            robot,
            zone,
            detected: true,
        })
}

impl GameView {
    /// What a team has.
    pub open spec fn team_state(&self, team: Team) -> GameTeam {
        match team {
            Team::Red => self.red,
            Team::Blue => self.blue,
        }
    }

    /// What a team has.
    pub fn team(&self, team: Team) -> (r: GameTeam)
        ensures
            r == self.team_state(team),
    {
        match team {
            Team::Red => self.red,
            Team::Blue => self.blue,
        }
    }

    /// The robot with an id, if there is one.
    pub fn robot(&self, id: u32) -> (r: Option<RobotState>)
        ensures
            r == robot_in(self.robots@, id),
    {
        let mut i: usize = 0;
        proof {
            assert(self.robots@.subrange(0, self.robots@.len() as int) =~= self.robots@);
        }
        while i < self.robots.len()
            invariant
                i <= self.robots.len(),
                robot_in(self.robots@, id) == robot_in(
                    self.robots@.subrange(i as int, self.robots@.len() as int),
                    id,
                ),
            decreases self.robots.len() - i,
        {
            let ghost rest = self.robots@.subrange(i as int, self.robots@.len() as int);
            proof {
                assert(rest[0] == self.robots@[i as int]);
                assert(rest.subrange(1, rest.len() as int) =~= self.robots@.subrange(
                    i + 1,
                    self.robots@.len() as int,
                ));
            }
            if self.robots[i].id == id {
                return Some(self.robots[i]);
            }
            i += 1;
        }
        None
    }

    /// Whether the engine has a robot standing on a buff point.
    pub fn stands(&self, robot: u32, zone: Zone) -> (r: bool)
        ensures
            r == stands_on(self.contacts@, robot, zone),
    {
        let mut i: usize = 0;
        while i < self.contacts.len()
            invariant
                i <= self.contacts.len(),
                forall|k: int|
                    0 <= k < i ==> #[trigger] self.contacts@[k] != (ZoneContact {
                        robot,
                        zone,
                        detected: true,
                    }),
            decreases self.contacts.len() - i,
        {
            let contact = self.contacts[i];
            if contact.robot == robot && contact.zone == zone && contact.detected {
                return true;
            }
            i += 1;
        }
        false
    }
}

/// Why the engine refuses a call.
#[derive(Clone, Copy, Debug, PartialEq, Eq, Structural)]
pub enum GameError {
    /// Not in this phase.
    Phase,
    /// No such robot.
    Robot,
    /// A value out of range.
    Invalid,
    /// The robot may not.
    Ineligible,
    /// Not enough gold or allowance.
    Insufficient,
    /// The exchange limit is reached.
    Limit,
    /// The clock would overflow.
    ClockOverflow,
}

impl GameError {
    /// The words for a refusal.
    pub open spec fn words(self) -> &'static str {
        match self {
            GameError::Phase => "the command is not valid in this match phase",
            GameError::Robot => "unknown robot id",
            GameError::Invalid => "invalid value",
            GameError::Ineligible => "the robot is not eligible for that",
            GameError::Insufficient => "not enough gold or allowance",
            GameError::Limit => "exchange limit reached",
            GameError::ClockOverflow => "gameplay clock overflow",
        }
    }

    /// The words for a refusal.
    pub fn message(self) -> (r: &'static str)
        ensures
            r == self.words(),
    {
        match self {
            GameError::Phase => "the command is not valid in this match phase",
            GameError::Robot => "unknown robot id",
            GameError::Invalid => "invalid value",
            GameError::Ineligible => "the robot is not eligible for that",
            GameError::Insufficient => "not enough gold or allowance",
            GameError::Limit => "exchange limit reached",
            GameError::ClockOverflow => "gameplay clock overflow",
        }
    }
}

/// What a struck projectile meets.
#[derive(Clone, Copy, Debug, PartialEq, Eq, Structural)]
pub enum StrikeTarget {
    /// A robot.
    Robot(u32),
    /// A team's base.
    Base(Team),
    /// A team's outpost.
    Outpost(Team),
}

/// Where damage comes from.
#[derive(Clone, Copy, Debug, PartialEq, Eq, Structural)]
pub enum DamageKind {
    /// A penalty, which no defense applies to.
    Penalty,
    /// A collision of an armor module.
    Collision,
}

/// What a robot can take and do.
#[derive(Clone, Copy, Debug, PartialEq, Eq, Structural)]
pub struct Stats {
    /// HP at full health.
    pub max_hp: u32,
    /// Chassis power in W.
    pub chassis_power_w: u32,
    /// Barrel heat limit.
    pub heat_limit: u32,
    /// Barrel heat that cools off per second.
    pub cooling_per_s: u32,
}

/// A detected projectile strike.
#[derive(Clone, Copy, Debug, PartialEq, Eq, Structural)]
pub struct Strike {
    /// What was struck.
    pub target: StrikeTarget,
    /// Projectile caliber.
    pub caliber: Caliber,
    /// The chassis that fired.
    pub shooter: Option<u32>,
    /// The strike met the base's upper front plate.
    pub upper_front: bool,
    /// The strike met the centre square.
    pub critical: bool,
}

/// A call that the referee asks of the engine.
#[derive(Clone, Copy, Debug, PartialEq, Eq)]
pub enum GameCall {
    /// Set a base's HP and shield.
    SetBase { team: Team, hp: u32, shield_hp: u32 },
    /// Set an outpost's HP.
    SetOutpostHp { team: Team, hp: u32 },
    /// Set a team's gold.
    SetGold { team: Team, gold: u32 },
    /// Set a robot's projectile allowance, 17 mm then 42 mm.
    SetAllowance { robot: u32, allowance: [u32; 2] },
    /// Replace the rule switches.
    SetPolicy { enforce_allowance: bool, exchange_requires_zone: bool },
    /// Select a robot's performance by its code.
    SetPerformance { robot: u32, code: u32 },
    /// Buy rounds with team gold.
    ExchangeAmmo { robot: u32, caliber: Caliber, amount: u32 },
    /// Give a team a rune buff until a round tick.
    ApplyRuneBuff {
        team: Team,
        attack_pct: u32,
        defense_pct: u32,
        cooling_multiplier: u32,
        expires_ticks: u64,
    },
    /// Take a team's rune buff.
    ClearRuneBuff { team: Team },
    /// Report a completed rune; `big` is the stage.
    RuneActivated {
        team: Team,
        big: bool,
        attack_pct: u32,
        defense_pct: u32,
        cooling_multiplier: u32,
        duration_ticks: u64,
    },
    /// Back to free practice with the roster at full health.
    ResetMatch,
    /// Start the countdown.
    BeginCountdown,
    /// Let ticks pass.
    Step { ticks: u64 },
    /// Move the round clock forward to a tick.
    SkipTo { round_ticks: u64 },
    /// End the round.
    EndRound,
    /// Decide an undecided round.
    Adjudicate { winner: Option<Team> },
    /// Damage that already includes the attacker's effects.
    Damage { target: StrikeTarget, amount: u32, kind: DamageKind },
    /// Restore a robot in place.
    Revive { robot: u32 },
    /// Revive a defeated robot for gold.
    InstantRespawn { robot: u32 },
    /// End a robot's weakened state.
    ClearWeakened { robot: u32 },
    /// Set a robot's HP.
    SetRobotHp { robot: u32, hp: u32 },
    /// Open a robot record. Without a performance the class default applies,
    /// and for a class without one `fallback`.
    AddRobot {
        robot: u32,
        team: Team,
        kind: RobotKind,
        performance: Option<u32>,
        fallback: Stats,
    },
    /// Drop a robot record.
    RemoveRobot { robot: u32 },
    /// Account a launch.
    Launch { robot: u32, caliber: Caliber },
    /// Apply a projectile strike.
    Projectile(Strike),
    /// Report that a robot came to stand on a buff point or left it.
    ZoneDetection { robot: u32, zone: Zone, detected: bool },
}

/// A robot stands on a buff point exactly where a contact says so of that robot,
/// that point, and of standing on it.
pub proof fn standing_is_said_of_robot_and_point(
    contacts: Seq<ZoneContact>,
    robot: u32,
    zone: Zone,
)
    ensures
        stands_on(contacts, robot, zone) <==> exists|i: int|
            0 <= i < contacts.len() && (#[trigger] contacts[i]).robot == robot && contacts[i].zone
                == zone && contacts[i].detected,
{
    if exists|i: int|
        0 <= i < contacts.len() && (#[trigger] contacts[i]).robot == robot && contacts[i].zone
            == zone && contacts[i].detected {
        let i = choose|i: int|
            0 <= i < contacts.len() && (#[trigger] contacts[i]).robot == robot && contacts[i].zone
                == zone && contacts[i].detected;
        assert(contacts[i] == (ZoneContact { robot, zone, detected: true }));
    }
}

} // verus!

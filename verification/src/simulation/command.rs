//! What each command of a player or operator means.
//!
//! The simulation decides; whoever holds the field carries the decision out.
use super::pacing::{Pacing, MAX_ADVANCE_NS, MAX_STEP_TICKS};
use super::shots::{
    increasing_is_rising, result_in, rising, spaced, Admission, AimedShot, FireRecord, FireTiming,
    ShooterFacts, ShotRefusal, ShotResult, Shots, ShotsModel,
};
use crate::binary::{abs_at_most, finite, is_abs_at_most, is_finite, Pose};
use crate::field::stepping::buy_ammo;
use crate::input::{ChassisCommand, InputFrame};
use crate::referee::RefereeCommand;
use crate::target::{Caliber, Team};
use std::collections::{BTreeMap, BTreeSet};
use vstd::prelude::*;
use vstd::slice::slice_to_vec;
use vstd::std_specs::iter::IteratorSpec;

verus! {

broadcast use {vstd::laws_cmp::group_laws_cmp, vstd::std_specs::btree::group_btree_axioms};

/// Training bots at most.
pub const BOT_LIMIT: usize = 32;

/// The pattern of 20.0: the fastest a bot spins, in rad/s.
pub const BOT_SPIN: u64 = 0x4034_0000_0000_0000;

/// A gun's settings. Speeds and angles are binary64 patterns.
#[derive(Clone, Copy, Debug, PartialEq, Eq, Structural)]
pub struct WeaponConfig {
    /// Projectile caliber.
    pub caliber: Caliber,
    /// Launch speed in m/s.
    pub speed_m_s: u64,
    /// Least time between two shots.
    pub interval_ns: u64,
    /// Spread of the launch speed in m/s.
    pub speed_variation_m_s: u64,
    /// Spread of the launch direction.
    pub spread_angle_rad: u64,
    /// Code of the spread's distribution.
    pub spread_distribution: u32,
}

/// The host's caps on pilots' weapons.
#[derive(Clone, Copy, Debug, PartialEq, Eq, Structural)]
pub struct WeaponLimits {
    /// Fastest launch in m/s.
    pub max_speed_m_s: u64,
    /// Least time between two shots.
    pub min_interval_ns: u64,
}

/// The robot that a chassis was spawned as.
#[derive(Clone, Copy, Debug, PartialEq, Eq, Structural)]
pub struct Robot {
    /// Code of the robot.
    pub code: u32,
    /// Caliber of its gun.
    pub caliber: Caliber,
}

/// A command of a player or operator.
#[derive(Clone, Copy, Debug, PartialEq, Eq)]
pub enum Command {
    /// Set a pilot's weapon.
    ConfigureWeapon { chassis: u32, weapon: WeaponConfig },
    /// Fire with an own aim at a time of the pilot's clock.
    FireAimed(AimedShot),
    /// One sample of a pilot's controls.
    PilotInput { chassis: u32, frame: InputFrame },
    /// Reposition a chassis.
    PlaceChassis { chassis: u32, position_m: [u64; 3], yaw_deg: u64 },
    /// Set a chassis' held controls.
    Chassis { chassis: u32, command: ChassisCommand },
    /// Add a training bot.
    SpawnBot { team: Team, spin_rad_s: u64 },
    /// Remove a training bot.
    RemoveBot { chassis: u32 },
    /// Remove every training bot.
    ClearBots,
    /// Revive a defeated robot in place.
    Respawn { chassis: u32 },
    /// Return a robot to its spawn.
    ResetRobot { chassis: u32 },
    /// Buy rounds with team gold.
    BuyAmmo { chassis: u32, caliber: Caliber },
    /// Fire now.
    Fire { shooter: u32, timing: Option<FireTiming> },
    /// Launch a projectile that nobody fired.
    SpawnProjectile { muzzle: Pose, caliber: Caliber, speed_m_s: u64 },
    /// An operator's command to the referee.
    Referee(RefereeCommand),
    /// Pause or resume.
    Pause { paused: bool },
    /// Step ticks, paused or not.
    Step { ticks: u64 },
}

/// What the field knows of the chassis a command names, and of itself.
#[derive(Clone, Copy, Debug, PartialEq, Eq, Structural)]
pub struct Facts {
    /// The field's time.
    pub now_ns: u64,
    /// Placement revision; `None` for an unknown chassis.
    pub revision: Option<u64>,
    /// Whether the robot is defeated; `None` for an unknown chassis.
    pub defeated: Option<bool>,
    /// Team of the chassis; `None` for an unknown one.
    pub team: Option<Team>,
    /// The field offers chassis.
    pub spawner: bool,
    /// The field has a referee.
    pub referee: bool,
}

/// What a command asks of the field.
#[derive(Clone, Copy, Debug, PartialEq, Eq)]
pub enum Action {
    /// Nothing more.
    Done,
    /// The command is refused.
    Refused(&'static str),
    /// The shot is refused.
    RefusedShot(ShotRefusal),
    /// Set a weapon that the host's caps admit at this caliber.
    ConfigureWeapon { chassis: u32, caliber: Caliber, weapon: WeaponConfig },
    /// Fire an aimed shot and settle it.
    FireAimed(AimedShot),
    /// Hand a sample to the chassis' input stream.
    Receive { chassis: u32, frame: InputFrame, revision: u64 },
    /// Drop the input stream and place the chassis.
    Place { chassis: u32, team: Team, position_m: [u64; 3], yaw_deg: u64 },
    /// Set held controls.
    Drive { chassis: u32, command: ChassisCommand },
    /// Spawn a bot that spins.
    SpawnBot { team: Team, spin_rad_s: u64 },
    /// Remove a chassis.
    Remove { chassis: u32 },
    /// Remove every bot.
    RemoveBots,
    /// Revive the robot where there is a referee, neutralise its controls,
    /// and place it when a place is given.
    Recover { chassis: u32, revive: bool, place: Option<Pose> },
    /// Forward to the referee.
    Referee(RefereeCommand),
    /// Fire now with a weapon.
    Fire { shooter: u32, timing: Option<FireTiming>, weapon: WeaponConfig },
    /// Launch a projectile that nobody fired.
    Launch { muzzle: Pose, caliber: Caliber, speed_m_s: u64 },
    /// The pause changed: neutralise every held control.
    Neutralise,
    /// Step ticks.
    Step { ticks: u64 },
}

/// The simulation but for its field and input streams.
#[derive(Clone, Debug, PartialEq, Eq)]
pub struct Simulation {
    /// Pause and host time.
    pub pacing: Pacing,
    /// The shot schedule.
    pub shots: Shots,
    /// Training bots.
    pub bots: BTreeSet<u32>,
    /// Where each chassis was spawned.
    pub pilot_spawns: BTreeMap<u32, Pose>,
    /// The robot each pilot's chassis was spawned as; a bot or a chassis
    /// spawned by configuration alone has no entry.
    pub robots: BTreeMap<u32, Robot>,
    /// Pilots' own weapon settings.
    pub pilot_weapons: BTreeMap<u32, WeaponConfig>,
    /// Host starting weapon settings.
    pub weapon: WeaponConfig,
    /// Caps on pilots' weapons.
    pub weapon_limits: WeaponLimits,
}

/// What a simulation is.
pub ghost struct SimulationModel {
    pub pacing: Pacing,
    pub shots: ShotsModel,
    pub bots: Set<u32>,
    pub pilot_spawns: Map<u32, Pose>,
    pub robots: Map<u32, Robot>,
    pub pilot_weapons: Map<u32, WeaponConfig>,
    pub weapon: WeaponConfig,
    pub weapon_limits: WeaponLimits,
}

impl View for Simulation {
    type V = SimulationModel;

    open spec fn view(&self) -> SimulationModel {
        SimulationModel {
            pacing: self.pacing,
            shots: self.shots@,
            bots: self.bots@,
            pilot_spawns: self.pilot_spawns@,
            robots: self.robots@,
            pilot_weapons: self.pilot_weapons@,
            weapon: self.weapon,
            weapon_limits: self.weapon_limits,
        }
    }
}

/// What a map has under a chassis.
pub open spec fn under<T>(map: Map<u32, T>, chassis: u32) -> Option<T> {
    if map.contains_key(chassis) {
        Some(map[chassis])
    } else {
        None
    }
}

impl SimulationModel {
    /// The pacing's and the schedule's invariants; at most so many bots.
    pub open spec fn wf(self) -> bool {
        &&& self.pacing.wf()
        &&& self.shots.wf()
        &&& self.bots.finite()
        &&& self.bots.len() <= BOT_LIMIT
    }

    /// The caliber a chassis' gun fires: its robot's, or the host default's.
    pub open spec fn caliber_of(self, chassis: u32) -> Caliber {
        match under(self.robots, chassis) {
            Some(robot) => robot.caliber,
            None => self.weapon.caliber,
        }
    }

    /// The weapon a chassis fires with: the pilot's settings, else the host's,
    /// always at the chassis' own caliber.
    pub open spec fn weapon_of(self, chassis: u32) -> WeaponConfig {
        let own = match under(self.pilot_weapons, chassis) {
            Some(weapon) => weapon,
            None => self.weapon,
        };
        WeaponConfig { caliber: self.caliber_of(chassis), ..own }
    }

    /// Recovering a pilot: a robot that stands is not respawned.
    pub open spec fn recovering(self, chassis: u32, reset: bool, facts: Facts) -> Action {
        match under(self.pilot_spawns, chassis) {
            None => Action::Refused("no pilot with that chassis"),
            Some(spawn) => if !reset && facts.defeated != Some(true) {
                Action::Refused("robot is not defeated")
            } else {
                Action::Recover {
                    chassis,
                    revive: facts.referee,
                    place: if reset {
                        Some(spawn)
                    } else {
                        None
                    },
                }
            },
        }
    }

    /// What a command does to the simulation and asks of the field.
    pub open spec fn applied(self, command: Command, facts: Facts) -> (SimulationModel, Action) {
        match command {
            Command::ConfigureWeapon { chassis, weapon } => (
                self,
                if facts.revision is None {
                    Action::Refused("no chassis with that id")
                } else {
                    Action::ConfigureWeapon { chassis, caliber: self.caliber_of(chassis), weapon }
                },
            ),
            Command::FireAimed(shot) => {
                let (shots, admission) = self.shots.admitted(
                    shot,
                    ShooterFacts { revision: facts.revision, defeated: facts.defeated },
                    self.pacing.paused,
                    self.pacing.input_epoch,
                    facts.now_ns,
                );
                (
                    SimulationModel { shots, ..self },
                    match admission {
                        Admission::Known(Ok(())) => Action::Done,
                        Admission::Known(Err(reason)) => Action::RefusedShot(reason),
                        Admission::Scheduled => Action::Done,
                        Admission::Changed => Action::Refused("shot id changed contents"),
                        Admission::Refused(reason) => Action::RefusedShot(reason),
                        Admission::Fire => Action::FireAimed(shot),
                    },
                )
            },
            Command::PilotInput { chassis, frame } => (
                self,
                if frame.input_epoch != self.pacing.input_epoch {
                    Action::Refused("input epoch expired")
                } else {
                    match facts.revision {
                        None => Action::Refused("no chassis with that id"),
                        Some(revision) => Action::Receive { chassis, frame, revision },
                    }
                },
            ),
            Command::PlaceChassis { chassis, position_m, yaw_deg } => (
                self,
                if !(finite(position_m[0]) && finite(position_m[1]) && finite(position_m[2])
                    && finite(yaw_deg)) {
                    Action::Refused("placement must be finite")
                } else {
                    match facts.team {
                        None => Action::Refused("no chassis with that id"),
                        Some(team) => if !facts.spawner {
                            Action::Refused("this field offers no chassis")
                        } else {
                            Action::Place { chassis, team, position_m, yaw_deg }
                        },
                    }
                },
            ),
            Command::Chassis { chassis, command } => (self, Action::Drive { chassis, command }),
            Command::SpawnBot { team, spin_rad_s } => (
                self,
                if !(finite(spin_rad_s) && abs_at_most(spin_rad_s, BOT_SPIN)) {
                    Action::Refused("bot spin must be finite and within +/-20 rad/s")
                } else if self.bots.len() >= BOT_LIMIT {
                    Action::Refused("at most 32 training bots")
                } else if !facts.spawner {
                    Action::Refused("this field offers no chassis")
                } else {
                    Action::SpawnBot { team, spin_rad_s }
                },
            ),
            Command::RemoveBot { chassis } => (
                self,
                if self.bots.contains(chassis) {
                    Action::Remove { chassis }
                } else {
                    Action::Refused("not a training bot")
                },
            ),
            Command::ClearBots => (self, Action::RemoveBots),
            Command::Respawn { chassis } => (self, self.recovering(chassis, false, facts)),
            Command::ResetRobot { chassis } => (self, self.recovering(chassis, true, facts)),
            Command::BuyAmmo { chassis, caliber } => (
                self,
                Action::Referee(
                    RefereeCommand::BuyAmmo {
                        robot: chassis,
                        caliber,
                        amount: match caliber {
                            Caliber::Mm17 => 10,
                            Caliber::Mm42 => 1,
                        },
                    },
                ),
            ),
            Command::Fire { shooter, timing } => (
                self,
                match self.fire_refusal(shooter, facts.now_ns, facts.revision) {
                    Some(reason) => Action::RefusedShot(reason),
                    None => Action::Fire { shooter, timing, weapon: self.weapon_of(shooter) },
                },
            ),
            Command::SpawnProjectile { muzzle, caliber, speed_m_s } => (
                self,
                Action::Launch { muzzle, caliber, speed_m_s },
            ),
            Command::Referee(command) => (self, Action::Referee(command)),
            Command::Pause { paused } => if paused == self.pacing.paused {
                (self, Action::Done)
            } else {
                (self.repaused(paused, facts.now_ns), Action::Neutralise)
            },
            Command::Step { ticks } => (
                self,
                if ticks == 0 || ticks > MAX_STEP_TICKS {
                    Action::Refused("step between 1 and 60000 ticks")
                } else {
                    Action::Step { ticks }
                },
            ),
        }
    }

    /// Why a gun does not fire for an intended time, if it does not.
    pub open spec fn fire_refusal(self, shooter: u32, intended_ns: u64, revision: Option<u64>) -> Option<
        ShotRefusal,
    > {
        if !spaced(
            self.shots.log(shooter).fired_ns,
            intended_ns,
            self.weapon_of(shooter).interval_ns,
        ) {
            Some(ShotRefusal::CoolingDown)
        } else if revision is None {
            Some(ShotRefusal::NoChassis)
        } else {
            None
        }
    }

    /// The simulation across a pause change: a new epoch, no un-ticked host
    /// time, and every queued shot cancelled.
    pub open spec fn repaused(self, paused: bool, now_ns: u64) -> SimulationModel {
        SimulationModel {
            pacing: Pacing {
                paused,
                input_epoch: (self.pacing.input_epoch + 1) as u64,
                carry_ns: 0,
                ..self.pacing
            },
            shots: self.shots.cancelled(None, ShotRefusal::Paused, now_ns),
            ..self
        }
    }

    /// The simulation with a chassis placed.
    pub open spec fn placed(self, chassis: u32, spawn: Pose, robot: Option<Robot>) -> SimulationModel {
        SimulationModel {
            pilot_spawns: self.pilot_spawns.insert(chassis, spawn),
            robots: match robot {
                Some(robot) => self.robots.insert(chassis, robot),
                None => self.robots,
            },
            ..self
        }
    }

    /// The simulation with host starting settings, and whether they were taken.
    pub open spec fn armed(
        self,
        weapon: WeaponConfig,
        checked: Result<WeaponConfig, &'static str>,
    ) -> (SimulationModel, Result<(), &'static str>) {
        match checked {
            Err(reason) => (self, Err(reason)),
            Ok(valid) => (
                SimulationModel {
                    weapon: valid,
                    weapon_limits: WeaponLimits {
                        max_speed_m_s: weapon.speed_m_s,
                        min_interval_ns: weapon.interval_ns,
                    },
                    ..self
                },
                Ok(()),
            ),
        }
    }

    /// The simulation with caps on pilots' weapons, and whether they were taken.
    pub open spec fn limited(
        self,
        limits: WeaponLimits,
        admitted: Result<WeaponConfig, &'static str>,
    ) -> (SimulationModel, Result<(), &'static str>) {
        match admitted {
            Err(reason) => (self, Err(reason)),
            Ok(_) => (SimulationModel { weapon_limits: limits, ..self }, Ok(())),
        }
    }

    /// Nothing has to be looked at between ticks.
    pub open spec fn quiet(self, streams: bool) -> bool {
        !streams && self.shots.pending.len() == 0
    }

    /// The simulation with a chassis gone, and all that was known of it.
    pub open spec fn without(self, chassis: u32, now_ns: u64) -> SimulationModel {
        SimulationModel {
            shots: self.shots.forgotten(chassis, now_ns),
            bots: self.bots.remove(chassis),
            pilot_spawns: self.pilot_spawns.remove(chassis),
            robots: self.robots.remove(chassis),
            pilot_weapons: self.pilot_weapons.remove(chassis),
            ..self
        }
    }
}

impl Simulation {
    /// The simulation's invariant.
    pub open spec fn wf(self) -> bool {
        self@.wf()
    }

    /// Empty pacing and shot state; no chassis is known.
    pub fn new(tick_ns: u64, paused: bool, weapon: WeaponConfig, limits: WeaponLimits) -> (r:
        Simulation)
        requires
            tick_ns > 0,
        ensures
            r@ == (SimulationModel {
                pacing: Pacing { tick_ns, paused, input_epoch: 0, carry_ns: 0 },
                shots: ShotsModel {
                    logs: Map::empty(),
                    pending: Seq::empty(),
                    completed: Seq::empty(),
                    records: Seq::empty(),
                },
                bots: Set::empty(),
                pilot_spawns: Map::empty(),
                robots: Map::empty(),
                pilot_weapons: Map::empty(),
                weapon,
                weapon_limits: limits,
            }),
            r.wf(),
    {
        Simulation {
            pacing: Pacing::new(tick_ns, paused),
            shots: Shots::new(),
            bots: BTreeSet::new(),
            pilot_spawns: BTreeMap::new(),
            robots: BTreeMap::new(),
            pilot_weapons: BTreeMap::new(),
            weapon,
            weapon_limits: limits,
        }
    }

    /// Set host starting settings and match the caps to their rate and speed.
    /// `checked` is what validating them gave; where it is an error nothing
    /// changes.
    pub fn with_weapon(
        &mut self,
        weapon: WeaponConfig,
        checked: Result<WeaponConfig, &'static str>,
    ) -> (r: Result<(), &'static str>)
        requires
            old(self).wf(),
        ensures
            (final(self)@, r) == old(self)@.armed(weapon, checked),
            final(self).wf(),
    {
        match checked {
            Err(reason) => Err(reason),
            Ok(valid) => {
                self.weapon = valid;
                self.weapon_limits = WeaponLimits {
                    max_speed_m_s: weapon.speed_m_s,
                    min_interval_ns: weapon.interval_ns,
                };
                Ok(())
            },
        }
    }

    /// Set independent host caps. `admitted` is what they make of the host's
    /// own weapon; caps that exclude it are refused and nothing changes.
    pub fn with_weapon_limits(
        &mut self,
        limits: WeaponLimits,
        admitted: Result<WeaponConfig, &'static str>,
    ) -> (r: Result<(), &'static str>)
        requires
            old(self).wf(),
        ensures
            (final(self)@, r) == old(self)@.limited(limits, admitted),
            final(self).wf(),
    {
        match admitted {
            Err(reason) => Err(reason),
            Ok(_) => {
                self.weapon_limits = limits;
                Ok(())
            },
        }
    }

    /// Whether ticks can be stepped at once: no input stream has to advance
    /// and no shot is queued.
    pub fn steps_at_once(&self, streams: bool) -> (r: bool)
        ensures
            r == self@.quiet(streams),
    {
        !streams && self.shots.pending.len() == 0
    }

    /// The journal of accepted shots, oldest first.
    pub fn fire_records(&self) -> (r: Vec<FireRecord>)
        ensures
            r@ == self@.shots.records,
    {
        slice_to_vec(self.shots.records.as_slice())
    }

    /// The robot a chassis was spawned as; `None` for a bot or a chassis
    /// spawned by configuration alone.
    pub fn robot(&self, chassis: u32) -> (r: Option<Robot>)
        ensures
            r == under(self@.robots, chassis),
    {
        match self.robots.get(&chassis) {
            Some(robot) => Some(*robot),
            None => None,
        }
    }

    /// Where a chassis was spawned.
    pub fn spawn_of(&self, chassis: u32) -> (r: Option<Pose>)
        ensures
            r == under(self@.pilot_spawns, chassis),
    {
        match self.pilot_spawns.get(&chassis) {
            Some(spawn) => Some(*spawn),
            None => None,
        }
    }

    /// The caliber a chassis' gun fires: its robot's, or the host default
    /// weapon's for a chassis that is no particular robot.
    pub fn caliber(&self, chassis: u32) -> (r: Caliber)
        ensures
            r == self@.caliber_of(chassis),
    {
        match self.robot(chassis) {
            Some(robot) => robot.caliber,
            None => self.weapon.caliber,
        }
    }

    /// The weapon a chassis fires with.
    pub fn weapon_for(&self, chassis: u32) -> (r: WeaponConfig)
        ensures
            r == self@.weapon_of(chassis),
    {
        let own = match self.pilot_weapons.get(&chassis) {
            Some(weapon) => *weapon,
            None => self.weapon,
        };
        WeaponConfig { caliber: self.caliber(chassis), ..own }
    }

    /// Every training bot, ascending.
    pub fn bot_ids(&self) -> (r: Vec<u32>)
        ensures
            r@.to_set() == self@.bots,
            rising(r@),
    {
        let mut out: Vec<u32> = Vec::new();
        let ids = self.bots.iter();
        let ghost all = ids.remaining();
        for id in it: ids
            invariant
                it.seq() == all,
                out@ =~= all.take(it.index@ as int).unref(),
        {
            out.push(*id);
        }
        proof {
            assert(out@ =~= all.unref());
            increasing_is_rising(all);
        }
        out
    }

    /// Recover a pilot: revival changes health only, a reset also returns the
    /// robot to its spawn.
    fn recover_pilot(&self, chassis: u32, reset: bool, facts: &Facts) -> (r: Action)
        ensures
            r == self@.recovering(chassis, reset, *facts),
    {
        let spawn = match self.spawn_of(chassis) {
            Some(spawn) => spawn,
            None => {
                return Action::Refused("no pilot with that chassis");
            },
        };
        let down = match facts.defeated {
            Some(down) => down,
            None => false,
        };
        if !reset && !down {
            return Action::Refused("robot is not defeated");
        }
        Action::Recover {
            chassis,
            revive: facts.referee,
            place: if reset {
                Some(spawn)
            } else {
                None
            },
        }
    }

    /// Why a gun does not fire for an intended time, if it does not: the
    /// gun's rate is enforced on the pilot's timeline.
    pub fn check_fire(&self, shooter: u32, intended_ns: u64, revision: Option<u64>) -> (r: Option<
        ShotRefusal,
    >)
        requires
            self.wf(),
        ensures
            r == self@.fire_refusal(shooter, intended_ns, revision),
    {
        let weapon = self.weapon_for(shooter);
        if !self.shots.may_fire(shooter, intended_ns, weapon.interval_ns) {
            return Some(ShotRefusal::CoolingDown);
        }
        if revision.is_none() {
            return Some(ShotRefusal::NoChassis);
        }
        None
    }

    /// Whether a chassis is a training bot.
    pub fn is_bot(&self, chassis: u32) -> (r: bool)
        ensures
            r == self@.bots.contains(chassis),
    {
        self.bots.contains(&chassis)
    }

    /// Set the pause flag. A change starts a new epoch, cancels queued shots
    /// and discards un-ticked host time, so no input or shot crosses the
    /// pause. Returns whether it changed.
    pub fn set_paused(&mut self, paused: bool, now_ns: u64) -> (r: bool)
        requires
            old(self).wf(),
            old(self)@.pacing.paused != paused ==> old(self)@.pacing.input_epoch < u64::MAX,
        ensures
            r == (old(self)@.pacing.paused != paused),
            final(self)@ == (if r {
                old(self)@.repaused(paused, now_ns)
            } else {
                old(self)@
            }),
            final(self).wf(),
    {
        let changed = self.pacing.set_paused(paused);
        if changed {
            self.shots.cancel_pending_shots(None, ShotRefusal::Paused, now_ns);
        }
        changed
    }

    /// Turn host time into ticks to step, capped; nothing passes while paused.
    pub fn advance(&mut self, delta_ns: u64) -> (r: u64)
        requires
            old(self).wf(),
            old(self)@.pacing.carry_ns + MAX_ADVANCE_NS <= u64::MAX,
        ensures
            r == old(self)@.pacing.ticks_by(seq![delta_ns]),
            final(self)@ == (SimulationModel {
                pacing: old(self)@.pacing.advanced_by(seq![delta_ns]),
                ..old(self)@
            }),
            final(self).wf(),
    {
        proof {
            let one = seq![delta_ns];
            assert(one.drop_last() =~= Seq::empty());
            reveal_with_fuel(Pacing::ticks_by, 2);
            reveal_with_fuel(Pacing::advanced_by, 2);
        }
        self.pacing.advance(delta_ns)
    }

    /// The recorded result of one shot, while the shooter's last results still
    /// hold it.
    pub fn shot_result(&self, shooter: u32, shot_id: u64) -> (r: Option<ShotResult>)
        requires
            self.wf(),
        ensures
            r == result_in(self@.shots.log(shooter).results, shot_id),
    {
        self.shots.shot_result(shooter, shot_id)
    }

    /// Decide a player's or operator's command at the field's time: what it
    /// changes here at once, and what is left to carry out on the field.
    pub fn apply(&mut self, command: &Command, facts: &Facts) -> (r: Action)
        requires
            old(self).wf(),
            match *command {
                Command::Pause { paused } => old(self)@.pacing.paused != paused
                    ==> old(self)@.pacing.input_epoch < u64::MAX,
                _ => true,
            },
        ensures
            (final(self)@, r) == old(self)@.applied(*command, *facts),
            final(self).wf(),
    {
        match *command {
            Command::ConfigureWeapon { chassis, weapon } => {
                if facts.revision.is_none() {
                    Action::Refused("no chassis with that id")
                } else {
                    Action::ConfigureWeapon { chassis, caliber: self.caliber(chassis), weapon }
                }
            },
            Command::FireAimed(shot) => {
                let paused = self.pacing.paused;
                let epoch: u64 = self.pacing.input_epoch;
                let admission = self.shots.take_in(
                    shot,
                    ShooterFacts { revision: facts.revision, defeated: facts.defeated },
                    paused,
                    epoch,
                    facts.now_ns,
                );
                match admission {
                    Admission::Known(Ok(())) => Action::Done,
                    Admission::Known(Err(reason)) => Action::RefusedShot(reason),
                    Admission::Scheduled => Action::Done,
                    Admission::Changed => Action::Refused("shot id changed contents"),
                    Admission::Refused(reason) => Action::RefusedShot(reason),
                    Admission::Fire => Action::FireAimed(shot),
                }
            },
            Command::PilotInput { chassis, frame } => {
                if frame.input_epoch != self.pacing.input_epoch {
                    return Action::Refused("input epoch expired");
                }
                match facts.revision {
                    None => Action::Refused("no chassis with that id"),
                    Some(revision) => Action::Receive { chassis, frame, revision },
                }
            },
            Command::PlaceChassis { chassis, position_m, yaw_deg } => {
                if !is_finite(position_m[0]) || !is_finite(position_m[1]) || !is_finite(
                    position_m[2],
                ) || !is_finite(yaw_deg) {
                    return Action::Refused("placement must be finite");
                }
                match facts.team {
                    None => Action::Refused("no chassis with that id"),
                    Some(team) => {
                        if !facts.spawner {
                            Action::Refused("this field offers no chassis")
                        } else {
                            Action::Place { chassis, team, position_m, yaw_deg }
                        }
                    },
                }
            },
            Command::Chassis { chassis, command } => Action::Drive { chassis, command },
            Command::SpawnBot { team, spin_rad_s } => {
                if !is_finite(spin_rad_s) || !is_abs_at_most(spin_rad_s, BOT_SPIN) {
                    Action::Refused("bot spin must be finite and within +/-20 rad/s")
                } else if self.bots.len() >= BOT_LIMIT {
                    Action::Refused("at most 32 training bots")
                } else if !facts.spawner {
                    Action::Refused("this field offers no chassis")
                } else {
                    Action::SpawnBot { team, spin_rad_s }
                }
            },
            Command::RemoveBot { chassis } => {
                if self.is_bot(chassis) {
                    Action::Remove { chassis }
                } else {
                    Action::Refused("not a training bot")
                }
            },
            Command::ClearBots => Action::RemoveBots,
            Command::Respawn { chassis } => self.recover_pilot(chassis, false, facts),
            Command::ResetRobot { chassis } => self.recover_pilot(chassis, true, facts),
            Command::BuyAmmo { chassis, caliber } => Action::Referee(buy_ammo(chassis, caliber)),
            Command::Fire { shooter, timing } => {
                match self.check_fire(shooter, facts.now_ns, facts.revision) {
                    Some(reason) => Action::RefusedShot(reason),
                    None => Action::Fire { shooter, timing, weapon: self.weapon_for(shooter) },
                }
            },
            Command::SpawnProjectile { muzzle, caliber, speed_m_s } => Action::Launch {
                muzzle,
                caliber,
                speed_m_s,
            },
            Command::Referee(command) => Action::Referee(command),
            Command::Pause { paused } => {
                if self.set_paused(paused, facts.now_ns) {
                    Action::Neutralise
                } else {
                    Action::Done
                }
            },
            Command::Step { ticks } => match Pacing::check_step(ticks) {
                Err(reason) => Action::Refused(reason),
                Ok(()) => Action::Step { ticks },
            },
        }
    }

    /// Remember a chassis that the field placed.
    pub fn place(&mut self, chassis: u32, spawn: Pose, robot: Option<Robot>)
        requires
            old(self).wf(),
        ensures
            final(self)@ == old(self)@.placed(chassis, spawn, robot),
            final(self).wf(),
    {
        self.pilot_spawns.insert(chassis, spawn);
        if let Some(robot) = robot {
            self.robots.insert(chassis, robot);
        }
    }

    /// Remember that a chassis is a training bot.
    pub fn add_bot(&mut self, chassis: u32)
        requires
            old(self).wf(),
            old(self)@.bots.len() < BOT_LIMIT,
        ensures
            final(self)@ == (SimulationModel {
                bots: old(self)@.bots.insert(chassis),
                ..old(self)@
            }),
            final(self).wf(),
    {
        self.bots.insert(chassis);
    }

    /// Set a pilot's own weapon, which the host's caps have admitted.
    pub fn set_weapon(&mut self, chassis: u32, weapon: WeaponConfig)
        requires
            old(self).wf(),
        ensures
            final(self)@ == (SimulationModel {
                pilot_weapons: old(self)@.pilot_weapons.insert(chassis, weapon),
                ..old(self)@
            }),
            final(self).wf(),
    {
        self.pilot_weapons.insert(chassis, weapon);
    }

    /// Forget a chassis with its shots, results, bot mark, spawn record, robot
    /// and weapon.
    pub fn remove_chassis(&mut self, chassis: u32, now_ns: u64)
        requires
            old(self).wf(),
        ensures
            final(self)@ == old(self)@.without(chassis, now_ns),
            final(self).wf(),
    {
        self.shots.forget(chassis, now_ns);
        self.bots.remove(&chassis);
        self.pilot_spawns.remove(&chassis);
        self.robots.remove(&chassis);
        self.pilot_weapons.remove(&chassis);
    }
}

/// A chassis keeps its input stream: it belongs to its present placement, and
/// its robot is in play.
pub open spec fn stream_goes_on(belongs: bool, defeated: Option<bool>) -> bool {
    belongs && defeated == Some(false)
}

/// Whether a chassis keeps its input stream for another tick: the stream
/// belongs to its present placement, and its robot is in play.
pub fn keeps_stream(belongs: bool, defeated: Option<bool>) -> (r: bool)
    ensures
        r == stream_goes_on(belongs, defeated),
{
    let in_play = match defeated {
        Some(down) => !down,
        None => false,
    };
    belongs && in_play
}

} // verus!

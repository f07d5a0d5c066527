//! What the field asks and tells the referee besides commands and ticks.
use super::machine::Referee;
use super::model::{
    fresh_side, MatchState, Pending, Progress, RefereeModel, Side, TeamState, SCHEDULE_LEN,
};
use super::{
    BuffState, MatchPhase, RefereeConfig, RobotSnapshot, RuneStage, TimedEvent, EVENT_MEMORY,
    ROUND_NS,
};
use crate::game::{
    robot_in, stands_on, DamageKind, GameCall, GameView, RobotKind, RobotState, Strike,
    StrikeTarget, Zone,
};
use crate::projectile::ArmorHit;
use crate::rune::{HitOutcome, RuneKind};
use crate::target::{ArmorTarget, Caliber, Team};
use std::collections::VecDeque;
use vstd::prelude::*;
use vstd::slice::slice_to_vec;

verus! {

/// How many entries of a list of owners a team has.
pub open spec fn owned_count(owners: Seq<Team>, team: Team) -> nat
    decreases owners.len(),
{
    if owners.len() == 0 {
        0
    } else {
        owned_count(owners.drop_last(), team) + (if owners.last() == team {
            1nat
        } else {
            0
        })
    }
}

/// Count the entries of a list of owners that a team has.
fn count_owned(owners: &Vec<Team>, team: Team) -> (r: usize)
    ensures
        r == owned_count(owners@, team),
{
    let mut n: usize = 0;
    let mut i: usize = 0;
    while i < owners.len()
        invariant
            i <= owners.len(),
            n <= i,
            n == owned_count(owners@.subrange(0, i as int), team),
        decreases owners.len() - i,
    {
        proof {
            assert(owners@.subrange(0, i + 1).drop_last() =~= owners@.subrange(0, i as int));
        }
        if owners[i] == team {
            n += 1;
        }
        i += 1;
    }
    proof {
        assert(owners@.subrange(0, i as int) =~= owners@);
    }
    n
}

/// Why a configuration is refused for a field, if it is.
pub open spec fn config_refusal(
    config: RefereeConfig,
    runes: nat,
    outposts: nat,
) -> Option<&'static str> {
    if config.rune_teams@.len() != runes {
        Some("referee rune_teams must name an owner for every rune")
    } else if config.outpost_teams@.len() != outposts {
        Some("referee outpost_teams must name an owner for every outpost")
    } else if owned_count(config.outpost_teams@, Team::Red) > 1 || owned_count(
        config.outpost_teams@,
        Team::Blue,
    ) > 1 {
        Some("a team can own at most one outpost")
    } else if config.round_ns == 0 || config.round_ns > ROUND_NS {
        Some("referee round length must be positive and at most seven minutes")
    } else if config.robot.fallback.max_hp == 0 {
        Some("referee robots need some HP")
    } else {
        None
    }
}

/// The state of a referee before any match.
pub open spec fn idle_state() -> MatchState {
    MatchState {
        phase: MatchPhase::Idle,
        phase_started_ns: 0,
        match_started_ns: 0,
        skipped_ns: 0,
        finished_match_time_ns: 0,
        schedule_index: 0,
        stage: RuneStage::Small,
        red: fresh_side(),
        blue: fresh_side(),
        dart_target_since_ns: None,
        game_events_seen: 0,
        now_ns: 0,
        pending: Pending::Nothing,
    }
}

/// Why a rune strike counts for an attempt, or wipes it.
pub open spec fn observed(team: TeamState, outcome: Option<HitOutcome>, ring: u32) -> TeamState {
    match outcome {
        Some(HitOutcome::GroupHit { .. })
        | Some(HitOutcome::Accepted { .. })
        | Some(HitOutcome::Activated { .. }) => TeamState {
            attempt_arms: team.attempt_arms.saturating_add(1),
            attempt_ring_sum: team.attempt_ring_sum.saturating_add(ring as u64),
            ..team
        },
        Some(HitOutcome::WrongBlade { .. }) => team.without_rings(),
        _ => team,
    }
}

impl RefereeModel {
    /// The team whose attempt a contact belongs to: a detected rune contact in
    /// a running round, on a rune whose team is activating it.
    pub open spec fn attempt_of(self, hit: ArmorHit) -> Option<Team> {
        match hit.target {
            ArmorTarget::Rune { rune, .. } => {
                if hit.detected && self.state.phase == MatchPhase::Running && rune
                    < self.config.rune_teams.len() {
                    let team = self.config.rune_teams[rune as int];
                    if self.state.side(team).team.activating_since_ns is Some {
                        Some(team)
                    } else {
                        None
                    }
                } else {
                    None
                }
            },
            _ => None,
        }
    }

    /// What accounting a launch asks of the engine.
    pub open spec fn launched(self, shooter: Option<u32>, caliber: Caliber, game: GameView) -> (
        RefereeModel,
        Progress,
    ) {
        match shooter {
            Some(robot) if robot_in(game.robots@, robot) is Some => (
                self.waiting(Pending::Noted),
                Progress::Call(GameCall::Launch { robot, caliber }),
            ),
            _ => (self, Progress::Done),
        }
    }

    /// What opening a robot's record asks of the engine.
    pub open spec fn joining(
        self,
        robot: u32,
        team: Team,
        kind: RobotKind,
        performance: Option<u32>,
        game: GameView,
    ) -> (RefereeModel, Progress) {
        if robot_in(game.robots@, robot) is Some {
            (self, Progress::Refused("a robot with that id already exists"))
        } else {
            (
                self.waiting(Pending::Joining { robot, team }),
                Progress::Call(
                    GameCall::AddRobot {
                        robot,
                        team,
                        kind,
                        performance,
                        fallback: self.config.robot.fallback,
                    },
                ),
            )
        }
    }

    /// The innermost ring that still detects on a rune.
    pub open spec fn min_ring(self, index: u32) -> u32 {
        if index >= self.config.rune_teams.len() || self.state.stage != RuneStage::Big {
            1
        } else {
            let team = self.config.rune_teams[index as int];
            let done = self.state.side(team).team.big_rune_activations;
            if done == 0 {
                1
            } else if done == 1 {
                4
            } else {
                7
            }
        }
    }
}

/// One team's round state, as an observer sees it.
#[derive(Clone, Copy, Debug, PartialEq, Eq, Structural)]
pub struct TeamSnapshot {
    /// Which team this is.
    pub team: Team,
    /// Unspent Small and Big Rune opportunities.
    pub rune_opportunities: u32,
    /// Big Rune activations completed.
    pub big_rune_activations: u32,
    /// Round clock time the rune was triggered, while it is Activating.
    pub rune_activating_since_ns: Option<u64>,
    /// The team's active buff.
    pub buff: Option<BuffState>,
}

/// What an observer sees of a team.
pub open spec fn team_frame(team: Team, state: TeamState) -> TeamSnapshot {
    TeamSnapshot {
        team,
        rune_opportunities: state.rune_opportunities,
        big_rune_activations: state.big_rune_activations,
        rune_activating_since_ns: state.activating_since_ns,
        buff: state.buff,
    }
}

/// What an observer sees of a team.
fn show_team(team: Team, state: TeamState) -> (r: TeamSnapshot)
    ensures
        r == team_frame(team, state),
{
    TeamSnapshot {
        team,
        rune_opportunities: state.rune_opportunities,
        big_rune_activations: state.big_rune_activations,
        rune_activating_since_ns: state.activating_since_ns,
        buff: state.buff,
    }
}

/// The referee's public state at one tick.
#[derive(Clone, Debug, PartialEq, Eq)]
pub struct RefereeSnapshot {
    /// Whether each base's armor is open or opening, red then blue.
    pub base_open: [bool; 2],
    /// When each base set off toward that; `None` once it rests there.
    pub base_moved_ns: [Option<u64>; 2],
    /// Dart doors, red then blue.
    pub dart_door_open: [bool; 2],
    /// When the dart targets started sweeping; `None` while they rest.
    pub dart_target_since_ns: Option<u64>,
    /// Where the match is.
    pub phase: MatchPhase,
    /// Elapsed round time; frozen at the end of a finished match.
    pub match_time_ns: u64,
    /// Round time left.
    pub remaining_ns: u64,
    /// Countdown time left while counting down; zero in every other phase.
    pub countdown_remaining_ns: u64,
    /// Small Rune stage or Big Rune stage.
    pub stage: RuneStage,
    /// Both teams, red then blue.
    pub teams: [TeamSnapshot; 2],
    /// Every chassis' robot record, in join order.
    pub robots: Vec<RobotSnapshot>,
    /// Owner of each rune, by rune index.
    pub rune_teams: Vec<Team>,
    /// Owner of each outpost, by outpost index.
    pub outpost_teams: Vec<Team>,
    /// Recent events, oldest first.
    pub events: Vec<TimedEvent>,
}

/// Whether a robot of a list is defeated; unknown of one that is not listed.
pub open spec fn defeated_in(robots: Seq<RobotState>, robot: u32) -> Option<bool> {
    match robot_in(robots, robot) {
        Some(state) => Some(!state.alive),
        None => None,
    }
}

/// What an observer sees of a robot.
pub open spec fn robot_frame(robot: RobotState) -> RobotSnapshot {
    RobotSnapshot {
        id: robot.id,
        team: robot.team,
        kind: robot.kind,
        hp: if robot.ejected {
            0
        } else {
            robot.hp
        },
        max_hp: robot.max_hp,
        level: robot.level,
        weakened: robot.weakened,
    }
}

impl RefereeSnapshot {
    /// The snapshot shows this referee and these robots.
    pub open spec fn shows(&self, r: RefereeModel, robots: Seq<RobotState>) -> bool {
        let s = r.state;
        &&& self.base_open == [s.red.base_open, s.blue.base_open]
        &&& self.base_moved_ns == [s.red.base_moved_ns, s.blue.base_moved_ns]
        &&& self.dart_door_open == [s.red.dart_door_open, s.blue.dart_door_open]
        &&& self.dart_target_since_ns == s.dart_target_since_ns
        &&& self.phase == s.phase
        &&& self.match_time_ns == r.match_time()
        &&& self.remaining_ns == r.config.round_ns.saturating_sub(r.match_time())
        &&& self.countdown_remaining_ns == (if s.phase == MatchPhase::Countdown {
            r.config.countdown_ns.saturating_sub(s.now_ns.saturating_sub(s.phase_started_ns))
        } else {
            0
        })
        &&& self.stage == s.stage
        &&& self.teams == [
            team_frame(Team::Red, s.red.team),
            team_frame(Team::Blue, s.blue.team),
        ]
        &&& self.robots@ == robots.map_values(|robot: RobotState| robot_frame(robot))
        &&& self.rune_teams@ == r.config.rune_teams
        &&& self.outpost_teams@ == r.config.outpost_teams
        &&& self.events@ == r.events
    }
}

/// A copy of a list of owners.
fn copy_owners(owners: &Vec<Team>) -> (r: Vec<Team>)
    ensures
        r@ == owners@,
{
    let mut out: Vec<Team> = Vec::new();
    let mut i: usize = 0;
    while i < owners.len()
        invariant
            i <= owners.len(),
            out@ == owners@.subrange(0, i as int),
        decreases owners.len() - i,
    {
        out.push(owners[i]);
        i += 1;
        proof {
            assert(out@ =~= owners@.subrange(0, i as int));
        }
    }
    proof {
        assert(out@ =~= owners@);
    }
    out
}

impl Referee {
    /// The engine call that a referee opens with: allowance is not enforced
    /// and pilots buy ammunition anywhere.
    pub fn initial_policy() -> (r: GameCall)
        ensures
            r == (GameCall::SetPolicy { enforce_allowance: false, exchange_requires_zone: false }),
    {
        GameCall::SetPolicy { enforce_allowance: false, exchange_requires_zone: false }
    }

    /// A referee in Idle for a field with these runes and so many outposts;
    /// the config must own each of them, and no team may own more than one
    /// outpost. `base_travel_ns` is how long the base armor travels.
    pub fn new(
        config: RefereeConfig,
        rune_kinds: Vec<RuneKind>,
        outposts: usize,
        base_travel_ns: u64,
    ) -> (r: Result<Referee, &'static str>)
        ensures
            match config_refusal(config, rune_kinds@.len(), outposts as nat) {
                Some(reason) => r == Err::<Referee, &'static str>(reason),
                None => r is Ok && r->Ok_0@ == (RefereeModel {
                    config: config@,
                    training_kinds: rune_kinds@,
                    base_travel_ns,
                    state: idle_state(),
                    events: Seq::empty(),
                }) && r->Ok_0@.wf(),
            },
    {
        if config.rune_teams.len() != rune_kinds.len() {
            return Err("referee rune_teams must name an owner for every rune");
        }
        if config.outpost_teams.len() != outposts {
            return Err("referee outpost_teams must name an owner for every outpost");
        }
        if count_owned(&config.outpost_teams, Team::Red) > 1 || count_owned(
            &config.outpost_teams,
            Team::Blue,
        ) > 1 {
            return Err("a team can own at most one outpost");
        }
        if config.round_ns == 0 || config.round_ns > ROUND_NS {
            return Err("referee round length must be positive and at most seven minutes");
        }
        if config.robot.fallback.max_hp == 0 {
            return Err("referee robots need some HP");
        }
        Ok(
            Referee {
                config,
                training_kinds: rune_kinds,
                base_travel_ns,
                state: MatchState {
                    phase: MatchPhase::Idle,
                    phase_started_ns: 0,
                    match_started_ns: 0,
                    skipped_ns: 0,
                    finished_match_time_ns: 0,
                    schedule_index: 0,
                    stage: RuneStage::Small,
                    red: Referee::shut_side(),
                    blue: Referee::shut_side(),
                    dart_target_since_ns: None,
                    game_events_seen: 0,
                    now_ns: 0,
                    pending: Pending::Nothing,
                },
                events: VecDeque::new(),
            },
        )
    }

    /// Where the match is in the countdown and round sequence.
    pub fn phase(&self) -> (r: MatchPhase)
        ensures
            r == self.state.phase,
    {
        self.state.phase
    }

    /// Round clock time at the referee's own current time: running time plus
    /// skips, the frozen round time once finished, and zero before a round
    /// starts.
    pub fn match_time_ns(&self) -> (r: u64)
        ensures
            r == self@.match_time(),
    {
        self.match_time(self.state.now_ns)
    }

    /// When the dart targets started sweeping; `None` while they rest.
    pub fn dart_target_since_ns(&self) -> (r: Option<u64>)
        ensures
            r == self.state.dart_target_since_ns,
    {
        self.state.dart_target_since_ns
    }

    /// An outpost's HP in the engine; `None` for an index out of range.
    pub fn outpost_hp(&self, outpost: usize, game: &GameView) -> (r: Option<u32>)
        ensures
            r == (if outpost < self.config.outpost_teams@.len() {
                Some(game.team_state(self.config.outpost_teams@[outpost as int]).outpost_hp)
            } else {
                None
            }),
    {
        if outpost < self.config.outpost_teams.len() {
            Some(game.team(self.config.outpost_teams[outpost]).outpost_hp)
        } else {
            None
        }
    }

    /// A base's HP and shield in the engine.
    pub fn base_hp(&self, team: Team, game: &GameView) -> (r: (u32, u32))
        ensures
            r == (game.team_state(team).base_hp, game.team_state(team).base_shield_hp),
    {
        let state = game.team(team);
        (state.base_hp, state.base_shield_hp)
    }

    /// Innermost ring that still detects on rune `index`: rings 4 to 10 after
    /// one Big Rune activation, 7 to 10 after two.
    pub fn rune_min_ring(&self, index: u32) -> (r: u32)
        ensures
            r == self@.min_ring(index),
    {
        if index as usize >= self.config.rune_teams.len() || self.state.stage != RuneStage::Big {
            return 1;
        }
        let team = self.config.rune_teams[index as usize];
        let done: u32 = self.side(team).team.big_rune_activations;
        if done == 0 {
            1
        } else if done == 1 {
            4
        } else {
            7
        }
    }

    /// Record a scored rune contact. `ring` is the ring it struck. A hit on a
    /// rune whose team is activating it adds its ring to the attempt; a wrong
    /// blade wipes the rings. Other contacts change nothing.
    pub fn observe_hit(&mut self, hit: &ArmorHit, ring: u32)
        requires
            old(self)@.wf(),
        ensures
            final(self)@ == (match old(self)@.attempt_of(*hit) {
                Some(team) => old(self)@.with_team(
                    team,
                    observed(old(self).state.side(team).team, hit.rune_outcome, ring),
                ),
                None => old(self)@,
            }),
            final(self)@.wf(),
    {
        let rune: u32 = match hit.target {
            ArmorTarget::Rune { rune, .. } => rune,
            _ => {
                return;
            },
        };
        if !hit.detected || self.state.phase != MatchPhase::Running || rune as usize
            >= self.config.rune_teams.len() {
            return;
        }
        let team = self.config.rune_teams[rune as usize];
        let mut state = self.side(team).team;
        if state.activating_since_ns.is_none() {
            return;
        }
        match hit.rune_outcome {
            Some(HitOutcome::GroupHit { .. })
            | Some(HitOutcome::Accepted { .. })
            | Some(HitOutcome::Activated { .. }) => {
                state.attempt_arms = state.attempt_arms.saturating_add(1);
                state.attempt_ring_sum = state.attempt_ring_sum.saturating_add(ring as u64);
            },
            Some(HitOutcome::WrongBlade { .. }) => {
                state.attempt_arms = 0;
                state.attempt_ring_sum = 0;
            },
            _ => {},
        }
        self.set_team(team, state);
    }

    /// Give a chassis its robot record. An id already present is refused.
    pub fn add_robot(
        &mut self,
        robot: u32,
        team: Team,
        kind: RobotKind,
        performance: Option<u32>,
        game: &GameView,
    ) -> (r: Progress)
        requires
            old(self)@.wf(),
            old(self).state.pending == Pending::Nothing,
        ensures
            (final(self)@, r) == old(self)@.joining(robot, team, kind, performance, *game),
            r is Refused ==> *final(self) == *old(self),
            final(self)@.wf(),
    {
        if game.robot(robot).is_some() {
            return Progress::Refused("a robot with that id already exists");
        }
        self.wait(Pending::Joining { robot, team });
        let fallback = self.config.robot.fallback;
        Progress::Call(GameCall::AddRobot { robot, team, kind, performance, fallback })
    }

    /// Drop a chassis' robot record when the field removes the chassis.
    pub fn remove_robot(&mut self, robot: u32) -> (r: Progress)
        requires
            old(self)@.wf(),
            old(self).state.pending == Pending::Nothing,
        ensures
            r == Progress::Call(GameCall::RemoveRobot { robot }),
            final(self)@ == old(self)@.waiting(Pending::Leaving { robot }),
            final(self)@.wf(),
    {
        self.wait(Pending::Leaving { robot });
        Progress::Call(GameCall::RemoveRobot { robot })
    }

    /// Account a launch the field made, when a known robot made it.
    pub fn record_launch(&mut self, shooter: Option<u32>, caliber: Caliber, game: &GameView) -> (r:
        Progress)
        requires
            old(self)@.wf(),
            old(self).state.pending == Pending::Nothing,
        ensures
            (final(self)@, r) == old(self)@.launched(shooter, caliber, *game),
            r is Done ==> *final(self) == *old(self),
            final(self)@.wf(),
    {
        if let Some(robot) = shooter {
            if game.robot(robot).is_some() {
                self.wait(Pending::Noted);
                return Progress::Call(GameCall::Launch { robot, caliber });
            }
        }
        Progress::Done
    }

    /// Have the engine apply a detected projectile strike.
    pub fn projectile_hit(&mut self, strike: Strike) -> (r: Progress)
        requires
            old(self)@.wf(),
            old(self).state.pending == Pending::Nothing,
        ensures
            r == Progress::Call(GameCall::Projectile(strike)),
            final(self)@ == old(self)@.waiting(Pending::Noted),
            final(self)@.wf(),
    {
        self.wait(Pending::Noted);
        Progress::Call(GameCall::Projectile(strike))
    }

    /// Have the engine apply damage of a kind that already includes attacker
    /// effects, crediting the target's opponent.
    pub fn damage(&mut self, target: StrikeTarget, amount: u32, kind: DamageKind) -> (r: Progress)
        requires
            old(self)@.wf(),
            old(self).state.pending == Pending::Nothing,
        ensures
            r == Progress::Call(GameCall::Damage { target, amount, kind }),
            final(self)@ == old(self)@.waiting(Pending::Noted),
            final(self)@.wf(),
    {
        self.wait(Pending::Noted);
        Progress::Call(GameCall::Damage { target, amount, kind })
    }

    /// Report whether a robot stands on a buff point. Only a running round
    /// records zone contacts, and only a change is forwarded.
    pub fn observe_zone(&mut self, robot: u32, zone: Zone, detected: bool, game: &GameView) -> (r:
        Progress)
        requires
            old(self)@.wf(),
            old(self).state.pending == Pending::Nothing,
        ensures
            if old(self).state.phase == MatchPhase::Running && robot_in(
                game.robots@,
                robot,
            ) is Some && stands_on(game.contacts@, robot, zone) != detected {
                &&& r == Progress::Call(GameCall::ZoneDetection { robot, zone, detected })
                &&& final(self)@ == old(self)@.waiting(Pending::Noted)
            } else {
                r == Progress::Done && *final(self) == *old(self)
            },
            final(self)@.wf(),
    {
        if self.state.phase != MatchPhase::Running || game.robot(robot).is_none() {
            return Progress::Done;
        }
        if game.stands(robot, zone) == detected {
            return Progress::Done;
        }
        self.wait(Pending::Noted);
        Progress::Call(GameCall::ZoneDetection { robot, zone, detected })
    }

    /// Every robot record, summarised, in join order.
    pub fn robots(game: &GameView) -> (r: Vec<RobotSnapshot>)
        ensures
            r@ == game.robots@.map_values(|robot: RobotState| robot_frame(robot)),
    {
        let mut out: Vec<RobotSnapshot> = Vec::new();
        let mut i: usize = 0;
        let ghost all = game.robots@.map_values(|robot: RobotState| robot_frame(robot));
        while i < game.robots.len()
            invariant
                i <= game.robots.len(),
                all == game.robots@.map_values(|robot: RobotState| robot_frame(robot)),
                out@ == all.subrange(0, i as int),
            decreases game.robots.len() - i,
        {
            let robot = game.robots[i];
            out.push(
                RobotSnapshot {
                    id: robot.id,
                    team: robot.team,
                    kind: robot.kind,
                    hp: if robot.ejected {
                        0
                    } else {
                        robot.hp
                    },
                    max_hp: robot.max_hp,
                    level: robot.level,
                    weakened: robot.weakened,
                },
            );
            i += 1;
            proof {
                assert(out@ =~= all.subrange(0, i as int));
            }
        }
        proof {
            assert(out@ =~= all);
        }
        out
    }

    /// Whether the robot is off the field; `None` for an unknown id.
    pub fn robot_defeated(robot: u32, game: &GameView) -> (r: Option<bool>)
        ensures
            r == defeated_in(game.robots@, robot),
    {
        match game.robot(robot) {
            Some(state) => Some(!state.alive),
            None => None,
        }
    }

    /// The recent events, oldest first.
    pub fn events(&self) -> (r: Vec<TimedEvent>)
        ensures
            r@ == self.events@,
    {
        let mut out: Vec<TimedEvent> = Vec::new();
        let mut i: usize = 0;
        while i < self.events.len()
            invariant
                i <= self.events@.len(),
                out@ == self.events@.subrange(0, i as int),
            decreases self.events@.len() - i,
        {
            out.push(self.events[i]);
            i += 1;
            proof {
                assert(out@ =~= self.events@.subrange(0, i as int));
            }
        }
        proof {
            assert(out@ =~= self.events@);
        }
        out
    }

    /// A copy of the referee.
    pub fn copied(&self) -> (r: Referee)
        ensures
            r@ == self@,
    {
        let mut events: VecDeque<TimedEvent> = VecDeque::new();
        let mut i: usize = 0;
        while i < self.events.len()
            invariant
                i <= self.events@.len(),
                events@ == self.events@.subrange(0, i as int),
            decreases self.events@.len() - i,
        {
            events.push_back(self.events[i]);
            i += 1;
            proof {
                assert(events@ =~= self.events@.subrange(0, i as int));
            }
        }
        proof {
            assert(events@ =~= self.events@);
        }
        Referee {
            config: RefereeConfig {
                rune_teams: copy_owners(&self.config.rune_teams),
                outpost_teams: copy_owners(&self.config.outpost_teams),
                robot: self.config.robot,
                round_ns: self.config.round_ns,
                countdown_ns: self.config.countdown_ns,
                seed: self.config.seed,
            },
            training_kinds: slice_to_vec(self.training_kinds.as_slice()),
            base_travel_ns: self.base_travel_ns,
            state: self.state,
            events,
        }
    }

    /// The referee's public state at its current timestamp, including the
    /// event list. Taking one never advances the clock.
    pub fn snapshot(&self, game: &GameView) -> (r: RefereeSnapshot)
        ensures
            r.shows(self@, game.robots@),
    {
        let s = &self.state;
        let match_time_ns: u64 = self.match_time(s.now_ns);
        RefereeSnapshot {
            base_open: [s.red.base_open, s.blue.base_open],
            base_moved_ns: [s.red.base_moved_ns, s.blue.base_moved_ns],
            dart_door_open: [s.red.dart_door_open, s.blue.dart_door_open],
            dart_target_since_ns: s.dart_target_since_ns,
            phase: s.phase,
            match_time_ns,
            remaining_ns: self.config.round_ns.saturating_sub(match_time_ns),
            countdown_remaining_ns: if s.phase == MatchPhase::Countdown {
                self.config.countdown_ns.saturating_sub(
                    s.now_ns.saturating_sub(s.phase_started_ns),
                )
            } else {
                0
            },
            stage: s.stage,
            teams: [show_team(Team::Red, s.red.team), show_team(Team::Blue, s.blue.team)],
            robots: Referee::robots(game),
            rune_teams: copy_owners(&self.config.rune_teams),
            outpost_teams: copy_owners(&self.config.outpost_teams),
            events: self.events(),
        }
    }

    /// Whether a side agrees with the clocks and the phase.
    fn side_is_consistent(&self, side: Side) -> (r: bool)
        ensures
            r == self.state.side_wf(side),
    {
        let moved = match side.base_moved_ns {
            Some(moved) => moved <= self.state.now_ns,
            None => true,
        };
        let attempt = match side.team.activating_since_ns {
            Some(since) => self.state.phase == MatchPhase::Running && since <= self.match_time(
                self.state.now_ns,
            ),
            None => true,
        };
        moved && attempt && (side.team.buff.is_none() || self.state.phase == MatchPhase::Running)
    }

    /// Whether the invariant holds and nothing is pending, for a referee that
    /// no constructor made.
    pub fn is_consistent(&self) -> (r: bool)
        ensures
            r == (self@.wf() && self.state.pending == Pending::Nothing),
    {
        let s = &self.state;
        let big = s.stage == RuneStage::Big;
        if s.pending != Pending::Nothing || self.config.round_ns == 0 || self.config.round_ns
            > ROUND_NS || self.config.rune_teams.len() != self.training_kinds.len()
            || self.events.len() > EVENT_MEMORY || s.schedule_index > SCHEDULE_LEN || big != (
        s.schedule_index >= 3) {
            return false;
        }
        if s.skipped_ns > self.config.round_ns || s.finished_match_time_ns > self.config.round_ns
            || s.phase_started_ns > s.now_ns || s.match_started_ns > s.now_ns {
            return false;
        }
        self.side_is_consistent(s.red) && self.side_is_consistent(s.blue)
    }
}

} // verus!

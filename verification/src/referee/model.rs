//! What the referee is and how each input moves it on.
use super::rules::big_buff;
use super::{
    BuffState, ConfigModel, MatchPhase, RefereeCommand, RefereeEvent, RuneStage, TimedEvent,
    BIG_RUNE_STAGE_NS, EVENT_MEMORY, ROUND_NS, RUNE_ACTIVATING_WINDOW_NS, SEED_FACTOR,
    SMALL_RUNE_BUFF_NS, SMALL_RUNE_DEFENSE_PCT,
};
use crate::game::{
    robot_in, DamageKind, GameCall, GameError, GameEventKind, GamePhase, GameView, StrikeTarget,
    TICK_NS,
};
use crate::rune::runner::{Rune, RuneModel};
use crate::rune::stream::seeded;
use crate::rune::{RuneKind, RuneState};
use crate::target::Team;
use vstd::prelude::*;

verus! {

/// One team's round state: rune opportunities, activations and the current
/// buff.
#[derive(Clone, Copy, Debug, PartialEq, Eq, Structural)]
pub struct TeamState {
    /// Unspent opportunities; they accumulate.
    pub rune_opportunities: u32,
    /// Big Rune activations completed, which narrows the detecting rings.
    pub big_rune_activations: u32,
    /// Round time the rune was triggered, while it is Activating.
    pub activating_since_ns: Option<u64>,
    /// The team's active buff.
    pub buff: Option<BuffState>,
    /// Rings struck during the current attempt.
    pub attempt_arms: u32,
    /// Sum of those rings.
    pub attempt_ring_sum: u64,
    /// Progress of the rune when it was last looked at.
    pub last_completed_groups: u32,
}

/// One team's side of the field.
#[derive(Clone, Copy, Debug, PartialEq, Eq, Structural)]
pub struct Side {
    /// The team's round state.
    pub team: TeamState,
    /// The base armor is open or opening.
    pub base_open: bool,
    /// When the base armor set off toward that; `None` at rest.
    pub base_moved_ns: Option<u64>,
    /// The dart door is open.
    pub dart_door_open: bool,
}

/// What the referee waits for.
#[derive(Clone, Copy, Debug, PartialEq, Eq, Structural)]
pub enum Pending {
    /// Nothing.
    Nothing,
    /// The answer to a forwarded command; the referee's time was `since_ns`.
    Forwarded { since_ns: u64 },
    /// A call whose answer does not matter.
    Noted,
    /// An outpost's HP was set; it fell when `destroyed`.
    OutpostSet { team: Team, destroyed: bool, since_ns: u64 },
    /// A round was decided.
    Adjudicated { since_ns: u64 },
    /// A team's rune buff was set.
    BuffSet { team: Team, buff: BuffState, since_ns: u64 },
    /// The engine is reset; a match starts next when `start`.
    Resetting { start: bool },
    /// A match is opened; `done` teams without an outpost were looked at.
    Opening { done: u32 },
    /// The engine catches up before a skip to a round time.
    SkipStep { match_time_ns: u64 },
    /// The engine waits out its countdown before the round ends.
    FinishStep,
    /// The engine ends the round.
    FinishEnd,
    /// The engine waits out its countdown.
    CountdownStep,
    /// The engine catches up with the round clock.
    RoundStep,
    /// The engine was told of a completed rune.
    RuneActivated { team: Team, arms: u32, ring_sum: u64, buff: BuffState },
    /// The engine took an expired buff.
    BuffCleared { team: Team },
    /// The engine opens a robot record.
    Joining { robot: u32, team: Team },
    /// The engine drops a robot record.
    Leaving { robot: u32 },
}

/// What comes of an input.
#[derive(Clone, Copy, Debug, PartialEq, Eq)]
pub enum Progress {
    /// The engine has to make this call before the referee goes on.
    Call(GameCall),
    /// The input is dealt with.
    Done,
    /// The input is refused.
    Refused(&'static str),
}

/// The referee's state but for its configuration and its events.
#[derive(Clone, Copy, Debug, PartialEq, Eq, Structural)]
pub struct MatchState {
    /// Where the match is.
    pub phase: MatchPhase,
    /// When the phase began, on the field clock.
    pub phase_started_ns: u64,
    /// When the round began, on the field clock.
    pub match_started_ns: u64,
    /// Round time skipped.
    pub skipped_ns: u64,
    /// Round time at the end of a finished match.
    pub finished_match_time_ns: u64,
    /// Scheduled items that are done.
    pub schedule_index: u32,
    /// Small Rune stage or Big Rune stage.
    pub stage: RuneStage,
    /// Red's side.
    pub red: Side,
    /// Blue's side.
    pub blue: Side,
    /// When the dart targets started sweeping; `None` at rest.
    pub dart_target_since_ns: Option<u64>,
    /// Number of the first engine report not yet taken over.
    pub game_events_seen: u64,
    /// Field time of the referee.
    pub now_ns: u64,
    /// What the referee waits for.
    pub pending: Pending,
}

/// What a scheduled moment of the round brings.
#[derive(Clone, Copy, Debug, PartialEq, Eq, Structural)]
pub enum Scheduled {
    /// Each team gets a Small Rune opportunity.
    SmallOpportunity,
    /// The runes convert to Big.
    BigStage,
    /// Each team gets a Big Rune opportunity.
    BigOpportunity,
}

/// Scheduled moments of a round.
pub const SCHEDULE_LEN: u32 = 6;

/// The schedule: Small Rune opportunities at 0:00 and 1:30, the Big Rune stage
/// at 3:00, Big Rune opportunities at 3:00, 4:15 and 5:30.
pub open spec fn schedule(index: u32) -> (u64, Scheduled) {
    if index == 0 {
        (0, Scheduled::SmallOpportunity)
    } else if index == 1 {
        (90_000_000_000, Scheduled::SmallOpportunity)
    } else if index == 2 {
        (BIG_RUNE_STAGE_NS, Scheduled::BigStage)
    } else if index == 3 {
        (180_000_000_000, Scheduled::BigOpportunity)
    } else if index == 4 {
        (255_000_000_000, Scheduled::BigOpportunity)
    } else {
        (330_000_000_000, Scheduled::BigOpportunity)
    }
}

/// A team at the start of a match.
pub open spec fn fresh_team() -> TeamState {
    TeamState {
        rune_opportunities: 0,
        big_rune_activations: 0,
        activating_since_ns: None,
        buff: None,
        attempt_arms: 0,
        attempt_ring_sum: 0,
        last_completed_groups: 0,
    }
}

/// A side at the start of a match: base shut, dart door open.
pub open spec fn fresh_side() -> Side {
    Side {
        team: fresh_team(),
        base_open: false,
        base_moved_ns: None,
        dart_door_open: true,
    }
}

impl TeamState {
    /// The team without the rings of its attempt.
    pub open spec fn without_rings(self) -> TeamState {
        TeamState { attempt_arms: 0, attempt_ring_sum: 0, ..self }
    }

    /// The team without an attempt under way.
    pub open spec fn without_attempt(self) -> TeamState {
        TeamState { activating_since_ns: None, ..self.without_rings() }
    }
}

impl MatchState {
    /// A team's side.
    pub open spec fn side(self, team: Team) -> Side {
        match team {
            Team::Red => self.red,
            Team::Blue => self.blue,
        }
    }

    /// The state with a team's side replaced.
    pub open spec fn with_side(self, team: Team, side: Side) -> MatchState {
        match team {
            Team::Red => MatchState { red: side, ..self },
            Team::Blue => MatchState { blue: side, ..self },
        }
    }

    /// The state with a team's round state replaced.
    pub open spec fn with_team(self, team: Team, state: TeamState) -> MatchState {
        self.with_side(team, Side { team: state, ..self.side(team) })
    }

    /// Round clock time at `now_ns`: running time plus skips, the frozen round
    /// time once finished, and zero before a round starts.
    pub open spec fn match_time(self, now_ns: u64) -> u64 {
        match self.phase {
            MatchPhase::Running => now_ns.saturating_sub(self.match_started_ns).saturating_add(
                self.skipped_ns,
            ),
            MatchPhase::Finished => self.finished_match_time_ns,
            _ => 0,
        }
    }

    /// A team's base armor sets off toward `open` from where it is now, so a
    /// reversal mid-travel continues smoothly.
    pub open spec fn base_sent(self, team: Team, open: bool, travel_ns: u64) -> MatchState {
        let side = self.side(team);
        if side.base_open == open {
            self
        } else {
            let done = match side.base_moved_ns {
                None => 0,
                Some(moved) => {
                    let gone = self.now_ns.saturating_sub(moved);
                    if gone < travel_ns {
                        travel_ns - gone
                    } else {
                        0
                    }
                },
            };
            self.with_side(
                team,
                Side {
                    base_open: open,
                    base_moved_ns: Some(self.now_ns.saturating_sub(done as u64)),
                    ..side
                },
            )
        }
    }

    /// A base that finished its travel rests.
    pub open spec fn base_rested(self, team: Team, travel_ns: u64) -> MatchState {
        let side = self.side(team);
        match side.base_moved_ns {
            Some(moved) if self.now_ns.saturating_sub(moved) >= travel_ns => self.with_side(
                team,
                Side { base_moved_ns: None, ..side },
            ),
            _ => self,
        }
    }
}

/// The referee and its events.
pub ghost struct RefereeModel {
    pub config: ConfigModel,
    pub training_kinds: Seq<RuneKind>,
    pub base_travel_ns: u64,
    pub state: MatchState,
    pub events: Seq<TimedEvent>,
}

/// The first index that a team owns.
pub open spec fn owned_index(owners: Seq<Team>, team: Team, from: nat) -> Option<nat>
    decreases owners.len() - from,
{
    if from >= owners.len() {
        None
    } else if owners[from as int] == team {
        Some(from)
    } else {
        owned_index(owners, team, from + 1)
    }
}

/// A team's first index is one of the owners'.
pub proof fn owned_index_is_owned(owners: Seq<Team>, team: Team, from: nat)
    ensures
        match owned_index(owners, team, from) {
            Some(index) => from <= index < owners.len() && owners[index as int] == team,
            None => true,
        },
    decreases owners.len() - from,
{
    if from < owners.len() && owners[from as int] != team {
        owned_index_is_owned(owners, team, from + 1);
    }
}

/// Runes by what they are.
pub open spec fn models(runes: Seq<Rune>) -> Seq<RuneModel> {
    runes.map_values(|rune: Rune| rune@)
}

/// None of the first `n` runes is past `now_ns` that was not before.
pub open spec fn times_kept(
    n: nat,
    before: Seq<RuneModel>,
    after: Seq<RuneModel>,
    now_ns: u64,
) -> bool {
    &&& after.len() == before.len()
    &&& forall|i: int|
        0 <= i < n ==> (#[trigger] after[i]).time_ns() <= now_ns || after[i].time_ns()
            <= before[i].time_ns()
}

/// The seed of a rune's own stream.
pub open spec fn rune_seed(seed: u64, index: int) -> u64 {
    seed.wrapping_mul(SEED_FACTOR).wrapping_add((index + 1) as u64)
}

/// An event list with one more event; the oldest leave.
pub open spec fn remembered(events: Seq<TimedEvent>, event: TimedEvent) -> Seq<TimedEvent> {
    let all = events.push(event);
    if all.len() > EVENT_MEMORY {
        all.subrange(all.len() - EVENT_MEMORY, all.len() as int)
    } else {
        all
    }
}

/// Whole engine ticks that cover a time, at least one.
pub open spec fn covering_ticks(ns: u64) -> u64 {
    if ns == 0 {
        1
    } else {
        ((ns + TICK_NS - 1) / TICK_NS as int) as u64
    }
}

impl RefereeModel {
    /// The first rune a team owns.
    pub open spec fn rune_of(self, team: Team) -> Option<nat> {
        owned_index(self.config.rune_teams, team, 0)
    }

    /// The outpost a team owns.
    pub open spec fn outpost_of(self, team: Team) -> Option<nat> {
        owned_index(self.config.outpost_teams, team, 0)
    }

    /// Round clock time at the referee's own time.
    pub open spec fn match_time(self) -> u64 {
        self.state.match_time(self.state.now_ns)
    }

    /// The referee with a state.
    pub open spec fn with(self, state: MatchState) -> RefereeModel {
        RefereeModel { state, ..self }
    }

    /// The referee with what it waits for.
    pub open spec fn waiting(self, pending: Pending) -> RefereeModel {
        self.with(MatchState { pending, ..self.state })
    }

    /// The referee with a team's round state.
    pub open spec fn with_team(self, team: Team, state: TeamState) -> RefereeModel {
        self.with(self.state.with_team(team, state))
    }

    /// The referee with one more event, stamped with its clocks.
    pub open spec fn told(self, event: RefereeEvent) -> RefereeModel {
        let match_time_ns = match self.state.phase {
            MatchPhase::Running | MatchPhase::Finished => Some(self.match_time()),
            _ => None,
        };
        RefereeModel {
            events: remembered(
                self.events,
                TimedEvent { time_ns: self.state.now_ns, match_time_ns, event },
            ),
            ..self
        }
    }

    /// The referee after it announced a team's lost outpost, if it has one.
    pub open spec fn told_outpost(self, team: Team) -> RefereeModel {
        match self.outpost_of(team) {
            Some(index) => self.told(
                RefereeEvent::OutpostDestroyed { outpost: index as u32, team },
            ),
            None => self,
        }
    }

    /// The referee after taking over one engine report.
    #[verifier::opaque]
    pub open spec fn reported(self, kind: GameEventKind, game: GameView) -> RefereeModel {
        match kind {
            GameEventKind::RobotDamage { robot, shooter, hp, shield } => if hp > 0 || shield > 0 {
                let left = match robot_in(game.robots@, robot) {
                    Some(state) => state.hp,
                    None => 0,
                };
                self.told(RefereeEvent::RobotDamaged { robot, amount: hp, hp: left, shooter })
            } else {
                self
            },
            GameEventKind::BaseDamage { team, shooter, hp, shield } => if hp > 0 || shield > 0 {
                let left = game.team_state(team);
                let told = self.told(
                    RefereeEvent::BaseDamaged {
                        team,
                        amount: hp.saturating_add(shield),
                        hp: left.base_hp,
                        shield_hp: left.base_shield_hp,
                        shooter,
                    },
                );
                if left.base_hp == 0 {
                    told.told(RefereeEvent::BaseDestroyed { team })
                } else {
                    told
                }
            } else {
                self
            },
            GameEventKind::OutpostDamage { team, hp, shield } => if (hp > 0 || shield > 0)
                && game.team_state(team).outpost_hp == 0 {
                self.told_outpost(team)
            } else {
                self
            },
            GameEventKind::RobotDefeated(robot) => self.told(
                RefereeEvent::RobotDefeated { robot },
            ),
            GameEventKind::RobotRespawned(robot) => self.told(
                RefereeEvent::RobotRespawned { robot },
            ),
            GameEventKind::RobotRevived(robot) => self.told(RefereeEvent::RobotRevived { robot }),
            GameEventKind::WeaknessCleared(robot) => self.told(
                RefereeEvent::WeaknessCleared { robot },
            ),
            GameEventKind::OutpostRebuilt(team) => self.told(
                RefereeEvent::OutpostRebuilt { team },
            ),
            GameEventKind::LevelChanged { robot, level } => self.told(
                RefereeEvent::LevelUp { robot, level },
            ),
            GameEventKind::TerrainCrossing { robot, kind } => self.told(
                RefereeEvent::TerrainCrossing { robot, kind },
            ),
            GameEventKind::BaseArmorExpanded(team) => self.with(
                self.state.base_sent(team, true, self.base_travel_ns),
            ).told(RefereeEvent::BaseArmorExpanded { team }),
            GameEventKind::Other => self,
        }
    }

    /// The referee after taking over the first `n` engine reports, those it
    /// has seen left out.
    pub open spec fn reported_first(self, game: GameView, n: nat) -> RefereeModel
        decreases n,
    {
        if n == 0 {
            self
        } else {
            let before = self.reported_first(game, (n - 1) as nat);
            let event = game.events@[n - 1];
            if event.id >= self.state.game_events_seen {
                before.reported(event.kind, game)
            } else {
                before
            }
        }
    }

    /// The referee after taking over every engine report it has not seen.
    #[verifier::opaque]
    pub open spec fn drained(self, game: GameView) -> RefereeModel {
        let all = self.reported_first(game, game.events@.len());
        all.with(MatchState { game_events_seen: game.next_event_id, ..all.state })
    }

    /// Round ticks that the engine is behind the round clock.
    pub open spec fn ticks_behind(self, game: GameView) -> u64 {
        if game.phase != GamePhase::Running {
            0
        } else {
            let t = self.match_time();
            let target = (if t < self.config.round_ns {
                t
            } else {
                self.config.round_ns
            }) / TICK_NS;
            target.saturating_sub(game.round_ticks)
        }
    }

    /// Both teams receive a rune opportunity of a stage.
    pub open spec fn granted(self, team: Team, stage: RuneStage) -> RefereeModel {
        let state = self.state.side(team).team;
        let total = state.rune_opportunities.saturating_add(1);
        self.with_team(team, TeamState { rune_opportunities: total, ..state }).told(
            RefereeEvent::RuneOpportunity { team, stage, total },
        )
    }
}

impl MatchState {
    /// A side's stamps are not in the future, and it has an attempt or a buff
    /// only while a round is running.
    pub open spec fn side_wf(self, side: Side) -> bool {
        &&& match side.base_moved_ns {
            Some(moved) => moved <= self.now_ns,
            None => true,
        }
        &&& match side.team.activating_since_ns {
            Some(since) => self.phase == MatchPhase::Running && since <= self.match_time(
                self.now_ns,
            ),
            None => true,
        }
        &&& side.team.buff is Some ==> self.phase == MatchPhase::Running
    }

    /// No attempt and no buff on either side.
    pub open spec fn sides_quiet(self) -> bool {
        &&& self.red.team.activating_since_ns is None && self.red.team.buff is None
        &&& self.blue.team.activating_since_ns is None && self.blue.team.buff is None
    }

    /// The state with its time put back, waiting for nothing.
    pub open spec fn back_to(self, since_ns: u64) -> MatchState {
        MatchState { now_ns: since_ns, pending: Pending::Nothing, ..self }
    }

    /// Nothing in the state is later than `since_ns`.
    pub open spec fn stood_at(self, since_ns: u64) -> bool {
        &&& since_ns <= self.now_ns
        &&& self.phase_started_ns <= since_ns
        &&& self.match_started_ns <= since_ns
        &&& self.back_to(since_ns).side_wf(self.red)
        &&& self.back_to(since_ns).side_wf(self.blue)
    }

    /// What the referee waits for agrees with the phase it is in, and a
    /// command that the engine may refuse has changed nothing yet.
    pub open spec fn pending_wf(self) -> bool {
        match self.pending {
            Pending::Forwarded { since_ns }
            | Pending::OutpostSet { since_ns, .. }
            | Pending::Adjudicated { since_ns } => self.stood_at(since_ns),
            Pending::BuffSet { since_ns, .. } => self.stood_at(since_ns) && self.phase
                == MatchPhase::Running,
            Pending::FinishStep
            | Pending::FinishEnd
            | Pending::Resetting { .. }
            | Pending::Opening { .. } => self.sides_quiet(),
            Pending::CountdownStep => self.phase == MatchPhase::Countdown,
            Pending::RoundStep
            | Pending::SkipStep { .. }
            | Pending::RuneActivated { .. }
            | Pending::BuffCleared { .. } => self.phase == MatchPhase::Running,
            _ => true,
        }
    }

    /// Nothing but the bases' travel and the reports seen is changed.
    pub open spec fn differs_in_bases(self, other: MatchState) -> bool {
        other == (MatchState {
            red: Side {
                base_open: other.red.base_open,
                base_moved_ns: other.red.base_moved_ns,
                ..self.red
            },
            blue: Side {
                base_open: other.blue.base_open,
                base_moved_ns: other.blue.base_moved_ns,
                ..self.blue
            },
            game_events_seen: other.game_events_seen,
            ..self
        })
    }
}

impl RefereeModel {
    /// The referee's invariant: a round of at most seven minutes, at most so
    /// many events, clocks that are not in the future, a Big stage exactly
    /// after its scheduled moment, and sides that agree with the phase.
    pub open spec fn wf(self) -> bool {
        let s = self.state;
        &&& 0 < self.config.round_ns <= ROUND_NS
        &&& self.config.rune_teams.len() == self.training_kinds.len()
        &&& self.events.len() <= EVENT_MEMORY
        &&& s.schedule_index <= SCHEDULE_LEN
        &&& s.stage == RuneStage::Big <==> s.schedule_index >= 3
        &&& s.skipped_ns <= self.config.round_ns
        &&& s.finished_match_time_ns <= self.config.round_ns
        &&& s.phase_started_ns <= s.now_ns
        &&& s.match_started_ns <= s.now_ns
        &&& s.side_wf(s.red)
        &&& s.side_wf(s.blue)
        &&& s.pending_wf()
    }

    /// Taking over reports keeps the invariant and changes nothing but events
    /// and the bases' travel.
    pub proof fn reports_keep_wf(self, game: GameView, n: nat)
        requires
            self.wf(),
            self.state.pending == Pending::Nothing,
            n <= game.events@.len(),
        ensures
            self.reported_first(game, n).wf(),
            self.state.differs_in_bases(self.reported_first(game, n).state),
            self.reported_first(game, n).state.game_events_seen == self.state.game_events_seen,
            self.reported_first(game, n) == (RefereeModel {
                state: self.reported_first(game, n).state,
                events: self.reported_first(game, n).events,
                ..self
            }),
        decreases n,
    {
        reveal(RefereeModel::reported);
        if n > 0 {
            self.reports_keep_wf(game, (n - 1) as nat);
        }
    }

    /// Taking over the engine's reports keeps the invariant and changes
    /// nothing but events and the bases' travel.
    pub proof fn draining_keeps_wf(self, game: GameView)
        requires
            self.wf(),
            self.state.pending == Pending::Nothing,
        ensures
            self.drained(game).wf(),
            self.state.differs_in_bases(self.drained(game).state),
            self.drained(game) == (RefereeModel {
                state: self.drained(game).state,
                events: self.drained(game).events,
                ..self
            }),
    {
        reveal(RefereeModel::drained);
        self.reports_keep_wf(game, game.events@.len());
    }
}

/// The referee and the runes it drives.
pub ghost struct Play {
    pub referee: RefereeModel,
    pub runes: Seq<RuneModel>,
}

impl Play {
    /// The same runes under another referee.
    pub open spec fn under(self, referee: RefereeModel) -> Play {
        Play { referee, ..self }
    }

    /// The invariants of the referee and of every rune; there is a rune for
    /// every owner.
    pub open spec fn wf(self) -> bool {
        &&& self.referee.wf()
        &&& self.referee.config.rune_teams.len() <= self.runes.len()
        &&& forall|i: int| 0 <= i < self.runes.len() ==> (#[trigger] self.runes[i]).wf()
    }

    /// No rune of the referee is ahead of `now_ns`.
    pub open spec fn runes_by(self, now_ns: u64) -> bool {
        forall|i: int|
            0 <= i < self.referee.config.rune_teams.len() ==> (
            #[trigger] self.runes[i]).time_ns() <= now_ns
    }

    /// The rune that a team plays with is not ahead of `now_ns`.
    pub open spec fn team_by(self, team: Team, now_ns: u64) -> bool {
        match self.referee.rune_of(team) {
            Some(index) => self.runes[index as int].time_ns() <= now_ns,
            None => true,
        }
    }

    /// No rune that a team plays with is ahead of `now_ns`.
    pub open spec fn driven_by(self, now_ns: u64) -> bool {
        self.team_by(Team::Red, now_ns) && self.team_by(Team::Blue, now_ns)
    }

    /// No rune that the Big Rune stage would convert is ahead of `now_ns`.
    pub open spec fn convertible_by(self, now_ns: u64) -> bool {
        forall|i: int|
            0 <= i < self.referee.config.rune_teams.len() && (#[trigger] self.runes[i]).kind()
                != RuneKind::Big ==> self.runes[i].time_ns() <= now_ns
    }

    /// No rune that a running round drives at `now_ns` is ahead of it: those
    /// that the teams play with, and all that convert when the Big Rune stage is
    /// due.
    pub open spec fn plays_by(self, now_ns: u64) -> bool {
        &&& self.driven_by(now_ns)
        &&& self.referee.state.schedule_index <= 2 && self.referee.state.match_time(now_ns)
            >= BIG_RUNE_STAGE_NS ==> self.convertible_by(now_ns)
    }

    /// The runes are where the referee left them, when it goes on with a tick
    /// or with a rune buff.
    pub open spec fn resumable(self) -> bool {
        match self.referee.state.pending {
            Pending::CountdownStep | Pending::RoundStep => self.plays_by(self.referee.state.now_ns),
            Pending::RuneActivated { .. } | Pending::BuffCleared { .. } => self.driven_by(
                self.referee.state.now_ns,
            ),
            Pending::BuffSet { team, .. } => self.referee.rune_of(team) is Some && self.team_by(
                team,
                self.referee.state.now_ns,
            ),
            _ => true,
        }
    }

    /// Where no owned rune is ahead, none that a round drives is.
    pub proof fn all_by_is_enough(self, now_ns: u64)
        requires
            self.runes_by(now_ns),
        ensures
            self.driven_by(now_ns),
            self.convertible_by(now_ns),
            self.plays_by(now_ns),
    {
        owned_index_is_owned(self.referee.config.rune_teams, Team::Red, 0);
        owned_index_is_owned(self.referee.config.rune_teams, Team::Blue, 0);
    }

    /// Every owned rune goes dark now.
    pub open spec fn darkened(self) -> Play {
        Play {
            runes: Seq::new(
                self.runes.len(),
                |i: int|
                    if i < self.referee.config.rune_teams.len() {
                        self.runes[i].advanced(self.referee.state.now_ns).darkened()
                    } else {
                        self.runes[i]
                    },
            ),
            ..self
        }
    }

    /// Every owned rune is a Big Rune from now on.
    pub open spec fn enlarged(self) -> Play {
        Play {
            runes: Seq::new(
                self.runes.len(),
                |i: int|
                    if i < self.referee.config.rune_teams.len() {
                        self.runes[i].as_kind(RuneKind::Big, self.referee.state.now_ns)
                    } else {
                        self.runes[i]
                    },
            ),
            ..self
        }
    }

    /// Every owned rune is a dark Small Rune under referee control, with its
    /// own seed.
    pub open spec fn controlled(self) -> Play {
        let now = self.referee.state.now_ns;
        Play {
            runes: Seq::new(
                self.runes.len(),
                |i: int|
                    if i < self.referee.config.rune_teams.len() {
                        controlled_rune(self.runes[i], rune_seed(self.referee.config.seed, i), now)
                    } else {
                        self.runes[i]
                    },
            ),
            ..self
        }
    }

    /// Every owned rune is back in training from now on.
    pub open spec fn released(self) -> Play {
        let now = self.referee.state.now_ns;
        Play {
            runes: Seq::new(
                self.runes.len(),
                |i: int|
                    if i < self.referee.config.rune_teams.len() {
                        released_rune(self.runes[i], self.referee.training_kinds[i], now)
                    } else {
                        self.runes[i]
                    },
            ),
            ..self
        }
    }

    /// One item of the schedule takes effect.
    #[verifier::opaque]
    pub open spec fn item_done(self, item: Scheduled) -> Play {
        let index = (self.referee.state.schedule_index + 1) as u32;
        let ticked = self.under(
            self.referee.with(MatchState { schedule_index: index, ..self.referee.state }),
        );
        match item {
            Scheduled::SmallOpportunity => ticked.under(
                ticked.referee.granted(Team::Red, RuneStage::Small).granted(
                    Team::Blue,
                    RuneStage::Small,
                ),
            ),
            Scheduled::BigOpportunity => ticked.under(
                ticked.referee.granted(Team::Red, RuneStage::Big).granted(
                    Team::Blue,
                    RuneStage::Big,
                ),
            ),
            Scheduled::BigStage => {
                let r = ticked.referee;
                let staged = r.with(MatchState { stage: RuneStage::Big, ..r.state });
                let red = staged.with_team(Team::Red, staged.state.red.team.without_attempt());
                let both = red.with_team(Team::Blue, red.state.blue.team.without_attempt());
                ticked.enlarged().under(both.told(RefereeEvent::RuneStage(RuneStage::Big)))
            },
        }
    }

    /// Every scheduled item that is due takes effect, in order.
    pub open spec fn scheduled(self) -> Play
        decreases SCHEDULE_LEN - self.referee.state.schedule_index,
    {
        let index = self.referee.state.schedule_index;
        if index < SCHEDULE_LEN && schedule(index).0 <= self.referee.match_time() {
            let next = self.item_done(schedule(index).1);
            if next.referee.state.schedule_index == index + 1 {
                next.scheduled()
            } else {
                next
            }
        } else {
            self
        }
    }

    /// The buff a completed attempt of a team earns.
    pub open spec fn earned(self, team: Team) -> BuffState {
        let state = self.referee.state.side(team).team;
        let t = self.referee.match_time();
        match self.referee.state.stage {
            RuneStage::Small => BuffState {
                source: RuneStage::Small,
                defense_pct: SMALL_RUNE_DEFENSE_PCT,
                attack_pct: 100,
                cooling_multiplier: 1,
                started_ns: t,
                expires_ns: t.saturating_add(SMALL_RUNE_BUFF_NS),
            },
            RuneStage::Big => big_buff(
                state.attempt_ring_sum,
                state.attempt_arms,
                state.attempt_arms,
                t,
            ),
        }
    }

    /// A rune is brought up to now.
    pub open spec fn rune_at_now(self, index: int) -> Play {
        Play {
            runes: self.runes.update(
                index,
                self.runes[index].advanced(self.referee.state.now_ns),
            ),
            ..self
        }
    }

    /// A rune goes dark now.
    pub open spec fn rune_darkened(self, index: int) -> Play {
        Play {
            runes: self.runes.update(
                index,
                self.runes[index].advanced(self.referee.state.now_ns).darkened(),
            ),
            ..self
        }
    }

    /// A team's attempt moves on: it is completed, expires, loses the rings of
    /// a wiped progress, or ended before. A completed one is a call.
    #[verifier::opaque]
    pub open spec fn attempted(self, team: Team) -> (Play, Option<GameCall>) {
        match self.referee.rune_of(team) {
            None => (self, None),
            Some(owned) => {
                let index = owned as int;
                let p = self.rune_at_now(index);
                let r = p.referee;
                let state = r.state.side(team).team;
                match state.activating_since_ns {
                    None => (p, None),
                    Some(since) => match p.runes[index].state() {
                        RuneState::Activated => {
                            let buff = p.earned(team);
                            let big = r.state.stage == RuneStage::Big;
                            let granted = TeamState {
                                buff: Some(buff),
                                big_rune_activations: if big {
                                    state.big_rune_activations.saturating_add(1)
                                } else {
                                    state.big_rune_activations
                                },
                                ..state.without_attempt()
                            };
                            (
                                p.under(
                                    r.with_team(team, granted).waiting(
                                        Pending::RuneActivated {
                                            team,
                                            arms: state.attempt_arms,
                                            ring_sum: state.attempt_ring_sum,
                                            buff,
                                        },
                                    ),
                                ),
                                Some(
                                    GameCall::RuneActivated {
                                        team,
                                        big,
                                        attack_pct: buff.attack_pct,
                                        defense_pct: buff.defense_pct,
                                        cooling_multiplier: buff.cooling_multiplier,
                                        duration_ticks: covering_ticks(
                                            (buff.expires_ns - buff.started_ns) as u64,
                                        ),
                                    },
                                ),
                            )
                        },
                        RuneState::Activating => if r.match_time() - since
                            >= RUNE_ACTIVATING_WINDOW_NS {
                            (
                                p.rune_darkened(index).under(
                                    r.with_team(team, state.without_attempt()).told(
                                        RefereeEvent::RuneActivationExpired { team },
                                    ),
                                ),
                                None,
                            )
                        } else {
                            let completed = p.runes[index].progress();
                            let kept = if completed < state.last_completed_groups {
                                state.without_rings()
                            } else {
                                state
                            };
                            (
                                p.under(
                                    r.with_team(
                                        team,
                                        TeamState {
                                            last_completed_groups: completed as u32,
                                            ..kept
                                        },
                                    ),
                                ),
                                None,
                            )
                        },
                        RuneState::Inactive => (
                            p.under(
                                r.with_team(team, TeamState { activating_since_ns: None, ..state }),
                            ),
                            None,
                        ),
                    },
                }
            },
        }
    }

    /// A team's buff runs out when its time is over: the rune goes dark and
    /// the engine is called.
    #[verifier::opaque]
    pub open spec fn expired(self, team: Team) -> (Play, Option<GameCall>) {
        let state = self.referee.state.side(team).team;
        match (self.referee.rune_of(team), state.buff) {
            (Some(owned), Some(buff)) if self.referee.match_time() >= buff.expires_ns => (
                self.rune_darkened(owned as int).under(
                    self.referee.with_team(team, TeamState { buff: None, ..state }).waiting(
                        Pending::BuffCleared { team },
                    ),
                ),
                Some(GameCall::ClearRuneBuff { team }),
            ),
            _ => (self, None),
        }
    }

    /// The input is dealt with.
    pub open spec fn done(self) -> (Play, Progress) {
        (self.under(self.referee.waiting(Pending::Nothing)), Progress::Done)
    }

    /// The engine is called before the referee goes on.
    pub open spec fn calling(self, pending: Pending, call: GameCall) -> (Play, Progress) {
        (self.under(self.referee.waiting(pending)), Progress::Call(call))
    }

    /// The round ends: everything goes dark, and the engine's round with it.
    #[verifier::opaque]
    pub open spec fn finishing(self, game: GameView) -> (Play, Progress) {
        let dark = self.darkened();
        let r = dark.referee;
        let t = r.match_time();
        let frozen = r.with(
            MatchState {
                finished_match_time_ns: if t < r.config.round_ns {
                    t
                } else {
                    r.config.round_ns
                },
                ..r.state
            },
        );
        let red = frozen.state.red.team;
        let blue = frozen.state.blue.team;
        let cleared = frozen.with_team(
            Team::Red,
            TeamState { buff: None, ..red.without_attempt() },
        ).with_team(Team::Blue, TeamState { buff: None, ..blue.without_attempt() });
        let p = dark.under(cleared);
        if game.phase == GamePhase::Countdown {
            p.calling(Pending::FinishStep, GameCall::Step { ticks: game.countdown_left_ticks })
        } else {
            p.ending(game)
        }
    }

    /// The engine's running round is ended first.
    #[verifier::opaque]
    pub open spec fn ending(self, game: GameView) -> (Play, Progress) {
        if game.phase == GamePhase::Running {
            self.calling(Pending::FinishEnd, GameCall::EndRound)
        } else {
            self.ended(game)
        }
    }

    /// The match is finished; the result is announced when there is one.
    #[verifier::opaque]
    pub open spec fn ended(self, game: GameView) -> (Play, Progress) {
        let r = self.referee;
        let over = r.with(
            MatchState {
                phase: MatchPhase::Finished,
                phase_started_ns: r.state.now_ns,
                ..r.state
            },
        ).drained(game).told(RefereeEvent::MatchFinished);
        self.under(
            match game.result {
                Some(result) => over.told(RefereeEvent::RoundResult(result)),
                None => over,
            },
        ).done()
    }

    /// The engine catches up with the round clock, then the round moves on.
    #[verifier::opaque]
    pub open spec fn round_advanced(self, game: GameView) -> (Play, Progress) {
        let behind = self.referee.ticks_behind(game);
        if behind > 0 {
            self.calling(Pending::RoundStep, GameCall::Step { ticks: behind })
        } else {
            self.scheduled().red_attempt(game)
        }
    }

    /// Red's attempt, and what follows.
    #[verifier::opaque]
    pub open spec fn red_attempt(self, game: GameView) -> (Play, Progress) {
        let (p, call) = self.attempted(Team::Red);
        match call {
            Some(call) => (p, Progress::Call(call)),
            None => p.red_buff(game),
        }
    }

    /// Red's buff, and what follows.
    #[verifier::opaque]
    pub open spec fn red_buff(self, game: GameView) -> (Play, Progress) {
        let (p, call) = self.expired(Team::Red);
        match call {
            Some(call) => (p, Progress::Call(call)),
            None => p.blue_attempt(game),
        }
    }

    /// Blue's attempt, and what follows.
    #[verifier::opaque]
    pub open spec fn blue_attempt(self, game: GameView) -> (Play, Progress) {
        let (p, call) = self.attempted(Team::Blue);
        match call {
            Some(call) => (p, Progress::Call(call)),
            None => p.blue_buff(game),
        }
    }

    /// Blue's buff, and what follows.
    #[verifier::opaque]
    pub open spec fn blue_buff(self, game: GameView) -> (Play, Progress) {
        let (p, call) = self.expired(Team::Blue);
        match call {
            Some(call) => (p, Progress::Call(call)),
            None => p.round_checked(game),
        }
    }

    /// The round ends when its time is over or the engine's round is. It goes
    /// on while a rune that would have to go dark is ahead.
    #[verifier::opaque]
    pub open spec fn round_checked(self, game: GameView) -> (Play, Progress) {
        if self.referee.match_time() >= self.referee.config.round_ns || game.phase
            != GamePhase::Running {
            if self.runes_by(self.referee.state.now_ns) {
                self.finishing(game)
            } else {
                (self, Progress::Refused("rune rejected the referee's request"))
            }
        } else {
            self.done()
        }
    }

    /// The round clock skips forward, and the engine's with it.
    #[verifier::opaque]
    pub open spec fn skipping(self, match_time_ns: u64, game: GameView) -> (Play, Progress) {
        let r = self.referee;
        let current = r.match_time();
        let target = if match_time_ns < r.config.round_ns {
            match_time_ns
        } else {
            r.config.round_ns
        };
        let skipped = r.with(
            MatchState {
                skipped_ns: (r.state.skipped_ns + target.saturating_sub(current)) as u64,
                ..r.state
            },
        );
        if game.phase == GamePhase::Running {
            self.under(skipped).calling(
                Pending::Noted,
                GameCall::SkipTo { round_ticks: (target / TICK_NS) },
            )
        } else {
            self.under(skipped.drained(game)).done()
        }
    }

    /// Teams without an outpost have none to protect their base: the engine
    /// is told for each, then the countdown starts.
    #[verifier::opaque]
    pub open spec fn opening(self, done: u32, game: GameView) -> (Play, Progress) {
        let r = self.referee;
        if done == 0 && r.outpost_of(Team::Red) is None {
            self.calling(
                Pending::Opening { done: 1 },
                GameCall::SetOutpostHp { team: Team::Red, hp: 0 },
            )
        } else if done <= 1 && r.outpost_of(Team::Blue) is None {
            self.calling(
                Pending::Opening { done: 2 },
                GameCall::SetOutpostHp { team: Team::Blue, hp: 0 },
            )
        } else {
            let counting = r.with(
                MatchState {
                    phase: MatchPhase::Countdown,
                    phase_started_ns: r.state.now_ns,
                    ..r.state
                },
            );
            self.under(counting.told(RefereeEvent::CountdownStarted).drained(game)).done()
        }
    }

    /// The engine's phase refused a command: the referee's time is put back,
    /// and nothing has changed.
    pub open spec fn unchanged_since(self, since_ns: u64, reason: &'static str) -> (
        Play,
        Progress,
    ) {
        let r = self.referee;
        (self.under(r.with(r.state.back_to(since_ns))), Progress::Refused(reason))
    }

    /// A team's rune goes dark and its buff is set under a referee.
    pub open spec fn buffed(self, team: Team, buff: Option<BuffState>, r: RefereeModel) -> Play {
        self.rune_darkened(r.rune_of(team)->0 as int).under(
            r.with_team(
                team,
                TeamState { buff, ..r.state.side(team).team.without_attempt() },
            ),
        )
    }

    /// What the engine reported is taken over; the input is dealt with.
    pub open spec fn settled_in(self, game: GameView) -> (Play, Progress) {
        self.under(self.referee.drained(game)).done()
    }

    /// The referee goes on after the call it waited for: `reply` is the
    /// engine's answer and `game` its state after the call.
    #[verifier::opaque]
    pub open spec fn resumed(self, reply: Result<(), GameError>, game: GameView) -> (
        Play,
        Progress,
    ) {
        let pending = self.referee.state.pending;
        let r = self.referee.waiting(Pending::Nothing);
        match pending {
            Pending::Nothing => self.done(),
            Pending::Forwarded { since_ns } => if reply == Err::<(), GameError>(GameError::Phase) {
                self.unchanged_since(since_ns, GameError::Phase.words())
            } else {
                let (p, _) = self.under(r.drained(game)).done();
                (
                    p,
                    match reply {
                        Ok(()) => Progress::Done,
                        Err(error) => Progress::Refused(error.words()),
                    },
                )
            },
            Pending::Noted => self.under(r.drained(game)).done(),
            Pending::OutpostSet { team, destroyed, since_ns } => match reply {
                Err(error) => if error == GameError::Phase {
                    self.unchanged_since(since_ns, "outpost HP must be at most 1500")
                } else {
                    (self.under(r), Progress::Refused("outpost HP must be at most 1500"))
                },
                Ok(()) => {
                    let told = if destroyed {
                        r.told_outpost(team)
                    } else {
                        r
                    };
                    self.under(told.drained(game)).done()
                },
            },
            Pending::Adjudicated { since_ns } => match reply {
                Err(error) => if error == GameError::Phase {
                    self.unchanged_since(since_ns, error.words())
                } else {
                    (self.under(r), Progress::Refused(error.words()))
                },
                Ok(()) => {
                    let told = match game.result {
                        Some(result) => r.told(RefereeEvent::RoundResult(result)),
                        None => r,
                    };
                    self.under(told.drained(game)).done()
                },
            },
            Pending::BuffSet { team, buff, since_ns } => if reply == Err::<(), GameError>(
                GameError::Phase,
            ) {
                self.unchanged_since(since_ns, GameError::Phase.words())
            } else {
                let (p, _) = self.buffed(team, Some(buff), r).settled_in(game);
                (
                    p,
                    match reply {
                        Ok(()) => Progress::Done,
                        Err(error) => Progress::Refused(error.words()),
                    },
                )
            },
            Pending::Resetting { start } => {
                let seen = r.with(
                    MatchState { game_events_seen: game.next_event_id, ..r.state },
                );
                if start {
                    self.under(seen).calling(
                        Pending::Opening { done: 0 },
                        GameCall::BeginCountdown,
                    )
                } else {
                    let idle = seen.with(
                        MatchState {
                            phase: MatchPhase::Idle,
                            phase_started_ns: seen.state.now_ns,
                            ..seen.state
                        },
                    );
                    self.under(idle.told(RefereeEvent::MatchReset).drained(game)).done()
                }
            },
            Pending::Opening { done } => self.under(r).opening(done, game),
            Pending::SkipStep { match_time_ns } => self.under(r.drained(game)).skipping(
                match_time_ns,
                game,
            ),
            Pending::FinishStep => self.under(r).ending(game),
            Pending::FinishEnd => self.under(r).ended(game),
            Pending::CountdownStep => {
                let d = r.drained(game);
                let running = d.with(
                    MatchState {
                        phase: MatchPhase::Running,
                        phase_started_ns: d.state.now_ns,
                        match_started_ns: d.state.now_ns,
                        skipped_ns: 0,
                        ..d.state
                    },
                );
                self.under(running.told(RefereeEvent::MatchStarted)).round_advanced(game)
            },
            Pending::RoundStep => self.under(r.drained(game)).scheduled().red_attempt(game),
            Pending::RuneActivated { team, arms, ring_sum, buff } => {
                let stage = r.state.stage;
                let p = self.under(
                    r.told(
                        RefereeEvent::RuneActivated { team, stage, arms, ring_sum, buff },
                    ).drained(game),
                );
                match team {
                    Team::Red => p.red_buff(game),
                    Team::Blue => p.blue_buff(game),
                }
            },
            Pending::BuffCleared { team } => {
                let p = self.under(r.told(RefereeEvent::BuffExpired { team }));
                match team {
                    Team::Red => p.blue_attempt(game),
                    Team::Blue => p.round_checked(game),
                }
            },
            Pending::Joining { robot, team } => match reply {
                Err(_) => (
                    self.under(r),
                    Progress::Refused("the performance does not fit the robot class"),
                ),
                Ok(()) => self.under(
                    r.drained(game).told(RefereeEvent::RobotJoined { robot, team }),
                ).done(),
            },
            Pending::Leaving { robot } => match reply {
                Err(error) => (
                    self.under(r),
                    Progress::Refused(error.words()),
                ),
                Ok(()) => self.under(
                    r.drained(game).told(RefereeEvent::RobotLeft { robot }),
                ).done(),
            },
        }
    }

    /// Whether a round is running once `now_ns` is reached.
    pub open spec fn runs_by(self, now_ns: u64) -> bool {
        let s = self.referee.state;
        s.phase == MatchPhase::Running || (s.phase == MatchPhase::Countdown && now_ns
            - s.phase_started_ns >= self.referee.config.countdown_ns)
    }

    /// No rune that a running round drives at `now_ns` is ahead of it: those of
    /// `plays_by`, and every owned one when the round's time is over.
    pub open spec fn drivable(self, now_ns: u64) -> bool {
        &&& self.plays_by(now_ns)
        &&& self.referee.state.match_time(now_ns) >= self.referee.config.round_ns
            ==> self.runes_by(now_ns)
    }

    /// Whether the referee can be brought up to `now_ns`: time does not move
    /// backwards, and no rune it then drives is ahead.
    pub open spec fn tickable(self, now_ns: u64) -> bool {
        &&& self.referee.state.now_ns <= now_ns
        &&& self.runs_by(now_ns) ==> self.drivable(now_ns)
    }

    /// The referee is brought up to `now_ns`.
    pub open spec fn ticked(self, now_ns: u64, game: GameView) -> (Play, Progress) {
        let r = self.referee;
        let state = MatchState { now_ns, ..r.state };
        let rested = state.base_rested(Team::Red, r.base_travel_ns).base_rested(
            Team::Blue,
            r.base_travel_ns,
        );
        let p = self.under(r.with(rested));
        if !self.runs_by(now_ns) {
            p.done()
        } else if r.state.phase == MatchPhase::Countdown {
            p.calling(Pending::CountdownStep, GameCall::Step { ticks: game.countdown_left_ticks })
        } else {
            p.round_advanced(game)
        }
    }

    /// Why the referee itself refuses a command, if it does.
    pub open spec fn refusal(self, command: RefereeCommand, now_ns: u64, game: GameView) -> Option<
        &'static str,
    > {
        let r = self.referee;
        let s = r.state;
        if now_ns < s.now_ns {
            Some("referee time cannot move backwards")
        } else {
            match command {
                RefereeCommand::SetOutpostHp { outpost, .. } => if outpost
                    >= r.config.outpost_teams.len() {
                    Some("unknown outpost")
                } else {
                    None
                },
                RefereeCommand::SetRuneBuff {
                    team,
                    defense_pct,
                    attack_pct,
                    cooling_multiplier,
                    duration_ns,
                } => if s.phase != MatchPhase::Running {
                    Some("the round is not running")
                } else if defense_pct > 100 || attack_pct > 1000 || cooling_multiplier > 100
                    || duration_ns > r.config.round_ns {
                    Some("invalid rune buff parameters")
                } else {
                    match r.rune_of(team) {
                        None => Some("the team has no rune"),
                        Some(index) => if self.runes[index as int].time_ns() > now_ns {
                            Some("rune rejected the referee's request")
                        } else {
                            None
                        },
                    }
                },
                RefereeCommand::StartMatch => if s.phase != MatchPhase::Idle {
                    Some("a match is already in progress; reset it first")
                } else if !self.runes_by(now_ns) {
                    Some("rune rejected the referee's request")
                } else {
                    None
                },
                RefereeCommand::SkipTo { match_time_ns } => if s.phase != MatchPhase::Running {
                    Some("the round is not running")
                } else if match_time_ns < s.match_time(now_ns) {
                    Some("the round clock cannot move backwards")
                } else {
                    None
                },
                RefereeCommand::FinishMatch => if s.phase != MatchPhase::Countdown && s.phase
                    != MatchPhase::Running {
                    Some("no match to finish")
                } else if !self.runes_by(now_ns) {
                    Some("rune rejected the referee's request")
                } else {
                    None
                },
                RefereeCommand::Adjudicate { .. } => if s.phase != MatchPhase::Finished {
                    Some("no finished round to decide")
                } else {
                    None
                },
                RefereeCommand::ResetMatch => if s.phase == MatchPhase::Idle {
                    Some("no match to reset")
                } else if !self.runes_by(now_ns) {
                    Some("rune rejected the referee's request")
                } else {
                    None
                },
                RefereeCommand::ActivateRune { team } => if s.phase != MatchPhase::Running {
                    Some("the round is not running")
                } else {
                    match r.rune_of(team) {
                        None => Some("the team has no rune"),
                        Some(index) => if s.side(team).team.rune_opportunities == 0 {
                            Some("the team has no rune opportunity")
                        } else if self.runes[index as int].state() != RuneState::Inactive {
                            Some("the team's rune is not inactive")
                        } else if s.side(team).team.buff is Some {
                            Some("the team's rune buff is still active")
                        } else if self.runes[index as int].time_ns() > now_ns {
                            Some("rune rejected the referee's request")
                        } else {
                            None
                        },
                    }
                },
                RefereeCommand::DamageRobot { robot, .. } => match robot_in(game.robots@, robot) {
                    None => Some("unknown robot id"),
                    Some(state) => if !state.alive {
                        Some("the robot is already defeated")
                    } else {
                        None
                    },
                },
                _ => None,
            }
        }
    }

    /// A forwarded command.
    pub open spec fn forwarding(self, call: GameCall, since_ns: u64) -> (Play, Progress) {
        self.calling(Pending::Forwarded { since_ns }, call)
    }

    /// The referee was set and takes over what the engine reported.
    pub open spec fn settled(self, referee: RefereeModel, game: GameView) -> (Play, Progress) {
        self.under(referee.drained(game)).done()
    }

    /// The engine's reports are taken over before it is reset, and both sides
    /// and the schedule go back to the start of a match.
    pub open spec fn cleared(self, start: bool, game: GameView) -> (Play, Progress) {
        let r = self.referee.drained(game);
        let fresh = r.with(
            MatchState {
                red: fresh_side(),
                blue: fresh_side(),
                stage: RuneStage::Small,
                schedule_index: 0,
                ..r.state
            },
        );
        self.under(fresh).calling(Pending::Resetting { start }, GameCall::ResetMatch)
    }

    /// A command that is not refused takes effect at the referee's time, or
    /// waits for the engine's answer; the time before was `since_ns`.
    #[verifier::opaque]
    pub open spec fn commanded(
        self,
        command: RefereeCommand,
        since_ns: u64,
        game: GameView,
    ) -> (Play, Progress) {
        let r = self.referee;
        let s = r.state;
        match command {
            RefereeCommand::SetBaseHp { team, hp, shield_hp } => self.forwarding(
                GameCall::SetBase { team, hp, shield_hp },
                since_ns,
            ),
            RefereeCommand::SetBaseOpen { team, open } => self.settled(
                r.with(s.base_sent(team, open, r.base_travel_ns)),
                game,
            ),
            RefereeCommand::SetDartDoorOpen { team, open } => self.settled(
                r.with(s.with_side(team, Side { dart_door_open: open, ..s.side(team) })),
                game,
            ),
            RefereeCommand::SetDartTargetMoving { moving } => self.settled(
                r.with(
                    MatchState {
                        dart_target_since_ns: if !moving {
                            None
                        } else if s.dart_target_since_ns is None {
                            Some(s.now_ns)
                        } else {
                            s.dart_target_since_ns
                        },
                        ..s
                    },
                ),
                game,
            ),
            RefereeCommand::SetOutpostHp { outpost, hp } => {
                let team = r.config.outpost_teams[outpost as int];
                self.calling(
                    Pending::OutpostSet {
                        team,
                        destroyed: game.team_state(team).outpost_hp > 0 && hp == 0,
                        since_ns,
                    },
                    GameCall::SetOutpostHp { team, hp },
                )
            },
            RefereeCommand::SetGold { team, gold } => self.forwarding(
                GameCall::SetGold { team, gold },
                since_ns,
            ),
            RefereeCommand::SetAllowance { robot, allowance } => self.forwarding(
                GameCall::SetAllowance { robot, allowance },
                since_ns,
            ),
            RefereeCommand::SetPolicy { enforce_allowance, exchange_requires_zone } =>
                self.forwarding(
                GameCall::SetPolicy { enforce_allowance, exchange_requires_zone },
                since_ns,
            ),
            RefereeCommand::SetPerformance { robot, performance } => self.forwarding(
                GameCall::SetPerformance { robot, code: performance },
                since_ns,
            ),
            RefereeCommand::BuyAmmo { robot, caliber, amount } => self.forwarding(
                GameCall::ExchangeAmmo { robot, caliber, amount },
                since_ns,
            ),
            RefereeCommand::SetRuneOpportunities { team, opportunities } => self.settled(
                r.with_team(
                    team,
                    TeamState { rune_opportunities: opportunities, ..s.side(team).team },
                ),
                game,
            ),
            RefereeCommand::SetRuneBuff {
                team,
                defense_pct,
                attack_pct,
                cooling_multiplier,
                duration_ns,
            } => {
                let started_ns = r.match_time();
                if duration_ns > 0 {
                    let buff = BuffState {
                        source: s.stage,
                        defense_pct,
                        attack_pct,
                        cooling_multiplier,
                        started_ns,
                        expires_ns: started_ns.saturating_add(duration_ns),
                    };
                    self.calling(
                        Pending::BuffSet { team, buff, since_ns },
                        GameCall::ApplyRuneBuff {
                            team,
                            attack_pct,
                            defense_pct,
                            cooling_multiplier,
                            expires_ticks: game.round_ticks.saturating_add(
                                covering_ticks(duration_ns),
                            ),
                        },
                    )
                } else {
                    self.buffed(team, None, r).calling(
                        Pending::Noted,
                        GameCall::ClearRuneBuff { team },
                    )
                }
            },
            RefereeCommand::StartMatch => self.controlled().cleared(true, game),
            RefereeCommand::SkipTo { match_time_ns } => {
                let behind = r.ticks_behind(game);
                if behind > 0 {
                    self.calling(
                        Pending::SkipStep { match_time_ns },
                        GameCall::Step { ticks: behind },
                    )
                } else {
                    self.skipping(match_time_ns, game)
                }
            },
            RefereeCommand::FinishMatch => self.finishing(game),
            RefereeCommand::Adjudicate { winner } => self.calling(
                Pending::Adjudicated { since_ns },
                GameCall::Adjudicate { winner },
            ),
            RefereeCommand::ResetMatch => self.released().cleared(false, game),
            RefereeCommand::ActivateRune { team } => {
                let index = r.rune_of(team)->0 as int;
                let state = s.side(team).team;
                let spent = TeamState {
                    rune_opportunities: (state.rune_opportunities - 1) as u32,
                    activating_since_ns: Some(r.match_time()),
                    last_completed_groups: 0,
                    ..state.without_rings()
                };
                let lit = Play {
                    runes: self.runes.update(
                        index,
                        self.runes[index].advanced(s.now_ns).triggered(),
                    ),
                    ..self
                };
                lit.settled(
                    r.with_team(team, spent).told(RefereeEvent::RuneActivating { team }),
                    game,
                )
            },
            RefereeCommand::GrantRuneOpportunity { team } => self.settled(
                r.granted(team, s.stage),
                game,
            ),
            RefereeCommand::DamageRobot { robot, amount } => self.forwarding(
                GameCall::Damage {
                    target: StrikeTarget::Robot(robot),
                    amount,
                    kind: DamageKind::Penalty,
                },
                since_ns,
            ),
            RefereeCommand::ReviveRobot { robot } => self.forwarding(
                GameCall::Revive { robot },
                since_ns,
            ),
            RefereeCommand::InstantRespawn { robot } => self.forwarding(
                GameCall::InstantRespawn { robot },
                since_ns,
            ),
            RefereeCommand::ClearWeakened { robot } => self.forwarding(
                GameCall::ClearWeakened { robot },
                since_ns,
            ),
            RefereeCommand::SetRobotHp { robot, hp } => self.forwarding(
                GameCall::SetRobotHp { robot, hp },
                since_ns,
            ),
        }
    }

    /// What a command does: a refused one changes nothing.
    pub open spec fn answered(self, command: RefereeCommand, now_ns: u64, game: GameView) -> (
        Play,
        Progress,
    ) {
        match self.refusal(command, now_ns, game) {
            Some(reason) => (self, Progress::Refused(reason)),
            None => {
                let r = self.referee;
                self.under(r.with(MatchState { now_ns, ..r.state })).commanded(
                    command,
                    r.state.now_ns,
                    game,
                )
            },
        }
    }
}

/// A rune taken under referee control.
pub open spec fn controlled_rune(rune: RuneModel, seed: u64, now: u64) -> RuneModel {
    rune.restarting(false).streaming(seeded(seed)).as_kind(RuneKind::Small, now).advanced(
        now,
    ).darkened()
}

/// A rune given back to training.
pub open spec fn released_rune(rune: RuneModel, kind: RuneKind, now: u64) -> RuneModel {
    rune.as_kind(kind, now).restarting(true).unseeded().advanced(now).darkened().advanced(
        now,
    ).triggered()
}

} // verus!

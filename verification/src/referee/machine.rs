//! The referee at work.
use super::model::{
    covering_ticks, fresh_side, models, owned_index, owned_index_is_owned, remembered, rune_seed, schedule, times_kept,
    MatchState, Pending, Play, Progress, RefereeModel, Scheduled, Side, TeamState, SCHEDULE_LEN,
};
use super::rules::big_rune_buff;
use super::{
    BuffState, MatchPhase, RefereeConfig, RefereeEvent, RuneStage, TimedEvent, BIG_RUNE_STAGE_NS,
    EVENT_MEMORY, RUNE_ACTIVATING_WINDOW_NS, SEED_FACTOR, SMALL_RUNE_BUFF_NS,
    SMALL_RUNE_DEFENSE_PCT,
};
use crate::game::{GameCall, GameError, GameEventKind, GamePhase, GameView, TICK_NS};
use crate::rune::runner::{Rune, RuneModel};
use crate::rune::{RuneError, RuneKind, RuneState};
use crate::target::Team;
use std::collections::VecDeque;
use vstd::prelude::*;

verus! {

/// The match authority: teams, the countdown and round clock, rune
/// opportunities and buffs. It takes explicit timestamps and never reads host
/// time.
#[derive(Clone, Debug, PartialEq, Eq)]
pub struct Referee {
    /// The rules this referee was built with.
    pub config: RefereeConfig,
    /// Kind each rune had before the match, restored on reset.
    pub training_kinds: Vec<RuneKind>,
    /// How long the base armor travels.
    pub base_travel_ns: u64,
    /// Everything that changes, but for the events.
    pub state: MatchState,
    /// Recent events, oldest first.
    pub events: VecDeque<TimedEvent>,
}

impl View for Referee {
    type V = RefereeModel;

    open spec fn view(&self) -> RefereeModel {
        RefereeModel {
            config: self.config@,
            training_kinds: self.training_kinds@,
            base_travel_ns: self.base_travel_ns,
            state: self.state,
            events: self.events@,
        }
    }
}

/// A referee and its runes.
pub open spec fn play(referee: Referee, runes: Seq<Rune>) -> Play {
    Play { referee: referee@, runes: models(runes) }
}

/// The first index that a team owns.
fn position(owners: &Vec<Team>, team: Team) -> (r: Option<usize>)
    ensures
        match r {
            Some(index) => owned_index(owners@, team, 0) == Some(index as nat) && index
                < owners@.len() && owners@[index as int] == team,
            None => owned_index(owners@, team, 0) is None,
        },
{
    let mut i: usize = 0;
    while i < owners.len()
        invariant
            i <= owners.len(),
            owned_index(owners@, team, 0) == owned_index(owners@, team, i as nat),
        decreases owners.len() - i,
    {
        if owners[i] == team {
            return Some(i);
        }
        i += 1;
    }
    None
}

impl Referee {
    /// The first rune `team` owns, when it has one.
    pub(crate) fn rune_of(&self, team: Team) -> (r: Option<usize>)
        ensures
            match r {
                Some(index) => self@.rune_of(team) == Some(index as nat) && index
                    < self.config.rune_teams@.len(),
                None => self@.rune_of(team) is None,
            },
    {
        position(&self.config.rune_teams, team)
    }

    /// Outpost index `team` owns, when it has one.
    pub fn outpost_of(&self, team: Team) -> (r: Option<usize>)
        ensures
            match r {
                Some(index) => self@.outpost_of(team) == Some(index as nat) && index
                    < self.config.outpost_teams@.len() && self.config.outpost_teams@[index as int]
                    == team,
                None => self@.outpost_of(team) is None,
            },
    {
        position(&self.config.outpost_teams, team)
    }

    /// A team's side.
    pub(crate) fn side(&self, team: Team) -> (r: Side)
        ensures
            r == self.state.side(team),
    {
        match team {
            Team::Red => self.state.red,
            Team::Blue => self.state.blue,
        }
    }

    /// A side at the start of a match: base shut, dart door open.
    pub(crate) fn shut_side() -> (r: Side)
        ensures
            r == fresh_side(),
    {
        Side {
            team: TeamState {
                rune_opportunities: 0,
                big_rune_activations: 0,
                activating_since_ns: None,
                buff: None,
                attempt_arms: 0,
                attempt_ring_sum: 0,
                last_completed_groups: 0,
            },
            base_open: false,
            base_moved_ns: None,
            dart_door_open: true,
        }
    }

    /// Replace a team's side.
    pub(crate) fn set_side(&mut self, team: Team, side: Side)
        ensures
            final(self)@ == old(self)@.with(old(self).state.with_side(team, side)),
    {
        match team {
            Team::Red => {
                self.state.red = side;
            },
            Team::Blue => {
                self.state.blue = side;
            },
        }
    }

    /// Replace a team's round state.
    pub(crate) fn set_team(&mut self, team: Team, state: TeamState)
        ensures
            final(self)@ == old(self)@.with_team(team, state),
    {
        let mut side = self.side(team);
        side.team = state;
        self.set_side(team, side);
    }

    /// Set what the referee waits for.
    pub(crate) fn wait(&mut self, pending: Pending)
        ensures
            final(self)@ == old(self)@.waiting(pending),
    {
        self.state.pending = pending;
    }

    /// Round clock time at `now_ns`.
    pub(crate) fn match_time(&self, now_ns: u64) -> (r: u64)
        ensures
            r == self.state.match_time(now_ns),
    {
        match self.state.phase {
            MatchPhase::Running => now_ns.saturating_sub(
                self.state.match_started_ns,
            ).saturating_add(self.state.skipped_ns),
            MatchPhase::Finished => self.state.finished_match_time_ns,
            _ => 0,
        }
    }

    /// Record an event.
    pub(crate) fn push_event(&mut self, event: RefereeEvent)
        requires
            old(self).events@.len() <= EVENT_MEMORY,
        ensures
            final(self)@ == old(self)@.told(event),
            final(self).events@.len() <= EVENT_MEMORY,
    {
        let match_time_ns = match self.state.phase {
            MatchPhase::Running | MatchPhase::Finished => Some(
                self.match_time(self.state.now_ns),
            ),
            _ => None,
        };
        let ghost stamped = TimedEvent { time_ns: self.state.now_ns, match_time_ns, event };
        self.events.push_back(TimedEvent { time_ns: self.state.now_ns, match_time_ns, event });
        if self.events.len() > EVENT_MEMORY {
            self.events.pop_front();
        }
        proof {
            assert(self.events@ =~= remembered(old(self).events@, stamped));
        }
    }

    /// Announce an outpost's destruction.
    pub(crate) fn outpost_destroyed(&mut self, team: Team)
        requires
            old(self)@.wf(),
        ensures
            final(self)@ == old(self)@.told_outpost(team),
            final(self)@.wf(),
    {
        if let Some(outpost) = self.outpost_of(team) {
            self.push_event(RefereeEvent::OutpostDestroyed { outpost: outpost as u32, team });
        }
    }

    /// Send a team's base armor toward `open` from where it is now, so a
    /// reversal mid-travel continues smoothly.
    pub(crate) fn set_base_open(&mut self, team: Team, open: bool)
        requires
            old(self)@.wf(),
            old(self).state.pending == Pending::Nothing,
        ensures
            final(self)@ == old(self)@.with(
                old(self).state.base_sent(team, open, old(self).base_travel_ns),
            ),
            final(self)@.wf(),
    {
        let mut side = self.side(team);
        if side.base_open == open {
            return;
        }
        let done: u64 = match side.base_moved_ns {
            None => 0,
            Some(moved) => self.base_travel_ns.saturating_sub(
                self.state.now_ns.saturating_sub(moved),
            ),
        };
        side.base_open = open;
        side.base_moved_ns = Some(self.state.now_ns.saturating_sub(done));
        self.set_side(team, side);
    }

    /// Take over one engine report.
    fn report(&mut self, kind: GameEventKind, game: &GameView)
        requires
            old(self)@.wf(),
            old(self).state.pending == Pending::Nothing,
        ensures
            final(self)@ == old(self)@.reported(kind, *game),
            final(self)@.wf(),
            final(self).state.pending == Pending::Nothing,
    {
        proof {
            reveal(RefereeModel::reported);
        }
        match kind {
            GameEventKind::RobotDamage { robot, shooter, hp, shield } => {
                if hp > 0 || shield > 0 {
                    let left: u32 = match game.robot(robot) {
                        Some(state) => state.hp,
                        None => 0,
                    };
                    self.push_event(
                        RefereeEvent::RobotDamaged { robot, amount: hp, hp: left, shooter },
                    );
                }
            },
            GameEventKind::BaseDamage { team, shooter, hp, shield } => {
                if hp > 0 || shield > 0 {
                    let left = game.team(team);
                    self.push_event(
                        RefereeEvent::BaseDamaged {
                            team,
                            amount: hp.saturating_add(shield),
                            hp: left.base_hp,
                            shield_hp: left.base_shield_hp,
                            shooter,
                        },
                    );
                    if left.base_hp == 0 {
                        self.push_event(RefereeEvent::BaseDestroyed { team });
                    }
                }
            },
            GameEventKind::OutpostDamage { team, hp, shield } => {
                if (hp > 0 || shield > 0) && game.team(team).outpost_hp == 0 {
                    self.outpost_destroyed(team);
                }
            },
            GameEventKind::RobotDefeated(robot) => {
                self.push_event(RefereeEvent::RobotDefeated { robot });
            },
            GameEventKind::RobotRespawned(robot) => {
                self.push_event(RefereeEvent::RobotRespawned { robot });
            },
            GameEventKind::RobotRevived(robot) => {
                self.push_event(RefereeEvent::RobotRevived { robot });
            },
            GameEventKind::WeaknessCleared(robot) => {
                self.push_event(RefereeEvent::WeaknessCleared { robot });
            },
            GameEventKind::OutpostRebuilt(team) => {
                self.push_event(RefereeEvent::OutpostRebuilt { team });
            },
            GameEventKind::LevelChanged { robot, level } => {
                self.push_event(RefereeEvent::LevelUp { robot, level });
            },
            GameEventKind::TerrainCrossing { robot, kind } => {
                self.push_event(RefereeEvent::TerrainCrossing { robot, kind });
            },
            GameEventKind::BaseArmorExpanded(team) => {
                self.set_base_open(team, true);
                self.push_event(RefereeEvent::BaseArmorExpanded { team });
            },
            GameEventKind::Other => {},
        }
    }

    /// Translate the engine's reports since the last drain.
    pub(crate) fn drain_game_events(&mut self, game: &GameView)
        requires
            old(self)@.wf(),
            old(self).state.pending == Pending::Nothing,
        ensures
            final(self)@ == old(self)@.drained(*game),
            old(self).state.differs_in_bases(final(self).state),
            final(self).config@ == old(self).config@,
            final(self)@.wf(),
    {
        proof {
            reveal(RefereeModel::drained);
        }
        let ghost start = self@;
        proof {
            start.draining_keeps_wf(*game);
        }
        let seen: u64 = self.state.game_events_seen;
        let mut i: usize = 0;
        while i < game.events.len()
            invariant
                i <= game.events@.len(),
                start.wf(),
                start.state.pending == Pending::Nothing,
                seen == start.state.game_events_seen,
                self@ == start.reported_first(*game, i as nat),
                self.state.pending == Pending::Nothing,
                self@.wf(),
            decreases game.events.len() - i,
        {
            let event = game.events[i];
            if event.id >= seen {
                self.report(event.kind, game);
            }
            i += 1;
        }
        self.state.game_events_seen = game.next_event_id;
    }
}

/// Whether no rune of the first `n` is ahead of `now_ns`.
pub(crate) fn none_ahead(runes: &Vec<Rune>, n: usize, now_ns: u64) -> (r: bool)
    requires
        n <= runes@.len(),
    ensures
        r == forall|i: int| 0 <= i < n ==> (#[trigger] models(runes@)[i]).time_ns() <= now_ns,
{
    let mut i: usize = 0;
    while i < n
        invariant
            i <= n <= runes@.len(),
            forall|k: int| 0 <= k < i ==> (#[trigger] models(runes@)[k]).time_ns() <= now_ns,
        decreases n - i,
    {
        if runes[i].time_ns() > now_ns {
            proof {
                assert(models(runes@)[i as int].time_ns() > now_ns);
            }
            return false;
        }
        i += 1;
    }
    true
}

/// Whether no rune of the first `n` that is not Big is ahead of `now_ns`.
fn none_to_convert_ahead(runes: &Vec<Rune>, n: usize, now_ns: u64) -> (r: bool)
    requires
        n <= runes@.len(),
    ensures
        r == forall|i: int|
            0 <= i < n && (#[trigger] models(runes@)[i]).kind() != RuneKind::Big ==> models(
                runes@,
            )[i].time_ns() <= now_ns,
{
    let mut i: usize = 0;
    while i < n
        invariant
            i <= n <= runes@.len(),
            forall|k: int|
                0 <= k < i && (#[trigger] models(runes@)[k]).kind() != RuneKind::Big ==> models(
                    runes@,
                )[k].time_ns() <= now_ns,
        decreases n - i,
    {
        if runes[i].kind() != RuneKind::Big && runes[i].time_ns() > now_ns {
            proof {
                assert(models(runes@)[i as int] == runes@[i as int]@);
            }
            return false;
        }
        i += 1;
    }
    true
}

impl Referee {
    /// Every owned rune goes dark now.
    fn darken_runes(&self, runes: &mut Vec<Rune>)
        requires
            play(*self, old(runes)@).wf(),
            play(*self, old(runes)@).runes_by(self.state.now_ns),
        ensures
            play(*self, final(runes)@) == play(*self, old(runes)@).darkened(),
            play(*self, final(runes)@).wf(),
            play(*self, final(runes)@).runes_by(self.state.now_ns),
            final(runes)@.len() == old(runes)@.len(),
    {
        let n: usize = self.config.rune_teams.len();
        let now: u64 = self.state.now_ns;
        let ghost before = play(*self, runes@);
        let ghost after = before.darkened();
        let mut i: usize = 0;
        proof {
            assert forall|k: int| 0 <= k < runes@.len() implies (#[trigger] runes@[k])@.wf() by {
                assert(before.runes[k].wf());
            }
        }
        while i < n
            invariant
                i <= n,
                n == self.config.rune_teams@.len(),
                now == self.state.now_ns,
                n <= runes@.len(),
                runes@.len() == before.runes.len(),
                before.wf(),
                before.runes_by(now),
                before.referee == self@,
                after == before.darkened(),
                forall|k: int| 0 <= k < runes@.len() ==> (#[trigger] runes@[k])@.wf(),
                forall|k: int|
                    0 <= k < i ==> (#[trigger] runes@[k])@ == after.runes[k] && runes@[k]@.time_ns()
                        <= now,
                forall|k: int|
                    i <= k < runes@.len() ==> (#[trigger] runes@[k])@ == before.runes[k],
            decreases n - i,
        {
            proof {
                assert(before.runes[i as int].time_ns() <= now);
            }
            let _ = runes[i].deactivate(now);
            i += 1;
        }
        proof {
            assert(models(runes@) =~= after.runes);
            assert forall|k: int| 0 <= k < runes@.len() implies (#[trigger] models(
                runes@,
            )[k]).wf() by {
                assert(runes@[k]@.wf());
            }
            assert forall|k: int| 0 <= k < n implies (#[trigger] models(runes@)[k]).time_ns()
                <= now by {
                assert(runes@[k]@.time_ns() <= now);
            }
        }
    }

    /// Every owned rune is a Big Rune from now on.
    fn enlarge_runes(&self, runes: &mut Vec<Rune>)
        requires
            play(*self, old(runes)@).wf(),
            play(*self, old(runes)@).driven_by(self.state.now_ns),
            play(*self, old(runes)@).convertible_by(self.state.now_ns),
        ensures
            play(*self, final(runes)@) == play(*self, old(runes)@).enlarged(),
            play(*self, final(runes)@).wf(),
            play(*self, final(runes)@).driven_by(self.state.now_ns),
            times_kept(
                self.config.rune_teams@.len(),
                models(old(runes)@),
                models(final(runes)@),
                self.state.now_ns,
            ),
            final(runes)@.len() == old(runes)@.len(),
    {
        let n: usize = self.config.rune_teams.len();
        let now: u64 = self.state.now_ns;
        let ghost before = play(*self, runes@);
        let ghost after = before.enlarged();
        let mut i: usize = 0;
        proof {
            assert forall|k: int| 0 <= k < runes@.len() implies (#[trigger] runes@[k])@.wf() by {
                assert(before.runes[k].wf());
            }
        }
        while i < n
            invariant
                i <= n,
                n == self.config.rune_teams@.len(),
                now == self.state.now_ns,
                n <= runes@.len(),
                runes@.len() == before.runes.len(),
                before.wf(),
                before.convertible_by(now),
                before.referee == self@,
                after == before.enlarged(),
                forall|k: int| 0 <= k < runes@.len() ==> (#[trigger] runes@[k])@.wf(),
                forall|k: int|
                    0 <= k < i ==> (#[trigger] runes@[k])@ == after.runes[k] && (runes@[k]@.time_ns()
                        <= now || runes@[k]@.time_ns() == before.runes[k].time_ns()),
                forall|k: int|
                    i <= k < runes@.len() ==> (#[trigger] runes@[k])@ == before.runes[k],
            decreases n - i,
        {
            proof {
                assert(before.runes[i as int] == runes@[i as int]@);
            }
            let _ = runes[i].convert(RuneKind::Big, now);
            i += 1;
        }
        proof {
            assert(models(runes@) =~= after.runes);
            assert forall|k: int| 0 <= k < runes@.len() implies (#[trigger] models(
                runes@,
            )[k]).wf() by {
                assert(runes@[k]@.wf());
            }
            assert forall|k: int| 0 <= k < n implies (#[trigger] models(runes@)[k]).time_ns()
                <= now || models(runes@)[k].time_ns() <= before.runes[k].time_ns() by {
                assert(runes@[k]@ == after.runes[k]);
            }
            owned_index_is_owned(self.config.rune_teams@, Team::Red, 0);
            owned_index_is_owned(self.config.rune_teams@, Team::Blue, 0);
        }
    }

    /// Every owned rune is a dark Small Rune under referee control.
    pub(crate) fn control_runes(&self, runes: &mut Vec<Rune>)
        requires
            play(*self, old(runes)@).wf(),
            play(*self, old(runes)@).runes_by(self.state.now_ns),
        ensures
            play(*self, final(runes)@) == play(*self, old(runes)@).controlled(),
            play(*self, final(runes)@).wf(),
            play(*self, final(runes)@).runes_by(self.state.now_ns),
            final(runes)@.len() == old(runes)@.len(),
    {
        let n: usize = self.config.rune_teams.len();
        let now: u64 = self.state.now_ns;
        let ghost before = play(*self, runes@);
        let ghost after = before.controlled();
        let mut i: usize = 0;
        proof {
            assert forall|k: int| 0 <= k < runes@.len() implies (#[trigger] runes@[k])@.wf() by {
                assert(before.runes[k].wf());
            }
        }
        while i < n
            invariant
                i <= n,
                n == self.config.rune_teams@.len(),
                now == self.state.now_ns,
                n <= runes@.len(),
                runes@.len() == before.runes.len(),
                before.wf(),
                before.runes_by(now),
                before.referee == self@,
                after == before.controlled(),
                forall|k: int| 0 <= k < runes@.len() ==> (#[trigger] runes@[k])@.wf(),
                forall|k: int|
                    0 <= k < i ==> (#[trigger] runes@[k])@ == after.runes[k] && runes@[k]@.time_ns()
                        <= now,
                forall|k: int|
                    i <= k < runes@.len() ==> (#[trigger] runes@[k])@ == before.runes[k],
            decreases n - i,
        {
            proof {
                assert(before.runes[i as int].time_ns() <= now);
            }
            runes[i].set_auto_restart(false);
            runes[i].set_seed(self.rune_seed(i));
            let _ = runes[i].convert(RuneKind::Small, now);
            let _ = runes[i].deactivate(now);
            i += 1;
        }
        proof {
            assert(models(runes@) =~= after.runes);
            assert forall|k: int| 0 <= k < runes@.len() implies (#[trigger] models(
                runes@,
            )[k]).wf() by {
                assert(runes@[k]@.wf());
            }
            assert forall|k: int| 0 <= k < n implies (#[trigger] models(runes@)[k]).time_ns()
                <= now by {
                assert(runes@[k]@.time_ns() <= now);
            }
        }
    }

    /// Every owned rune is back in training from now on.
    pub(crate) fn release_runes(&self, runes: &mut Vec<Rune>)
        requires
            play(*self, old(runes)@).wf(),
            play(*self, old(runes)@).runes_by(self.state.now_ns),
        ensures
            play(*self, final(runes)@) == play(*self, old(runes)@).released(),
            play(*self, final(runes)@).wf(),
            play(*self, final(runes)@).runes_by(self.state.now_ns),
            final(runes)@.len() == old(runes)@.len(),
    {
        let n: usize = self.config.rune_teams.len();
        let now: u64 = self.state.now_ns;
        let ghost before = play(*self, runes@);
        let ghost after = before.released();
        let mut i: usize = 0;
        proof {
            assert forall|k: int| 0 <= k < runes@.len() implies (#[trigger] runes@[k])@.wf() by {
                assert(before.runes[k].wf());
            }
        }
        while i < n
            invariant
                i <= n,
                n == self.config.rune_teams@.len(),
                now == self.state.now_ns,
                n <= runes@.len(),
                runes@.len() == before.runes.len(),
                before.wf(),
                before.runes_by(now),
                before.referee == self@,
                after == before.released(),
                forall|k: int| 0 <= k < runes@.len() ==> (#[trigger] runes@[k])@.wf(),
                forall|k: int|
                    0 <= k < i ==> (#[trigger] runes@[k])@ == after.runes[k] && runes@[k]@.time_ns()
                        <= now,
                forall|k: int|
                    i <= k < runes@.len() ==> (#[trigger] runes@[k])@ == before.runes[k],
            decreases n - i,
        {
            proof {
                assert(before.runes[i as int].time_ns() <= now);
            }
            let kind = self.training_kinds[i];
            let _ = runes[i].convert(kind, now);
            runes[i].set_auto_restart(true);
            runes[i].clear_seed();
            let _ = runes[i].deactivate(now);
            let _ = runes[i].activate(now);
            i += 1;
        }
        proof {
            assert(models(runes@) =~= after.runes);
            assert forall|k: int| 0 <= k < runes@.len() implies (#[trigger] models(
                runes@,
            )[k]).wf() by {
                assert(runes@[k]@.wf());
            }
            assert forall|k: int| 0 <= k < n implies (#[trigger] models(runes@)[k]).time_ns()
                <= now by {
                assert(runes@[k]@.time_ns() <= now);
            }
        }
    }

    /// Seed for rune `index`'s own stream.
    pub fn rune_seed(&self, index: usize) -> (r: u64)
        requires
            index < usize::MAX,
        ensures
            r == rune_seed(self.config.seed, index as int),
    {
        self.config.seed.wrapping_mul(SEED_FACTOR).wrapping_add(index as u64 + 1)
    }

    /// Give a team a rune opportunity of a stage.
    pub(crate) fn grant(&mut self, team: Team, stage: RuneStage)
        requires
            old(self)@.wf(),
        ensures
            final(self)@ == old(self)@.granted(team, stage),
            final(self)@.wf(),
    {
        let mut state = self.side(team).team;
        let total: u32 = state.rune_opportunities.saturating_add(1);
        state.rune_opportunities = total;
        self.set_team(team, state);
        self.push_event(RefereeEvent::RuneOpportunity { team, stage, total });
    }

    /// Let the next scheduled item take effect.
    fn run_item(&mut self, runes: &mut Vec<Rune>)
        requires
            play(*old(self), old(runes)@).wf(),
            play(*old(self), old(runes)@).driven_by(old(self).state.now_ns),
            old(self).state.schedule_index < SCHEDULE_LEN,
            old(self).state.schedule_index == 2 ==> play(*old(self), old(runes)@).convertible_by(
                old(self).state.now_ns,
            ),
        ensures
            play(*final(self), final(runes)@) == play(*old(self), old(runes)@).item_done(
                schedule(old(self).state.schedule_index).1,
            ),
            play(*final(self), final(runes)@).wf(),
            play(*final(self), final(runes)@).driven_by(old(self).state.now_ns),
            old(self).state.schedule_index != 2 ==> final(runes)@ == old(runes)@,
            times_kept(
                old(self).config.rune_teams@.len(),
                models(old(runes)@),
                models(final(runes)@),
                old(self).state.now_ns,
            ),
            final(runes)@.len() == old(runes)@.len(),
            final(self).state.now_ns == old(self).state.now_ns,
            final(self).state.phase == old(self).state.phase,
            final(self).state.schedule_index == old(self).state.schedule_index + 1,
            final(self).state.pending == old(self).state.pending,
            final(self)@.match_time() == old(self)@.match_time(),
            final(self)@.config == old(self)@.config,
    {
        reveal(Play::item_done);
        let index: u32 = self.state.schedule_index;
        let (_, item): (u64, Scheduled) = scheduled_item(index);
        match item {
            Scheduled::SmallOpportunity => {
                self.state.schedule_index = index + 1;
                self.grant(Team::Red, RuneStage::Small);
                self.grant(Team::Blue, RuneStage::Small);
            },
            Scheduled::BigOpportunity => {
                self.state.schedule_index = index + 1;
                self.grant(Team::Red, RuneStage::Big);
                self.grant(Team::Blue, RuneStage::Big);
            },
            Scheduled::BigStage => {
                self.enlarge_runes(runes);
                self.state.schedule_index = index + 1;
                self.state.stage = RuneStage::Big;
                let red = without_attempt(self.state.red.team);
                self.set_team(Team::Red, red);
                let blue = without_attempt(self.state.blue.team);
                self.set_team(Team::Blue, blue);
                self.push_event(RefereeEvent::RuneStage(RuneStage::Big));
                proof {
                    assert(models(runes@) =~= play(*old(self), old(runes)@).item_done(item).runes);
                }
            },
        }
    }

    /// Let every scheduled item that is due take effect.
    fn run_schedule(&mut self, runes: &mut Vec<Rune>)
        requires
            play(*old(self), old(runes)@).wf(),
            play(*old(self), old(runes)@).plays_by(old(self).state.now_ns),
        ensures
            play(*final(self), final(runes)@) == play(*old(self), old(runes)@).scheduled(),
            play(*final(self), final(runes)@).wf(),
            play(*final(self), final(runes)@).driven_by(old(self).state.now_ns),
            times_kept(
                old(self).config.rune_teams@.len(),
                models(old(runes)@),
                models(final(runes)@),
                old(self).state.now_ns,
            ),
            final(runes)@.len() == old(runes)@.len(),
            final(self).state.now_ns == old(self).state.now_ns,
            final(self).state.phase == old(self).state.phase,
            final(self).state.pending == old(self).state.pending,
            final(self)@.config == old(self)@.config,
    {
        let ghost start = play(*self, runes@);
        let match_time_ns: u64 = self.match_time(self.state.now_ns);
        while self.state.schedule_index < SCHEDULE_LEN
            invariant
                start == play(*old(self), old(runes)@),
                play(*self, runes@).wf(),
                play(*self, runes@).plays_by(self.state.now_ns),
                times_kept(
                    start.referee.config.rune_teams.len(),
                    start.runes,
                    models(runes@),
                    self.state.now_ns,
                ),
                play(*self, runes@).scheduled() == start.scheduled(),
                self@.match_time() == match_time_ns,
                self.state.phase == start.referee.state.phase,
                self.state.pending == start.referee.state.pending,
                runes@.len() == old(runes)@.len(),
                self.state.now_ns == start.referee.state.now_ns,
                self@.config == start.referee.config,
            decreases SCHEDULE_LEN - self.state.schedule_index,
        {
            let (at_ns, _): (u64, Scheduled) = scheduled_item(self.state.schedule_index);
            if at_ns > match_time_ns {
                return;
            }
            self.run_item(runes);
        }
    }

    /// The buff a completed attempt of a team earns.
    fn earned_buff(&self, state: TeamState) -> (r: BuffState)
        ensures
            forall|runes: Seq<RuneModel>, team: Team|
                #![trigger (Play { referee: self@, runes }).earned(team)]
                self.state.side(team).team == state ==> r == (Play {
                    referee: self@,
                    runes,
                }).earned(team),
            r.started_ns <= r.expires_ns,
    {
        let t: u64 = self.match_time(self.state.now_ns);
        match self.state.stage {
            RuneStage::Small => BuffState {
                source: RuneStage::Small,
                defense_pct: SMALL_RUNE_DEFENSE_PCT,
                attack_pct: 100,
                cooling_multiplier: 1,
                started_ns: t,
                expires_ns: t.saturating_add(SMALL_RUNE_BUFF_NS),
            },
            RuneStage::Big => big_rune_buff(
                state.attempt_ring_sum,
                state.attempt_arms,
                state.attempt_arms,
                t,
            ),
        }
    }

    /// Move a team's attempt on: it is completed, expires, loses the rings of
    /// a wiped progress, or ended before. A completed one is a call.
    #[verifier::rlimit(40)]
    fn tick_attempt(&mut self, team: Team, runes: &mut Vec<Rune>) -> (r: Option<GameCall>)
        requires
            play(*old(self), old(runes)@).wf(),
            play(*old(self), old(runes)@).driven_by(old(self).state.now_ns),
            old(self).state.phase == MatchPhase::Running,
            old(self).state.pending == Pending::Nothing,
        ensures
            r is Some <==> final(self).state.pending != Pending::Nothing,
            r is Some ==> final(self).state.pending is RuneActivated,
            (play(*final(self), final(runes)@), r) == play(*old(self), old(runes)@).attempted(
                team,
            ),
            play(*final(self), final(runes)@).wf(),
            play(*final(self), final(runes)@).driven_by(old(self).state.now_ns),
            times_kept(
                old(self).config.rune_teams@.len(),
                models(old(runes)@),
                models(final(runes)@),
                old(self).state.now_ns,
            ),
            final(runes)@.len() == old(runes)@.len(),
            final(self).state.now_ns == old(self).state.now_ns,
            final(self).state.phase == old(self).state.phase,
            final(self)@.config == old(self)@.config,
    {
        proof {
            reveal(Play::attempted);
        }
        let ghost before = play(*self, runes@);
        let index: usize = match self.rune_of(team) {
            Some(index) => index,
            None => {
                return None;
            },
        };
        let now_ns: u64 = self.state.now_ns;
        let match_time_ns: u64 = self.match_time(now_ns);
        proof {
            assert(before.runes[index as int].time_ns() <= now_ns);
            assert(before.runes[index as int].wf());
        }
        let _ = runes[index].advance_to(now_ns);
        proof {
            lemma_rune_changed(*self, before, runes@, index as int);
            assert(models(runes@) =~= before.rune_at_now(index as int).runes);
        }
        let state = self.side(team).team;
        let since: u64 = match state.activating_since_ns {
            Some(since) => since,
            None => {
                return None;
            },
        };
        match runes[index].state() {
            RuneState::Activated => {
                let buff = self.earned_buff(state);
                let big = self.state.stage == RuneStage::Big;
                let mut granted = without_attempt(state);
                granted.buff = Some(buff);
                if big {
                    granted.big_rune_activations = state.big_rune_activations.saturating_add(1);
                }
                proof {
                    assert(buff == before.rune_at_now(index as int).earned(team));
                }
                self.set_team(team, granted);
                self.wait(
                    Pending::RuneActivated {
                        team,
                        arms: state.attempt_arms,
                        ring_sum: state.attempt_ring_sum,
                        buff,
                    },
                );
                Some(
                    GameCall::RuneActivated {
                        team,
                        big,
                        attack_pct: buff.attack_pct,
                        defense_pct: buff.defense_pct,
                        cooling_multiplier: buff.cooling_multiplier,
                        duration_ticks: ticks_covering(buff.expires_ns - buff.started_ns),
                    },
                )
            },
            RuneState::Activating => {
                if match_time_ns - since >= RUNE_ACTIVATING_WINDOW_NS {
                    let ghost lit = play(*self, runes@);
                    let _ = runes[index].deactivate(now_ns);
                    proof {
                        lemma_rune_changed(*self, lit, runes@, index as int);
                        assert(models(runes@) =~= lit.rune_darkened(index as int).runes);
                    }
                    self.set_team(team, without_attempt(state));
                    self.push_event(RefereeEvent::RuneActivationExpired { team });
                } else {
                    // A timeout inside the rune wiped its progress: forget the rings.
                    let completed: u32 = runes[index].completed_groups();
                    let mut kept = state;
                    if completed < state.last_completed_groups {
                        kept = without_rings(state);
                    }
                    kept.last_completed_groups = completed;
                    self.set_team(team, kept);
                }
                None
            },
            RuneState::Inactive => {
                self.set_team(team, TeamState { activating_since_ns: None, ..state });
                None
            },
        }
    }

    /// Let a team's buff run out when its time is over: its rune goes dark and
    /// the engine is called.
    fn tick_buff(&mut self, team: Team, runes: &mut Vec<Rune>) -> (r: Option<GameCall>)
        requires
            play(*old(self), old(runes)@).wf(),
            play(*old(self), old(runes)@).driven_by(old(self).state.now_ns),
            old(self).state.phase == MatchPhase::Running,
            old(self).state.pending == Pending::Nothing,
        ensures
            r is Some <==> final(self).state.pending != Pending::Nothing,
            r is Some ==> final(self).state.pending is BuffCleared,
            (play(*final(self), final(runes)@), r) == play(*old(self), old(runes)@).expired(team),
            play(*final(self), final(runes)@).wf(),
            play(*final(self), final(runes)@).driven_by(old(self).state.now_ns),
            times_kept(
                old(self).config.rune_teams@.len(),
                models(old(runes)@),
                models(final(runes)@),
                old(self).state.now_ns,
            ),
            final(runes)@.len() == old(runes)@.len(),
            final(self).state.now_ns == old(self).state.now_ns,
            final(self).state.phase == old(self).state.phase,
            final(self)@.config == old(self)@.config,
    {
        proof {
            reveal(Play::expired);
        }
        let ghost before = play(*self, runes@);
        let index: usize = match self.rune_of(team) {
            Some(index) => index,
            None => {
                return None;
            },
        };
        let now_ns: u64 = self.state.now_ns;
        let state = self.side(team).team;
        match state.buff {
            Some(buff) => {
                if self.match_time(now_ns) < buff.expires_ns {
                    return None;
                }
            },
            None => {
                return None;
            },
        }
        proof {
            assert(before.runes[index as int].time_ns() <= now_ns);
            assert(before.runes[index as int].wf());
        }
        let _ = runes[index].deactivate(now_ns);
        proof {
            lemma_rune_changed(*self, before, runes@, index as int);
            assert(models(runes@) =~= before.rune_darkened(index as int).runes);
        }
        self.set_team(team, TeamState { buff: None, ..state });
        self.wait(Pending::BuffCleared { team });
        Some(GameCall::ClearRuneBuff { team })
    }
}

/// A change of one rune that keeps it well formed and not ahead keeps a play
/// so.
proof fn lemma_rune_changed(referee: Referee, before: Play, after: Seq<Rune>, index: int)
    requires
        before.wf(),
        before.referee == referee@,
        before.driven_by(referee.state.now_ns),
        0 <= index < before.runes.len(),
        after.len() == before.runes.len(),
        after[index]@.wf(),
        after[index]@.time_ns() <= referee.state.now_ns,
        forall|i: int|
            0 <= i < after.len() && i != index ==> (#[trigger] after[i])@ == before.runes[i],
    ensures
        play(referee, after).wf(),
        play(referee, after).driven_by(referee.state.now_ns),
        times_kept(
            referee.config.rune_teams@.len(),
            before.runes,
            models(after),
            referee.state.now_ns,
        ),
        models(after) == before.runes.update(index, after[index]@),
{
    let now = play(referee, after);
    assert forall|i: int| 0 <= i < now.runes.len() implies (#[trigger] now.runes[i]).wf() by {
        assert(after[i]@ == now.runes[i]);
        if i != index {
            assert(before.runes[i].wf());
        }
    }
    owned_index_is_owned(referee.config.rune_teams@, Team::Red, 0);
    owned_index_is_owned(referee.config.rune_teams@, Team::Blue, 0);
    assert forall|i: int| 0 <= i < now.runes.len() implies (#[trigger] now.runes[i]).time_ns()
        <= referee.state.now_ns || now.runes[i].time_ns() <= before.runes[i].time_ns() by {
        assert(after[i]@ == now.runes[i]);
    }
    assert(models(after) =~= before.runes.update(index, after[index]@));
}

/// The schedule of a round.
fn scheduled_item(index: u32) -> (r: (u64, Scheduled))
    ensures
        r == schedule(index),
{
    if index == 0 {
        (0, Scheduled::SmallOpportunity)
    } else if index == 1 {
        (90_000_000_000, Scheduled::SmallOpportunity)
    } else if index == 2 {
        (BIG_RUNE_STAGE_NS, Scheduled::BigStage)
    } else if index == 3 {
        (180_000_000_000, Scheduled::BigOpportunity)
    } else if index == 4 {
        (255_000_000_000, Scheduled::BigOpportunity)
    } else {
        (330_000_000_000, Scheduled::BigOpportunity)
    }
}

/// The team without the rings of its attempt.
fn without_rings(state: TeamState) -> (r: TeamState)
    ensures
        r == state.without_rings(),
{
    TeamState { attempt_arms: 0, attempt_ring_sum: 0, ..state }
}

/// The team without an attempt under way.
pub(crate) fn without_attempt(state: TeamState) -> (r: TeamState)
    ensures
        r == state.without_attempt(),
{
    TeamState { activating_since_ns: None, attempt_arms: 0, attempt_ring_sum: 0, ..state }
}

/// Whole engine ticks that cover a time, at least one.
pub(crate) fn ticks_covering(ns: u64) -> (r: u64)
    ensures
        r == covering_ticks(ns),
{
    if ns == 0 {
        1
    } else {
        (ns - 1) / TICK_NS + 1
    }
}

impl Referee {
    /// The input is dealt with.
    pub(crate) fn done(&mut self) -> (r: Progress)
        requires
            old(self)@.wf(),
        ensures
            r == Progress::Done,
            final(self)@ == old(self)@.waiting(Pending::Nothing),
            final(self)@.wf(),
    {
        self.wait(Pending::Nothing);
        Progress::Done
    }

    /// The match is finished; announce the result when there is one.
    fn end_match(&mut self, runes: &mut Vec<Rune>, game: &GameView) -> (r: Progress)
        requires
            play(*old(self), old(runes)@).wf(),
            old(self).state.pending == Pending::Nothing,
            old(self).state.sides_quiet(),
        ensures
            (play(*final(self), final(runes)@), r) == play(*old(self), old(runes)@).ended(*game),
            play(*final(self), final(runes)@).wf(),
            play(*final(self), final(runes)@).resumable(),
            times_kept(
                old(self).config.rune_teams@.len(),
                models(old(runes)@),
                models(final(runes)@),
                final(self).state.now_ns,
            ),
            final(self).config@ == old(self).config@,
            r is Call <==> final(self).state.pending != Pending::Nothing,
            final(self).state.now_ns == old(self).state.now_ns,
    {
        proof {
            reveal(Play::ended);
        }
        self.state.phase = MatchPhase::Finished;
        self.state.phase_started_ns = self.state.now_ns;
        self.drain_game_events(game);
        self.push_event(RefereeEvent::MatchFinished);
        if let Some(result) = game.result {
            self.push_event(RefereeEvent::RoundResult(result));
        }
        self.done()
    }

    /// End the engine's running round first.
    fn end_round(&mut self, runes: &mut Vec<Rune>, game: &GameView) -> (r: Progress)
        requires
            play(*old(self), old(runes)@).wf(),
            old(self).state.pending == Pending::Nothing,
            old(self).state.sides_quiet(),
        ensures
            (play(*final(self), final(runes)@), r) == play(*old(self), old(runes)@).ending(*game),
            play(*final(self), final(runes)@).wf(),
            play(*final(self), final(runes)@).resumable(),
            times_kept(
                old(self).config.rune_teams@.len(),
                models(old(runes)@),
                models(final(runes)@),
                final(self).state.now_ns,
            ),
            final(self).config@ == old(self).config@,
            r is Call <==> final(self).state.pending != Pending::Nothing,
            final(self).state.now_ns == old(self).state.now_ns,
    {
        proof {
            reveal(Play::ending);
        }
        if game.phase == GamePhase::Running {
            self.wait(Pending::FinishEnd);
            return Progress::Call(GameCall::EndRound);
        }
        self.end_match(runes, game)
    }

    /// End the round: everything goes dark, and the engine's round with it.
    pub(crate) fn finish(&mut self, runes: &mut Vec<Rune>, game: &GameView) -> (r: Progress)
        requires
            play(*old(self), old(runes)@).wf(),
            play(*old(self), old(runes)@).runes_by(old(self).state.now_ns),
            old(self).state.pending == Pending::Nothing,
        ensures
            (play(*final(self), final(runes)@), r) == play(*old(self), old(runes)@).finishing(*game),
            play(*final(self), final(runes)@).wf(),
            play(*final(self), final(runes)@).resumable(),
            times_kept(
                old(self).config.rune_teams@.len(),
                models(old(runes)@),
                models(final(runes)@),
                final(self).state.now_ns,
            ),
            final(runes)@.len() == old(runes)@.len(),
            final(self).config@ == old(self).config@,
            r is Call <==> final(self).state.pending != Pending::Nothing,
            final(self).state.now_ns == old(self).state.now_ns,
    {
        proof {
            reveal(Play::finishing);
        }
        let t: u64 = self.match_time(self.state.now_ns);
        self.darken_runes(runes);
        self.state.finished_match_time_ns = if t < self.config.round_ns {
            t
        } else {
            self.config.round_ns
        };
        let mut red = without_attempt(self.state.red.team);
        red.buff = None;
        self.set_team(Team::Red, red);
        let mut blue = without_attempt(self.state.blue.team);
        blue.buff = None;
        self.set_team(Team::Blue, blue);
        if game.phase == GamePhase::Countdown {
            self.wait(Pending::FinishStep);
            return Progress::Call(GameCall::Step { ticks: game.countdown_left_ticks });
        }
        self.end_round(runes, game)
    }

    /// End the round when its time is over or the engine's round is.
    fn check_round(&mut self, runes: &mut Vec<Rune>, game: &GameView) -> (r: Progress)
        requires
            play(*old(self), old(runes)@).wf(),
            play(*old(self), old(runes)@).driven_by(old(self).state.now_ns),
            old(self).state.pending == Pending::Nothing,
            old(self).state.phase == MatchPhase::Running,
        ensures
            (play(*final(self), final(runes)@), r) == play(*old(self), old(runes)@).round_checked(*game),
            play(*final(self), final(runes)@).wf(),
            play(*final(self), final(runes)@).resumable(),
            times_kept(
                old(self).config.rune_teams@.len(),
                models(old(runes)@),
                models(final(runes)@),
                final(self).state.now_ns,
            ),
            final(runes)@.len() == old(runes)@.len(),
            final(self).config@ == old(self).config@,
            r is Call <==> final(self).state.pending != Pending::Nothing,
            final(self).state.now_ns == old(self).state.now_ns,
    {
        proof {
            reveal(Play::round_checked);
        }
        let t: u64 = self.match_time(self.state.now_ns);
        if t >= self.config.round_ns || game.phase != GamePhase::Running {
            if none_ahead(runes, self.config.rune_teams.len(), self.state.now_ns) {
                self.finish(runes, game)
            } else {
                Progress::Refused("rune rejected the referee's request")
            }
        } else {
            self.done()
        }
    }

    /// Blue's buff, and what follows.
    fn blue_buff(&mut self, runes: &mut Vec<Rune>, game: &GameView) -> (r: Progress)
        requires
            play(*old(self), old(runes)@).wf(),
            play(*old(self), old(runes)@).driven_by(old(self).state.now_ns),
            old(self).state.pending == Pending::Nothing,
            old(self).state.phase == MatchPhase::Running,
        ensures
            (play(*final(self), final(runes)@), r) == play(*old(self), old(runes)@).blue_buff(*game),
            play(*final(self), final(runes)@).wf(),
            play(*final(self), final(runes)@).resumable(),
            times_kept(
                old(self).config.rune_teams@.len(),
                models(old(runes)@),
                models(final(runes)@),
                final(self).state.now_ns,
            ),
            final(runes)@.len() == old(runes)@.len(),
            final(self).config@ == old(self).config@,
            r is Call <==> final(self).state.pending != Pending::Nothing,
            final(self).state.now_ns == old(self).state.now_ns,
    {
        proof {
            reveal(Play::blue_buff);
        }
        match self.tick_buff(Team::Blue, runes) {
            Some(call) => Progress::Call(call),
            None => self.check_round(runes, game),
        }
    }

    /// Blue's attempt, and what follows.
    fn blue_attempt(&mut self, runes: &mut Vec<Rune>, game: &GameView) -> (r: Progress)
        requires
            play(*old(self), old(runes)@).wf(),
            play(*old(self), old(runes)@).driven_by(old(self).state.now_ns),
            old(self).state.pending == Pending::Nothing,
            old(self).state.phase == MatchPhase::Running,
        ensures
            (play(*final(self), final(runes)@), r) == play(*old(self), old(runes)@).blue_attempt(*game),
            play(*final(self), final(runes)@).wf(),
            play(*final(self), final(runes)@).resumable(),
            times_kept(
                old(self).config.rune_teams@.len(),
                models(old(runes)@),
                models(final(runes)@),
                final(self).state.now_ns,
            ),
            final(runes)@.len() == old(runes)@.len(),
            final(self).config@ == old(self).config@,
            r is Call <==> final(self).state.pending != Pending::Nothing,
            final(self).state.now_ns == old(self).state.now_ns,
    {
        proof {
            reveal(Play::blue_attempt);
        }
        match self.tick_attempt(Team::Blue, runes) {
            Some(call) => Progress::Call(call),
            None => self.blue_buff(runes, game),
        }
    }

    /// Red's buff, and what follows.
    fn red_buff(&mut self, runes: &mut Vec<Rune>, game: &GameView) -> (r: Progress)
        requires
            play(*old(self), old(runes)@).wf(),
            play(*old(self), old(runes)@).driven_by(old(self).state.now_ns),
            old(self).state.pending == Pending::Nothing,
            old(self).state.phase == MatchPhase::Running,
        ensures
            (play(*final(self), final(runes)@), r) == play(*old(self), old(runes)@).red_buff(*game),
            play(*final(self), final(runes)@).wf(),
            play(*final(self), final(runes)@).resumable(),
            times_kept(
                old(self).config.rune_teams@.len(),
                models(old(runes)@),
                models(final(runes)@),
                final(self).state.now_ns,
            ),
            final(runes)@.len() == old(runes)@.len(),
            final(self).config@ == old(self).config@,
            r is Call <==> final(self).state.pending != Pending::Nothing,
            final(self).state.now_ns == old(self).state.now_ns,
    {
        proof {
            reveal(Play::red_buff);
        }
        match self.tick_buff(Team::Red, runes) {
            Some(call) => Progress::Call(call),
            None => self.blue_attempt(runes, game),
        }
    }

    /// Red's attempt, and what follows.
    fn red_attempt(&mut self, runes: &mut Vec<Rune>, game: &GameView) -> (r: Progress)
        requires
            play(*old(self), old(runes)@).wf(),
            play(*old(self), old(runes)@).driven_by(old(self).state.now_ns),
            old(self).state.pending == Pending::Nothing,
            old(self).state.phase == MatchPhase::Running,
        ensures
            (play(*final(self), final(runes)@), r) == play(*old(self), old(runes)@).red_attempt(*game),
            play(*final(self), final(runes)@).wf(),
            play(*final(self), final(runes)@).resumable(),
            times_kept(
                old(self).config.rune_teams@.len(),
                models(old(runes)@),
                models(final(runes)@),
                final(self).state.now_ns,
            ),
            final(runes)@.len() == old(runes)@.len(),
            final(self).config@ == old(self).config@,
            r is Call <==> final(self).state.pending != Pending::Nothing,
            final(self).state.now_ns == old(self).state.now_ns,
    {
        proof {
            reveal(Play::red_attempt);
        }
        match self.tick_attempt(Team::Red, runes) {
            Some(call) => Progress::Call(call),
            None => self.red_buff(runes, game),
        }
    }

    /// Round ticks that the engine is behind the round clock.
    pub(crate) fn ticks_behind(&self, game: &GameView) -> (r: u64)
        ensures
            r == self@.ticks_behind(*game),
    {
        if game.phase != GamePhase::Running {
            return 0;
        }
        let t: u64 = self.match_time(self.state.now_ns);
        let target: u64 = if t < self.config.round_ns {
            t
        } else {
            self.config.round_ns
        };
        (target / TICK_NS).saturating_sub(game.round_ticks)
    }

    /// Let the engine catch up with the round clock, then move the round on.
    fn advance_round(&mut self, runes: &mut Vec<Rune>, game: &GameView) -> (r: Progress)
        requires
            play(*old(self), old(runes)@).wf(),
            play(*old(self), old(runes)@).plays_by(old(self).state.now_ns),
            old(self).state.pending == Pending::Nothing,
            old(self).state.phase == MatchPhase::Running,
        ensures
            (play(*final(self), final(runes)@), r) == play(*old(self), old(runes)@).round_advanced(*game),
            play(*final(self), final(runes)@).wf(),
            play(*final(self), final(runes)@).resumable(),
            times_kept(
                old(self).config.rune_teams@.len(),
                models(old(runes)@),
                models(final(runes)@),
                final(self).state.now_ns,
            ),
            final(runes)@.len() == old(runes)@.len(),
            final(self).config@ == old(self).config@,
            r is Call <==> final(self).state.pending != Pending::Nothing,
            final(self).state.now_ns == old(self).state.now_ns,
    {
        proof {
            reveal(Play::round_advanced);
        }
        let behind: u64 = self.ticks_behind(game);
        if behind > 0 {
            self.wait(Pending::RoundStep);
            return Progress::Call(GameCall::Step { ticks: behind });
        }
        self.run_schedule(runes);
        self.red_attempt(runes, game)
    }

    /// Skip the round clock forward, and the engine's with it.
    pub(crate) fn skip(&mut self, match_time_ns: u64, runes: &mut Vec<Rune>, game: &GameView) -> (r: Progress)
        requires
            play(*old(self), old(runes)@).wf(),
            old(self).state.pending == Pending::Nothing,
            old(self).state.phase == MatchPhase::Running,
        ensures
            (play(*final(self), final(runes)@), r) == play(*old(self), old(runes)@).skipping(match_time_ns, *game),
            play(*final(self), final(runes)@).wf(),
            play(*final(self), final(runes)@).resumable(),
            times_kept(
                old(self).config.rune_teams@.len(),
                models(old(runes)@),
                models(final(runes)@),
                final(self).state.now_ns,
            ),
            final(self).config@ == old(self).config@,
            r is Call <==> final(self).state.pending != Pending::Nothing,
            final(self).state.now_ns == old(self).state.now_ns,
    {
        proof {
            reveal(Play::skipping);
        }
        let current: u64 = self.match_time(self.state.now_ns);
        let target: u64 = if match_time_ns < self.config.round_ns {
            match_time_ns
        } else {
            self.config.round_ns
        };
        self.state.skipped_ns = self.state.skipped_ns + target.saturating_sub(current);
        if game.phase == GamePhase::Running {
            self.wait(Pending::Noted);
            return Progress::Call(GameCall::SkipTo { round_ticks: target / TICK_NS });
        }
        self.drain_game_events(game);
        self.done()
    }

    /// Tell the engine of teams without an outpost, then start the countdown.
    fn open_match(&mut self, done: u32, runes: &mut Vec<Rune>, game: &GameView) -> (r: Progress)
        requires
            play(*old(self), old(runes)@).wf(),
            old(self).state.pending == Pending::Nothing,
            old(self).state.sides_quiet(),
        ensures
            (play(*final(self), final(runes)@), r) == play(*old(self), old(runes)@).opening(done, *game),
            play(*final(self), final(runes)@).wf(),
            play(*final(self), final(runes)@).resumable(),
            times_kept(
                old(self).config.rune_teams@.len(),
                models(old(runes)@),
                models(final(runes)@),
                final(self).state.now_ns,
            ),
            final(self).config@ == old(self).config@,
            r is Call <==> final(self).state.pending != Pending::Nothing,
            final(self).state.now_ns == old(self).state.now_ns,
    {
        proof {
            reveal(Play::opening);
        }
        if done == 0 && self.outpost_of(Team::Red).is_none() {
            self.wait(Pending::Opening { done: 1 });
            return Progress::Call(GameCall::SetOutpostHp { team: Team::Red, hp: 0 });
        }
        if done <= 1 && self.outpost_of(Team::Blue).is_none() {
            self.wait(Pending::Opening { done: 2 });
            return Progress::Call(GameCall::SetOutpostHp { team: Team::Blue, hp: 0 });
        }
        self.state.phase = MatchPhase::Countdown;
        self.state.phase_started_ns = self.state.now_ns;
        self.push_event(RefereeEvent::CountdownStarted);
        self.drain_game_events(game);
        self.done()
    }

    /// Darken a team's rune and set its buff.
    pub(crate) fn buff_team(&mut self, team: Team, buff: Option<BuffState>, runes: &mut Vec<Rune>)
        requires
            play(*old(self), old(runes)@).wf(),
            old(self).state.pending == Pending::Nothing,
            old(self).state.phase == MatchPhase::Running,
            old(self)@.rune_of(team) is Some,
            play(*old(self), old(runes)@).team_by(team, old(self).state.now_ns),
        ensures
            play(*final(self), final(runes)@) == play(*old(self), old(runes)@).buffed(
                team,
                buff,
                old(self)@,
            ),
            play(*final(self), final(runes)@).wf(),
            times_kept(
                old(self).config.rune_teams@.len(),
                models(old(runes)@),
                models(final(runes)@),
                old(self).state.now_ns,
            ),
            final(self).config@ == old(self).config@,
            final(self).state.now_ns == old(self).state.now_ns,
            final(self).state.pending == Pending::Nothing,
    {
        let ghost before = play(*self, runes@);
        let index: usize = match self.rune_of(team) {
            Some(index) => index,
            None => {
                return;
            },
        };
        let now_ns: u64 = self.state.now_ns;
        proof {
            assert(models(runes@)[index as int] == runes@[index as int]@);
            assert(before.runes[index as int].wf());
        }
        let _ = runes[index].deactivate(now_ns);
        proof {
            assert(models(runes@) =~= before.rune_darkened(index as int).runes);
            assert forall|i: int| 0 <= i < runes@.len() implies (#[trigger] models(
                runes@,
            )[i]).wf() by {
                if i != index {
                    assert(before.runes[i].wf());
                }
            }
        }
        let mut state = without_attempt(self.side(team).team);
        state.buff = buff;
        self.set_team(team, state);
    }

    /// Go on after a call that ends a command.
    fn resume_answer(
        &mut self,
        reply: Result<(), GameError>,
        runes: &mut Vec<Rune>,
        game: &GameView,
    ) -> (r: Progress)
        requires
            play(*old(self), old(runes)@).wf(),
            play(*old(self), old(runes)@).resumable(),
            (old(self).state.pending is Forwarded || old(self).state.pending is Noted
                || old(self).state.pending is OutpostSet || old(self).state.pending is Adjudicated
                || old(self).state.pending is BuffSet),
        ensures
            (play(*final(self), final(runes)@), r) == play(*old(self), old(runes)@).resumed(
                reply,
                *game,
            ),
            play(*final(self), final(runes)@).wf(),
            play(*final(self), final(runes)@).resumable(),
            times_kept(
                old(self).config.rune_teams@.len(),
                models(old(runes)@),
                models(final(runes)@),
                final(self).state.now_ns,
            ),
            final(self).config@ == old(self).config@,
            final(self).state.now_ns <= old(self).state.now_ns,
            r is Call <==> final(self).state.pending != Pending::Nothing,
    {
        proof {
            reveal(Play::resumed);
        }
        let pending = self.state.pending;
        let phase = match reply {
            Err(error) => error == GameError::Phase,
            Ok(()) => false,
        };
        self.wait(Pending::Nothing);
        match pending {
            Pending::Forwarded { since_ns } => {
                if phase {
                    self.state.now_ns = since_ns;
                } else {
                    self.drain_game_events(game);
                }
                match reply {
                    Ok(()) => Progress::Done,
                    Err(error) => Progress::Refused(error.message()),
                }
            },
            Pending::BuffSet { team, buff, since_ns } => {
                if phase {
                    self.state.now_ns = since_ns;
                } else {
                    self.buff_team(team, Some(buff), runes);
                    self.drain_game_events(game);
                }
                match reply {
                    Ok(()) => Progress::Done,
                    Err(error) => Progress::Refused(error.message()),
                }
            },
            Pending::OutpostSet { team, destroyed, since_ns } => {
                if reply.is_err() {
                    if phase {
                        self.state.now_ns = since_ns;
                    }
                    return Progress::Refused("outpost HP must be at most 1500");
                }
                if destroyed {
                    self.outpost_destroyed(team);
                }
                self.drain_game_events(game);
                Progress::Done
            },
            Pending::Adjudicated { since_ns } => match reply {
                Err(error) => {
                    if phase {
                        self.state.now_ns = since_ns;
                    }
                    Progress::Refused(error.message())
                },
                Ok(()) => {
                    if let Some(result) = game.result {
                        self.push_event(RefereeEvent::RoundResult(result));
                    }
                    self.drain_game_events(game);
                    Progress::Done
                },
            },
            _ => {
                self.drain_game_events(game);
                Progress::Done
            },
        }
    }

    /// Go on after a change of the roster.
    fn resume_roster(
        &mut self,
        reply: Result<(), GameError>,
        runes: &mut Vec<Rune>,
        game: &GameView,
    ) -> (r: Progress)
        requires
            play(*old(self), old(runes)@).wf(),
            (old(self).state.pending is Joining || old(self).state.pending is Leaving),
        ensures
            (play(*final(self), final(runes)@), r) == play(*old(self), old(runes)@).resumed(
                reply,
                *game,
            ),
            play(*final(self), final(runes)@).wf(),
            play(*final(self), final(runes)@).resumable(),
            times_kept(
                old(self).config.rune_teams@.len(),
                models(old(runes)@),
                models(final(runes)@),
                final(self).state.now_ns,
            ),
            final(self).config@ == old(self).config@,
            final(self).state.now_ns == old(self).state.now_ns,
            r is Call <==> final(self).state.pending != Pending::Nothing,
    {
        proof {
            reveal(Play::resumed);
        }
        let pending = self.state.pending;
        self.wait(Pending::Nothing);
        match pending {
            Pending::Joining { robot, team } => {
                if reply.is_err() {
                    return Progress::Refused("the performance does not fit the robot class");
                }
                self.drain_game_events(game);
                self.push_event(RefereeEvent::RobotJoined { robot, team });
            },
            Pending::Leaving { robot } => match reply {
                Err(error) => {
                    return Progress::Refused(error.message());
                },
                Ok(()) => {
                    self.drain_game_events(game);
                    self.push_event(RefereeEvent::RobotLeft { robot });
                },
            },
            _ => {},
        }
        Progress::Done
    }

    /// Go on after the engine was reset.
    fn resume_reset(
        &mut self,
        reply: Result<(), GameError>,
        runes: &mut Vec<Rune>,
        game: &GameView,
    ) -> (r: Progress)
        requires
            play(*old(self), old(runes)@).wf(),
            old(self).state.pending is Resetting,
        ensures
            (play(*final(self), final(runes)@), r) == play(*old(self), old(runes)@).resumed(
                reply,
                *game,
            ),
            play(*final(self), final(runes)@).wf(),
            play(*final(self), final(runes)@).resumable(),
            times_kept(
                old(self).config.rune_teams@.len(),
                models(old(runes)@),
                models(final(runes)@),
                final(self).state.now_ns,
            ),
            final(self).config@ == old(self).config@,
            final(self).state.now_ns == old(self).state.now_ns,
            r is Call <==> final(self).state.pending != Pending::Nothing,
    {
        proof {
            reveal(Play::resumed);
        }
        let pending = self.state.pending;
        self.wait(Pending::Nothing);
        self.state.game_events_seen = game.next_event_id;
        match pending {
            Pending::Resetting { start } => {
                if start {
                    self.wait(Pending::Opening { done: 0 });
                    return Progress::Call(GameCall::BeginCountdown);
                }
            },
            _ => {},
        }
        self.state.phase = MatchPhase::Idle;
        self.state.phase_started_ns = self.state.now_ns;
        self.push_event(RefereeEvent::MatchReset);
        self.drain_game_events(game);
        Progress::Done
    }

    /// Go on with a tick of a running round.
    fn resume_round(
        &mut self,
        reply: Result<(), GameError>,
        runes: &mut Vec<Rune>,
        game: &GameView,
    ) -> (r: Progress)
        requires
            play(*old(self), old(runes)@).wf(),
            play(*old(self), old(runes)@).resumable(),
            (old(self).state.pending is RoundStep || old(self).state.pending is RuneActivated
                || old(self).state.pending is BuffCleared),
        ensures
            (play(*final(self), final(runes)@), r) == play(*old(self), old(runes)@).resumed(
                reply,
                *game,
            ),
            play(*final(self), final(runes)@).wf(),
            play(*final(self), final(runes)@).resumable(),
            times_kept(
                old(self).config.rune_teams@.len(),
                models(old(runes)@),
                models(final(runes)@),
                final(self).state.now_ns,
            ),
            final(runes)@.len() == old(runes)@.len(),
            final(self).config@ == old(self).config@,
            final(self).state.now_ns == old(self).state.now_ns,
            r is Call <==> final(self).state.pending != Pending::Nothing,
    {
        proof {
            reveal(Play::resumed);
        }
        let pending = self.state.pending;
        self.wait(Pending::Nothing);
        match pending {
            Pending::RuneActivated { team, arms, ring_sum, buff } => {
                let stage = self.state.stage;
                self.push_event(
                    RefereeEvent::RuneActivated { team, stage, arms, ring_sum, buff },
                );
                self.drain_game_events(game);
                match team {
                    Team::Red => self.red_buff(runes, game),
                    Team::Blue => self.blue_buff(runes, game),
                }
            },
            Pending::BuffCleared { team } => {
                self.push_event(RefereeEvent::BuffExpired { team });
                match team {
                    Team::Red => self.blue_attempt(runes, game),
                    Team::Blue => self.check_round(runes, game),
                }
            },
            _ => {
                self.drain_game_events(game);
                self.run_schedule(runes);
                self.red_attempt(runes, game)
            },
        }
    }

    /// Go on with a match that opens, starts, skips or ends.
    fn resume_match(
        &mut self,
        reply: Result<(), GameError>,
        runes: &mut Vec<Rune>,
        game: &GameView,
    ) -> (r: Progress)
        requires
            play(*old(self), old(runes)@).wf(),
            play(*old(self), old(runes)@).resumable(),
            (old(self).state.pending is Opening || old(self).state.pending is SkipStep
                || old(self).state.pending is FinishStep || old(self).state.pending is FinishEnd
                || old(self).state.pending is CountdownStep),
        ensures
            (play(*final(self), final(runes)@), r) == play(*old(self), old(runes)@).resumed(
                reply,
                *game,
            ),
            play(*final(self), final(runes)@).wf(),
            play(*final(self), final(runes)@).resumable(),
            times_kept(
                old(self).config.rune_teams@.len(),
                models(old(runes)@),
                models(final(runes)@),
                final(self).state.now_ns,
            ),
            final(self).config@ == old(self).config@,
            final(self).state.now_ns == old(self).state.now_ns,
            r is Call <==> final(self).state.pending != Pending::Nothing,
    {
        proof {
            reveal(Play::resumed);
        }
        let pending = self.state.pending;
        self.wait(Pending::Nothing);
        match pending {
            Pending::Opening { done } => self.open_match(done, runes, game),
            Pending::SkipStep { match_time_ns } => {
                self.drain_game_events(game);
                self.skip(match_time_ns, runes, game)
            },
            Pending::FinishStep => self.end_round(runes, game),
            Pending::FinishEnd => self.end_match(runes, game),
            _ => self.begin_round(runes, game),
        }
    }

    /// Go on after the call the referee waited for: `reply` is the engine's
    /// answer and `game` its state after the call.
    pub fn resume(
        &mut self,
        reply: Result<(), GameError>,
        runes: &mut Vec<Rune>,
        game: &GameView,
    ) -> (r: Progress)
        requires
            play(*old(self), old(runes)@).wf(),
            play(*old(self), old(runes)@).resumable(),
        ensures
            (play(*final(self), final(runes)@), r) == play(*old(self), old(runes)@).resumed(
                reply,
                *game,
            ),
            play(*final(self), final(runes)@).wf(),
            play(*final(self), final(runes)@).resumable(),
            times_kept(
                old(self).config.rune_teams@.len(),
                models(old(runes)@),
                models(final(runes)@),
                final(self).state.now_ns,
            ),
            final(self).config@ == old(self).config@,
            final(self).state.now_ns <= old(self).state.now_ns,
            r is Call <==> final(self).state.pending != Pending::Nothing,
    {
        match self.state.pending {
            Pending::Nothing => {
                proof {
                    reveal(Play::resumed);
                }
                Progress::Done
            },
            Pending::Forwarded { .. }
            | Pending::Noted
            | Pending::OutpostSet { .. }
            | Pending::Adjudicated { .. }
            | Pending::BuffSet { .. } => self.resume_answer(reply, runes, game),
            Pending::Joining { .. } | Pending::Leaving { .. } => self.resume_roster(
                reply,
                runes,
                game,
            ),
            Pending::Resetting { .. } => self.resume_reset(reply, runes, game),
            Pending::RoundStep
            | Pending::RuneActivated { .. }
            | Pending::BuffCleared { .. } => self.resume_round(reply, runes, game),
            _ => self.resume_match(reply, runes, game),
        }
    }

    /// The countdown is over: start the round clock.
    fn begin_round(&mut self, runes: &mut Vec<Rune>, game: &GameView) -> (r: Progress)
        requires
            play(*old(self), old(runes)@).wf(),
            play(*old(self), old(runes)@).driven_by(old(self).state.now_ns),
            old(self).state.pending == Pending::Nothing,
            old(self).state.phase == MatchPhase::Countdown,
        ensures
            (play(*final(self), final(runes)@), r) == ({
                let d = old(self)@.drained(*game);
                let running = d.with(
                    MatchState {
                        phase: MatchPhase::Running,
                        phase_started_ns: d.state.now_ns,
                        match_started_ns: d.state.now_ns,
                        skipped_ns: 0,
                        ..d.state
                    },
                );
                play(*old(self), old(runes)@).under(
                    running.told(RefereeEvent::MatchStarted),
                ).round_advanced(*game)
            }),
            play(*final(self), final(runes)@).wf(),
            play(*final(self), final(runes)@).resumable(),
            times_kept(
                old(self).config.rune_teams@.len(),
                models(old(runes)@),
                models(final(runes)@),
                final(self).state.now_ns,
            ),
            final(runes)@.len() == old(runes)@.len(),
            final(self).config@ == old(self).config@,
            final(self).state.now_ns == old(self).state.now_ns,
            r is Call <==> final(self).state.pending != Pending::Nothing,
    {
        self.drain_game_events(game);
        self.state.phase = MatchPhase::Running;
        self.state.phase_started_ns = self.state.now_ns;
        self.state.match_started_ns = self.state.now_ns;
        self.state.skipped_ns = 0;
        self.push_event(RefereeEvent::MatchStarted);
        self.advance_round(runes, game)
    }

    /// Rest a base that finished its travel.
    fn rest_base(&mut self, team: Team)
        requires
            old(self)@.wf(),
        ensures
            final(self)@ == old(self)@.with(
                old(self).state.base_rested(team, old(self).base_travel_ns),
            ),
            final(self)@.wf(),
    {
        let mut side = self.side(team);
        if let Some(moved) = side.base_moved_ns {
            if self.state.now_ns.saturating_sub(moved) >= self.base_travel_ns {
                side.base_moved_ns = None;
                self.set_side(team, side);
            }
        }
    }

    /// Whether the rune that a team plays with is not ahead of `now_ns`.
    fn team_ready(&self, team: Team, now_ns: u64, runes: &Vec<Rune>) -> (r: bool)
        requires
            play(*self, runes@).wf(),
        ensures
            r == play(*self, runes@).team_by(team, now_ns),
    {
        match self.rune_of(team) {
            Some(index) => {
                proof {
                    assert(models(runes@)[index as int] == runes@[index as int]@);
                }
                runes[index].time_ns() <= now_ns
            },
            None => true,
        }
    }

    /// Whether no rune that a running round drives at `now_ns` is ahead of it.
    fn can_drive(&self, now_ns: u64, runes: &Vec<Rune>) -> (r: bool)
        requires
            play(*self, runes@).wf(),
        ensures
            r == play(*self, runes@).drivable(now_ns),
    {
        if !self.team_ready(Team::Red, now_ns, runes) || !self.team_ready(
            Team::Blue,
            now_ns,
            runes,
        ) {
            return false;
        }
        let n: usize = self.config.rune_teams.len();
        let t: u64 = self.match_time(now_ns);
        if self.state.schedule_index <= 2 && t >= BIG_RUNE_STAGE_NS && !none_to_convert_ahead(
            runes,
            n,
            now_ns,
        ) {
            return false;
        }
        t < self.config.round_ns || none_ahead(runes, n, now_ns)
    }

    /// Advance to `now_ns`, never backwards, driving the runes it owns and the
    /// engine's round clock. A refused call changes nothing.
    pub fn tick(&mut self, now_ns: u64, runes: &mut Vec<Rune>, game: &GameView) -> (r: Result<
        Progress,
        RuneError,
    >)
        requires
            play(*old(self), old(runes)@).wf(),
            old(self).state.pending == Pending::Nothing,
        ensures
            r is Ok <==> play(*old(self), old(runes)@).tickable(now_ns),
            r is Err ==> r->Err_0 == RuneError::TimeReversal && *final(self) == *old(self)
                && final(runes)@ == old(runes)@,
            r is Ok ==> {
                &&& (play(*final(self), final(runes)@), r->Ok_0) == play(
                    *old(self),
                    old(runes)@,
                ).ticked(now_ns, *game)
                &&& play(*final(self), final(runes)@).resumable()
                &&& r->Ok_0 is Call <==> final(self).state.pending != Pending::Nothing
            },
            play(*final(self), final(runes)@).wf(),
            times_kept(
                old(self).config.rune_teams@.len(),
                models(old(runes)@),
                models(final(runes)@),
                final(self).state.now_ns,
            ),
            final(self).config@ == old(self).config@,
            final(self).state.now_ns == (if r is Ok {
                now_ns
            } else {
                old(self).state.now_ns
            }),
    {
        if now_ns < self.state.now_ns {
            return Err(RuneError::TimeReversal);
        }
        let counted = self.state.phase == MatchPhase::Countdown && now_ns
            - self.state.phase_started_ns >= self.config.countdown_ns;
        let runs = self.state.phase == MatchPhase::Running || counted;
        if runs && !self.can_drive(now_ns, runes) {
            return Err(RuneError::TimeReversal);
        }
        self.state.now_ns = now_ns;
        self.rest_base(Team::Red);
        self.rest_base(Team::Blue);
        if !runs {
            return Ok(self.done());
        }
        if counted {
            self.wait(Pending::CountdownStep);
            return Ok(Progress::Call(GameCall::Step { ticks: game.countdown_left_ticks }));
        }
        Ok(self.advance_round(runes, game))
    }
}

} // verus!

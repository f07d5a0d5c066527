//! The field's clock: stepping, the referee's part in a tick, and operator
//! commands.
use super::memory::{
    dropping_in_steps, memory_is_kept, retain_recent, younger, younger_is_in_memory,
};
use super::{Field, FieldError, FieldModel};
use crate::game::{GameError, GameView};
use crate::outpost::Outpost;
use crate::referee::machine::{play, Referee};
use crate::referee::model::{models, times_kept, Pending, Play, Progress};
use crate::referee::{MatchPhase, RefereeCommand, OUTPOST_ROTOR_STOP_NS};
use crate::rune::runner::{Rune, RuneModel};
use crate::target::{Caliber, Team};
use vstd::prelude::*;

verus! {

/// What the next part of a step is.
#[derive(Clone, Copy, Debug, PartialEq, Eq, Structural)]
pub enum StepAction {
    /// The step is over.
    Finished,
    /// Nothing moves and no referee watches: jump to the end.
    Jump,
    /// Go on by one tick; with bodies in motion the physics steps too.
    Tick {
        /// Bodies are in motion.
        physics: bool,
    },
}

/// Every rune brought up to `t`.
pub open spec fn runes_at(runes: Seq<RuneModel>, t: u64) -> Seq<RuneModel> {
    runes.map_values(|rune: RuneModel| rune.advanced(t))
}

impl FieldModel {
    /// The field at a later tick, when nothing happens before but the runes'
    /// own rules: contacts that are a second old by then are gone.
    pub open spec fn jumped(self, end: u64) -> FieldModel {
        FieldModel {
            tick: end,
            runes: runes_at(self.runes, (end * self.tick_ns) as u64),
            hits: younger(self.hits, end * self.tick_ns),
            ..self
        }
    }

    /// What the next part of a step to `end` is.
    pub open spec fn next_part(self, end: u64, idle: bool) -> StepAction {
        if self.tick >= end {
            StepAction::Finished
        } else if idle && self.referee is None {
            StepAction::Jump
        } else {
            StepAction::Tick { physics: !idle }
        }
    }

    /// The referee and the runes.
    pub open spec fn play(self) -> Play {
        Play { referee: self.referee->0, runes: self.runes }
    }

    /// The field with its referee and runes moved on.
    pub open spec fn playing(self, play: Play) -> FieldModel {
        FieldModel { referee: Some(play.referee), runes: play.runes, ..self }
    }

    /// A team's rotor stops for the round: at 3:00, and once the other team's
    /// base armor has expanded.
    pub open spec fn rotor_stops(self, team: Team, game: GameView) -> bool {
        let referee = self.referee->0;
        referee.match_time() >= OUTPOST_ROTOR_STOP_NS || game.team_state(
            team.opponent(),
        ).base_armor_expanded
    }

    /// A team's outpost, when it has one, with its rotor stopped where the
    /// rules say so.
    pub open spec fn rotor_checked(self, team: Team, game: GameView) -> FieldModel {
        match self.referee->0.outpost_of(team) {
            Some(index) if self.rotor_stops(team, game) => FieldModel {
                outposts: self.outposts.update(
                    index as int,
                    self.outposts[index as int].stopped(self.time_ns() as u64),
                ),
                ..self
            },
            _ => self,
        }
    }

    /// What follows the referee's part of a tick: the runes it changed are
    /// brought up to the tick, rotors stop, and the engine's HP is mirrored.
    pub open spec fn tick_settled(self, game: GameView) -> FieldModel {
        match self.referee {
            None => self,
            Some(referee) => {
                let f = FieldModel {
                    runes: runes_at(self.runes, self.time_ns() as u64),
                    ..self
                };
                let stopped = if referee.state.phase == MatchPhase::Running {
                    f.rotor_checked(Team::Red, game).rotor_checked(Team::Blue, game)
                } else {
                    f
                };
                stopped.mirrored(game)
            },
        }
    }

    /// What follows a command the referee carried out: a new match and a reset
    /// restore every outpost, and the engine's HP is mirrored.
    pub open spec fn command_settled(self, command: RefereeCommand, game: GameView) -> FieldModel {
        match self.referee {
            None => self,
            Some(referee) => {
                let start_ns = (self.time_ns() as u64).saturating_add(
                    referee.config.countdown_ns,
                );
                let outposts = match command {
                    RefereeCommand::StartMatch => self.outposts.map_values(
                        |tower: Outpost| tower.in_match_from(start_ns),
                    ),
                    RefereeCommand::ResetMatch => self.outposts.map_values(
                        |tower: Outpost| tower.in_training(),
                    ),
                    _ => self.outposts,
                };
                (FieldModel { outposts, ..self }).mirrored(game)
            },
        }
    }
}

/// Stepping in pieces equals one large step, for a field whose clock alone
/// moves: the field at `later` does not depend on a stop at `sooner`.
pub proof fn jumping_in_pieces(field: FieldModel, sooner: u64, later: u64)
    requires
        field.wf(),
        field.tick <= sooner <= later,
        later * field.tick_ns <= u64::MAX,
    ensures
        field.jumped(sooner).jumped(later) == field.jumped(later),
{
    let p = field.tick_ns as int;
    assert(field.tick * p <= sooner * p <= later * p) by (nonlinear_arith)
        requires
            field.tick <= sooner <= later,
            0 < p,
    ;
    let a = (sooner * field.tick_ns) as u64;
    let b = (later * field.tick_ns) as u64;
    assert forall|i: int| 0 <= i < field.runes.len() implies field.runes[i].advanced(a).advanced(b)
        == (#[trigger] field.runes[i]).advanced(b) by {
        field.runes[i].advancing_in_steps(a, b);
    }
    assert(field.jumped(sooner).jumped(later).runes =~= field.jumped(later).runes);
    dropping_in_steps(field.hits, sooner * p, later * p);
}

/// Bring every rune up to a time that none is past.
fn advance_runes(runes: &mut Vec<Rune>, time_ns: u64)
    requires
        forall|i: int|
            0 <= i < old(runes)@.len() ==> (#[trigger] old(runes)@[i]).wf()
                && old(runes)@[i]@.time_ns() <= time_ns,
    ensures
        models(final(runes)@) == runes_at(models(old(runes)@), time_ns),
        forall|i: int|
            0 <= i < final(runes)@.len() ==> (#[trigger] final(runes)@[i]).wf()
                && final(runes)@[i]@.time_ns() == time_ns,
{
    let ghost start = runes@;
    let mut i: usize = 0;
    while i < runes.len()
        invariant
            i <= runes@.len(),
            runes@.len() == start.len(),
            forall|k: int|
                0 <= k < start.len() ==> (#[trigger] start[k]).wf() && start[k]@.time_ns()
                    <= time_ns,
            forall|k: int|
                0 <= k < i ==> (#[trigger] runes@[k]).wf() && runes@[k]@.time_ns() == time_ns
                    && runes@[k]@ == start[k]@.advanced(time_ns),
            forall|k: int| i <= k < runes@.len() ==> (#[trigger] runes@[k]) == start[k],
        decreases runes@.len() - i,
    {
        proof {
            assert(start[i as int].wf());
        }
        let _ = runes[i].advance_to(time_ns);
        i += 1;
    }
    proof {
        assert(models(runes@) =~= runes_at(models(start), time_ns));
    }
}

/// The referee's part of a tick keeps the field's invariant.
proof fn lemma_play_changed(before: FieldModel, after: FieldModel)
    requires
        before.wf(),
        before.referee is Some,
        after.referee is Some,
        after == before.playing(after.play()),
        after.play().wf(),
        after.runes.len() == before.runes.len(),
        after.referee->0.config == before.referee->0.config,
        after.referee->0.state.now_ns <= before.time_ns(),
        times_kept(
            before.runes.len(),
            before.runes,
            after.runes,
            after.referee->0.state.now_ns,
        ),
    ensures
        after.wf(),
{
    assert forall|i: int| 0 <= i < after.runes.len() implies (#[trigger] after.runes[i]).wf()
        && after.runes[i].time_ns() <= after.time_ns() by {
        assert(after.play().runes[i].wf());
        assert(before.runes[i].time_ns() <= before.time_ns());
    }
}

impl Field {
    /// The tick at which a step of `ticks` ticks ends. A step past the range
    /// of the clock is refused.
    pub fn span(&self, ticks: u64) -> (r: Result<u64, FieldError>)
        requires
            self.tick_ns > 0,
        ensures
            r == (if self.tick + ticks <= u64::MAX && (self.tick + ticks) * self.tick_ns
                <= u64::MAX {
                Ok((self.tick + ticks) as u64)
            } else {
                Err(FieldError::TickOverflow)
            }),
            r is Ok ==> r->Ok_0 - self.tick == ticks,
    {
        match self.tick.checked_add(ticks) {
            Some(end) => match end.checked_mul(self.tick_ns) {
                Some(_) => Ok(end),
                None => Err(FieldError::TickOverflow),
            },
            None => Err(FieldError::TickOverflow),
        }
    }

    /// What the next part of a step to `end` is; `idle` says that no body is
    /// in motion.
    pub fn next_action(&self, end: u64, idle: bool) -> (r: StepAction)
        ensures
            r == self@.next_part(end, idle),
    {
        if self.tick >= end {
            StepAction::Finished
        } else if idle && self.referee.is_none() {
            StepAction::Jump
        } else {
            StepAction::Tick { physics: !idle }
        }
    }

    /// Move the clock on to tick `end`, and every rune with it. Contacts that
    /// are a second old by then are dropped.
    pub fn advance_to_tick(&mut self, end: u64)
        requires
            old(self).wf(),
            old(self).tick <= end,
            end * old(self).tick_ns <= u64::MAX,
        ensures
            final(self)@ == old(self)@.jumped(end),
            final(self).wf(),
    {
        let time_ns: u64 = end * self.tick_ns;
        proof {
            let t = self.tick as int;
            let e = end as int;
            let p = self.tick_ns as int;
            assert(t * p <= e * p) by (nonlinear_arith)
                requires
                    t <= e,
                    0 < p,
            ;
            assert forall|i: int| 0 <= i < self.runes@.len() implies (
            #[trigger] self.runes@[i]).wf() && self.runes@[i]@.time_ns() <= time_ns by {
                assert(self@.runes[i].wf());
            }
        }
        advance_runes(&mut self.runes, time_ns);
        self.hits = retain_recent(&self.hits, time_ns);
        self.tick = end;
        proof {
            younger_is_in_memory(old(self)@.hits, old(self)@.time_ns(), time_ns as int);
            assert forall|i: int| 0 <= i < self@.runes.len() implies (#[trigger] self@.runes[i]).wf()
                && self@.runes[i].time_ns() <= self@.time_ns() by {
                assert(self.runes@[i].wf());
            }
        }
    }

    /// Bring the referee up to the field's time. It may need the engine
    /// first; a field without one has nothing to do.
    pub fn tick_referee(&mut self, game: &GameView) -> (r: Progress)
        requires
            old(self).wf(),
            old(self)@.referee is Some ==> old(self)@.referee->0.state.pending
                == Pending::Nothing,
        ensures
            old(self)@.referee is None ==> r == Progress::Done && final(self)@ == old(self)@,
            old(self)@.referee is Some ==> ({
                let (after, progress) = old(self)@.play().ticked(
                    old(self)@.time_ns() as u64,
                    *game,
                );
                final(self)@ == old(self)@.playing(after) && r == progress
            }),
            final(self)@.referee is Some ==> final(self)@.play().resumable() && (r is Call
                <==> final(self)@.referee->0.state.pending != Pending::Nothing),
            final(self)@.runes.len() == old(self)@.runes.len(),
            (final(self)@.referee is Some) == (old(self)@.referee is Some),
            final(self).wf(),
    {
        let time_ns: u64 = self.time_ns();
        let ghost start = self@;
        let r = match &mut self.referee {
            None => Progress::Done,
            Some(referee) => {
                proof {
                    assert(play(*referee, self.runes@) == start.play());
                    assert(start.play().runes_by(time_ns));
                    start.play().all_by_is_enough(time_ns);
                }
                match referee.tick(time_ns, &mut self.runes, game) {
                    Ok(progress) => progress,
                    Err(_) => Progress::Done,
                }
            },
        };
        proof {
            if start.referee is Some {
                lemma_play_changed(start, self@);
            }
        }
        r
    }

    /// Go on after the call that the referee waited for.
    pub fn resume_referee(&mut self, reply: Result<(), GameError>, game: &GameView) -> (r: Progress)
        requires
            old(self).wf(),
            old(self)@.referee is Some ==> old(self)@.play().resumable(),
        ensures
            old(self)@.referee is None ==> r == Progress::Done && final(self)@ == old(self)@,
            old(self)@.referee is Some ==> ({
                let (after, progress) = old(self)@.play().resumed(reply, *game);
                final(self)@ == old(self)@.playing(after) && r == progress
            }),
            final(self)@.referee is Some ==> final(self)@.play().resumable() && (r is Call
                <==> final(self)@.referee->0.state.pending != Pending::Nothing),
            final(self)@.runes.len() == old(self)@.runes.len(),
            (final(self)@.referee is Some) == (old(self)@.referee is Some),
            final(self).wf(),
    {
        let ghost start = self@;
        let r = match &mut self.referee {
            None => Progress::Done,
            Some(referee) => {
                proof {
                    assert(play(*referee, self.runes@) == start.play());
                    assert(start.play().runes_by(start.time_ns() as u64));
                }
                referee.resume(reply, &mut self.runes, game)
            },
        };
        proof {
            if start.referee is Some {
                lemma_play_changed(start, self@);
            }
        }
        r
    }

    /// Stop a team's rotor where the rules say so.
    fn check_rotor(&mut self, team: Team, game: &GameView)
        requires
            old(self).wf(),
            old(self)@.referee is Some,
        ensures
            final(self)@ == old(self)@.rotor_checked(team, *game),
            final(self).wf(),
    {
        let time_ns: u64 = self.time_ns();
        let index: usize = match &self.referee {
            Some(referee) => {
                let stops = referee.match_time_ns() >= OUTPOST_ROTOR_STOP_NS || game.team(
                    team.other(),
                ).base_armor_expanded;
                match referee.outpost_of(team) {
                    Some(index) => {
                        if !stops {
                            return;
                        }
                        index
                    },
                    None => {
                        return;
                    },
                }
            },
            None => {
                return;
            },
        };
        let ghost start = self@;
        proof {
            assert(start.outposts[index as int].wf());
        }
        self.outposts[index].stop(time_ns);
        proof {
            assert(self.outposts@ =~= start.outposts.update(
                index as int,
                start.outposts[index as int].stopped(time_ns),
            ));
            assert forall|i: int| 0 <= i < self.outposts@.len() implies (
            #[trigger] self.outposts@[i]).wf() by {
                if i != index {
                    assert(start.outposts[i].wf());
                }
            }
        }
    }

    /// Finish the referee's part of a tick: its own rune changes are applied
    /// at this tick too, rotors stop, and the engine's HP is mirrored.
    pub fn settle_tick(&mut self, game: &GameView)
        requires
            old(self).wf(),
        ensures
            final(self)@ == old(self)@.tick_settled(*game),
            final(self).wf(),
    {
        let running = match &self.referee {
            Some(referee) => referee.phase() == MatchPhase::Running,
            None => {
                return;
            },
        };
        let tick: u64 = self.tick;
        proof {
            memory_is_kept(self@.hits, self@.time_ns());
        }
        self.advance_to_tick(tick);
        if running {
            self.check_rotor(Team::Red, game);
            self.check_rotor(Team::Blue, game);
        }
        self.sync_structures(game);
    }

    /// Forward an operator command to the referee, stamped with the field's
    /// own clock. It may need the engine first. A field without a referee
    /// refuses every command.
    pub fn command_referee(&mut self, command: RefereeCommand, game: &GameView) -> (r: Result<
        Progress,
        FieldError,
    >)
        requires
            old(self).wf(),
            old(self)@.referee is Some ==> old(self)@.referee->0.state.pending
                == Pending::Nothing,
        ensures
            old(self)@.referee is None ==> r == Err::<Progress, FieldError>(
                FieldError::Referee("the field has no referee"),
            ) && final(self)@ == old(self)@,
            old(self)@.referee is Some ==> ({
                let (after, progress) = old(self)@.play().answered(
                    command,
                    old(self)@.time_ns() as u64,
                    *game,
                );
                &&& final(self)@ == old(self)@.playing(after)
                &&& r == (match progress {
                    Progress::Refused(reason) => Err(FieldError::Referee(reason)),
                    _ => Ok(progress),
                })
            }),
            final(self)@.referee is Some ==> final(self)@.play().resumable() && (r is Ok
                && r->Ok_0 is Call <==> final(self)@.referee->0.state.pending
                != Pending::Nothing),
            final(self)@.runes.len() == old(self)@.runes.len(),
            (final(self)@.referee is Some) == (old(self)@.referee is Some),
            final(self).wf(),
    {
        let time_ns: u64 = self.time_ns();
        let ghost start = self@;
        let progress = match &mut self.referee {
            None => {
                return Err(FieldError::Referee("the field has no referee"));
            },
            Some(referee) => {
                proof {
                    assert(play(*referee, self.runes@) == start.play());
                }
                referee.command(command, time_ns, &mut self.runes, game)
            },
        };
        proof {
            lemma_play_changed(start, self@);
        }
        match progress {
            Progress::Refused(reason) => Err(FieldError::Referee(reason)),
            _ => Ok(progress),
        }
    }

    /// Finish a command that the referee carried out. `StartMatch` and
    /// `ResetMatch` restore every outpost, and the engine's HP is mirrored.
    pub fn settle_command(&mut self, command: RefereeCommand, game: &GameView)
        requires
            old(self).wf(),
        ensures
            final(self)@ == old(self)@.command_settled(command, *game),
            final(self).wf(),
    {
        let countdown_ns: u64 = match &self.referee {
            Some(referee) => referee.config.countdown_ns,
            None => {
                return;
            },
        };
        let start_ns: u64 = self.time_ns().saturating_add(countdown_ns);
        match command {
            RefereeCommand::StartMatch => self.restore_outposts(Some(start_ns)),
            RefereeCommand::ResetMatch => self.restore_outposts(None),
            _ => {},
        }
        self.sync_structures(game);
    }

    /// Every outpost takes part in a match from a time on, or goes back to
    /// training.
    fn restore_outposts(&mut self, start_ns: Option<u64>)
        requires
            old(self).wf(),
        ensures
            final(self)@ == (FieldModel {
                outposts: match start_ns {
                    Some(at) => old(self)@.outposts.map_values(
                        |tower: Outpost| tower.in_match_from(at),
                    ),
                    None => old(self)@.outposts.map_values(|tower: Outpost| tower.in_training()),
                },
                ..old(self)@
            }),
            final(self).wf(),
    {
        let ghost start = *self;
        let ghost after = match start_ns {
            Some(at) => start.outposts@.map_values(|tower: Outpost| tower.in_match_from(at)),
            None => start.outposts@.map_values(|tower: Outpost| tower.in_training()),
        };
        let mut i: usize = 0;
        while i < self.outposts.len()
            invariant
                i <= self.outposts@.len(),
                self@ == (FieldModel { outposts: self.outposts@, ..start@ }),
                self.last_detection_ns == start.last_detection_ns,
                self.outposts@.len() == start.outposts@.len(),
                start.wf(),
                after == (match start_ns {
                    Some(at) => start.outposts@.map_values(
                        |tower: Outpost| tower.in_match_from(at),
                    ),
                    None => start.outposts@.map_values(|tower: Outpost| tower.in_training()),
                }),
                forall|k: int|
                    0 <= k < i ==> (#[trigger] self.outposts@[k]) == after[k]
                        && self.outposts@[k].wf(),
                forall|k: int|
                    i <= k < self.outposts@.len() ==> (#[trigger] self.outposts@[k])
                        == start.outposts@[k],
            decreases self.outposts@.len() - i,
        {
            proof {
                assert(start@.outposts[i as int].wf());
            }
            match start_ns {
                Some(at) => self.outposts[i].start_match(at),
                None => self.outposts[i].reset_training(),
            }
            i += 1;
        }
        proof {
            assert(self.outposts@ =~= after);
        }
    }
}

/// The command that buys one exchange unit for a robot: ten 17 mm rounds or
/// one 42 mm round.
pub fn buy_ammo(chassis: u32, caliber: Caliber) -> (r: RefereeCommand)
    ensures
        r == (RefereeCommand::BuyAmmo {
            robot: chassis,
            caliber,
            amount: match caliber {
                Caliber::Mm17 => 10,
                Caliber::Mm42 => 1,
            },
        }),
{
    RefereeCommand::BuyAmmo {
        robot: chassis,
        caliber,
        amount: match caliber {
            Caliber::Mm17 => 10,
            Caliber::Mm42 => 1,
        },
    }
}

} // verus!

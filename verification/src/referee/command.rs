//! Operator commands.
use super::machine::{none_ahead, play, ticks_covering, without_attempt, Referee};
use super::model::{MatchState, Pending, Play, Progress};
use super::model::{models, times_kept};
use super::{BuffState, MatchPhase, RefereeCommand, RefereeEvent, RuneStage};
use crate::game::{DamageKind, GameCall, GameView, StrikeTarget};
use crate::rune::runner::{Rune, RuneModel};
use crate::rune::RuneState;
use crate::target::Team;
use vstd::prelude::*;

verus! {

impl Referee {
    /// Why the referee refuses a rune buff, if it does.
    fn refuse_buff(
        &self,
        team: Team,
        defense_pct: u32,
        attack_pct: u32,
        cooling_multiplier: u32,
        duration_ns: u64,
        now_ns: u64,
        runes: &Vec<Rune>,
        game: &GameView,
    ) -> (r: Option<&'static str>)
        requires
            play(*self, runes@).wf(),
            self.state.now_ns <= now_ns,
        ensures
            r == play(*self, runes@).refusal(
                RefereeCommand::SetRuneBuff {
                    team,
                    defense_pct,
                    attack_pct,
                    cooling_multiplier,
                    duration_ns,
                },
                now_ns,
                *game,
            ),
    {
        if self.state.phase != MatchPhase::Running {
            return Some("the round is not running");
        }
        if defense_pct > 100 || attack_pct > 1000 || cooling_multiplier > 100 || duration_ns
            > self.config.round_ns {
            return Some("invalid rune buff parameters");
        }
        match self.rune_of(team) {
            None => Some("the team has no rune"),
            Some(index) => {
                proof {
                    assert(models(runes@)[index as int] == runes@[index as int]@);
                }
                if runes[index].time_ns() > now_ns {
                    Some("rune rejected the referee's request")
                } else {
                    None
                }
            },
        }
    }

    /// Why the referee refuses to trigger a rune, if it does.
    fn refuse_activation(
        &self,
        team: Team,
        now_ns: u64,
        runes: &Vec<Rune>,
        game: &GameView,
    ) -> (r: Option<&'static str>)
        requires
            play(*self, runes@).wf(),
            self.state.now_ns <= now_ns,
        ensures
            r == play(*self, runes@).refusal(
                RefereeCommand::ActivateRune { team },
                now_ns,
                *game,
            ),
    {
        if self.state.phase != MatchPhase::Running {
            return Some("the round is not running");
        }
        let index: usize = match self.rune_of(team) {
            None => {
                return Some("the team has no rune");
            },
            Some(index) => index,
        };
        proof {
            assert(models(runes@)[index as int] == runes@[index as int]@);
        }
        let state = self.side(team).team;
        if state.rune_opportunities == 0 {
            Some("the team has no rune opportunity")
        } else if runes[index].state() != RuneState::Inactive {
            Some("the team's rune is not inactive")
        } else if state.buff.is_some() {
            Some("the team's rune buff is still active")
        } else if runes[index].time_ns() > now_ns {
            Some("rune rejected the referee's request")
        } else {
            None
        }
    }

    /// Why the referee itself refuses a command, if it does.
    fn refuse(
        &self,
        command: RefereeCommand,
        now_ns: u64,
        runes: &Vec<Rune>,
        game: &GameView,
    ) -> (r: Option<&'static str>)
        requires
            play(*self, runes@).wf(),
        ensures
            r == play(*self, runes@).refusal(command, now_ns, *game),
    {
        if now_ns < self.state.now_ns {
            return Some("referee time cannot move backwards");
        }
        let n: usize = self.config.rune_teams.len();
        let phase = self.state.phase;
        match command {
            RefereeCommand::SetOutpostHp { outpost, .. } => {
                if outpost as usize >= self.config.outpost_teams.len() {
                    Some("unknown outpost")
                } else {
                    None
                }
            },
            RefereeCommand::SetRuneBuff {
                team,
                defense_pct,
                attack_pct,
                cooling_multiplier,
                duration_ns,
            } => self.refuse_buff(
                team,
                defense_pct,
                attack_pct,
                cooling_multiplier,
                duration_ns,
                now_ns,
                runes,
                game,
            ),
            RefereeCommand::StartMatch => {
                if phase != MatchPhase::Idle {
                    Some("a match is already in progress; reset it first")
                } else if !none_ahead(runes, n, now_ns) {
                    Some("rune rejected the referee's request")
                } else {
                    None
                }
            },
            RefereeCommand::SkipTo { match_time_ns } => {
                if phase != MatchPhase::Running {
                    Some("the round is not running")
                } else if match_time_ns < self.match_time(now_ns) {
                    Some("the round clock cannot move backwards")
                } else {
                    None
                }
            },
            RefereeCommand::FinishMatch => {
                if phase != MatchPhase::Countdown && phase != MatchPhase::Running {
                    Some("no match to finish")
                } else if !none_ahead(runes, n, now_ns) {
                    Some("rune rejected the referee's request")
                } else {
                    None
                }
            },
            RefereeCommand::Adjudicate { .. } => {
                if phase != MatchPhase::Finished {
                    Some("no finished round to decide")
                } else {
                    None
                }
            },
            RefereeCommand::ResetMatch => {
                if phase == MatchPhase::Idle {
                    Some("no match to reset")
                } else if !none_ahead(runes, n, now_ns) {
                    Some("rune rejected the referee's request")
                } else {
                    None
                }
            },
            RefereeCommand::ActivateRune { team } => self.refuse_activation(
                team,
                now_ns,
                runes,
                game,
            ),
            RefereeCommand::DamageRobot { robot, .. } => match game.robot(robot) {
                None => Some("unknown robot id"),
                Some(state) => {
                    if !state.alive {
                        Some("the robot is already defeated")
                    } else {
                        None
                    }
                },
            },
            _ => None,
        }
    }

    /// Set both sides and the schedule back and have the engine reset.
    fn clear_match(&mut self, start: bool, game: &GameView) -> (r: Progress)
        requires
            old(self)@.wf(),
            old(self).state.pending == Pending::Nothing,
        ensures
            forall|runes: Seq<RuneModel>|
                #![trigger (Play { referee: old(self)@, runes }).cleared(start, *game)]
                (Play { referee: final(self)@, runes }, r) == (Play {
                    referee: old(self)@,
                    runes,
                }).cleared(start, *game),
            final(self)@.wf(),
            final(self).config@ == old(self).config@,
            final(self).state.now_ns == old(self).state.now_ns,
            r is Call && final(self).state.pending is Resetting,
    {
        self.drain_game_events(game);
        self.state.red = Referee::shut_side();
        self.state.blue = Referee::shut_side();
        self.state.stage = RuneStage::Small;
        self.state.schedule_index = 0;
        self.wait(Pending::Resetting { start });
        Progress::Call(GameCall::ResetMatch)
    }

    /// Grant or take a rune buff as an operator.
    fn set_rune_buff(
        &mut self,
        team: Team,
        defense_pct: u32,
        attack_pct: u32,
        cooling_multiplier: u32,
        duration_ns: u64,
        since_ns: u64,
        runes: &mut Vec<Rune>,
        game: &GameView,
    ) -> (r: Progress)
        requires
            play(*old(self), old(runes)@).wf(),
            old(self).state.pending == Pending::Nothing,
            old(self).state.stood_at(since_ns),
            old(self).state.phase == MatchPhase::Running,
            old(self)@.rune_of(team) is Some,
            models(old(runes)@)[old(self)@.rune_of(team)->0 as int].time_ns()
                <= old(self).state.now_ns,
        ensures
            (play(*final(self), final(runes)@), r) == play(*old(self), old(runes)@).commanded(
                RefereeCommand::SetRuneBuff {
                    team,
                    defense_pct,
                    attack_pct,
                    cooling_multiplier,
                    duration_ns,
                },
                since_ns,
                *game,
            ),
            play(*final(self), final(runes)@).wf(),
            play(*final(self), final(runes)@).resumable(),
            times_kept(
                old(self).config.rune_teams@.len(),
                models(old(runes)@),
                models(final(runes)@),
                final(self).state.now_ns,
            ),
            final(self).config@ == old(self).config@,
            final(self).state.now_ns == old(self).state.now_ns,
            r is Call <==> final(self).state.pending != Pending::Nothing,
    {
        proof {
            reveal(Play::commanded);
        }
        let started_ns: u64 = self.match_time(self.state.now_ns);
        if duration_ns > 0 {
            let buff = BuffState {
                source: self.state.stage,
                defense_pct,
                attack_pct,
                cooling_multiplier,
                started_ns,
                expires_ns: started_ns.saturating_add(duration_ns),
            };
            self.wait(Pending::BuffSet { team, buff, since_ns });
            Progress::Call(
                GameCall::ApplyRuneBuff {
                    team,
                    attack_pct,
                    defense_pct,
                    cooling_multiplier,
                    expires_ticks: game.round_ticks.saturating_add(ticks_covering(duration_ns)),
                },
            )
        } else {
            self.buff_team(team, None, runes);
            self.wait(Pending::Noted);
            Progress::Call(GameCall::ClearRuneBuff { team })
        }
    }

    /// Spend an opportunity on a team's rune.
    fn activate_rune(
        &mut self,
        team: Team,
        since_ns: u64,
        runes: &mut Vec<Rune>,
        game: &GameView,
    ) -> (r: Progress)
        requires
            play(*old(self), old(runes)@).wf(),
            old(self).state.pending == Pending::Nothing,
            old(self).state.phase == MatchPhase::Running,
            old(self)@.rune_of(team) is Some,
            models(old(runes)@)[old(self)@.rune_of(team)->0 as int].time_ns()
                <= old(self).state.now_ns,
            old(self).state.side(team).team.rune_opportunities > 0,
        ensures
            (play(*final(self), final(runes)@), r) == play(*old(self), old(runes)@).commanded(
                RefereeCommand::ActivateRune { team },
                since_ns,
                *game,
            ),
            play(*final(self), final(runes)@).wf(),
            play(*final(self), final(runes)@).resumable(),
            times_kept(
                old(self).config.rune_teams@.len(),
                models(old(runes)@),
                models(final(runes)@),
                final(self).state.now_ns,
            ),
            final(self).config@ == old(self).config@,
            final(self).state.now_ns == old(self).state.now_ns,
            r is Call <==> final(self).state.pending != Pending::Nothing,
    {
        proof {
            reveal(Play::commanded);
        }
        let ghost before = play(*self, runes@);
        let index: usize = match self.rune_of(team) {
            Some(index) => index,
            None => {
                return Progress::Done;
            },
        };
        let now_ns: u64 = self.state.now_ns;
        proof {
            assert(models(runes@)[index as int] == runes@[index as int]@);
            assert(before.runes[index as int].wf());
        }
        let _ = runes[index].activate(now_ns);
        proof {
            assert(models(runes@) =~= before.runes.update(
                index as int,
                before.runes[index as int].advanced(now_ns).triggered(),
            ));
            assert forall|i: int| 0 <= i < runes@.len() implies (#[trigger] models(
                runes@,
            )[i]).wf() by {
                if i != index {
                    assert(before.runes[i].wf());
                }
            }
        }
        let match_time_ns: u64 = self.match_time(now_ns);
        let mut state = self.side(team).team;
        state.rune_opportunities = state.rune_opportunities - 1;
        state.activating_since_ns = Some(match_time_ns);
        state.attempt_arms = 0;
        state.attempt_ring_sum = 0;
        state.last_completed_groups = 0;
        self.set_team(team, state);
        self.push_event(RefereeEvent::RuneActivating { team });
        self.drain_game_events(game);
        self.done()
    }

    /// Hand a command on to the engine.
    fn forward(&mut self, call: GameCall, since_ns: u64) -> (r: Progress)
        requires
            old(self)@.wf(),
            old(self).state.stood_at(since_ns),
            old(self).state.pending == Pending::Nothing,
        ensures
            r == Progress::Call(call),
            final(self)@ == old(self)@.waiting(Pending::Forwarded { since_ns }),
            final(self)@.wf(),
    {
        self.wait(Pending::Forwarded { since_ns });
        Progress::Call(call)
    }

    /// Take over what the engine reported; the command is dealt with.
    fn settle(&mut self, game: &GameView) -> (r: Progress)
        requires
            old(self)@.wf(),
            old(self).state.pending == Pending::Nothing,
        ensures
            r == Progress::Done,
            final(self)@ == old(self)@.drained(*game).waiting(Pending::Nothing),
            final(self)@.wf(),
            final(self).config@ == old(self).config@,
            final(self).state.now_ns == old(self).state.now_ns,
            final(self).state.pending == Pending::Nothing,
    {
        self.drain_game_events(game);
        self.done()
    }

    /// Apply a command that sets the referee's own state.
    fn apply_setting(&mut self, command: RefereeCommand, since_ns: u64, game: &GameView) -> (r:
        Progress)
        requires
            old(self)@.wf(),
            old(self).state.pending == Pending::Nothing,
            sets_referee(command),
        ensures
            forall|runes: Seq<RuneModel>|
                #![trigger (Play { referee: old(self)@, runes }).commanded(command, since_ns, *game)]
                (Play { referee: final(self)@, runes }, r) == (Play {
                    referee: old(self)@,
                    runes,
                }).commanded(command, since_ns, *game),
            final(self)@.wf(),
            final(self).config@ == old(self).config@,
            final(self).state.now_ns == old(self).state.now_ns,
            r is Done && final(self).state.pending == Pending::Nothing,
    {
        proof {
            reveal(Play::commanded);
        }
        match command {
            RefereeCommand::SetBaseOpen { team, open } => {
                self.set_base_open(team, open);
            },
            RefereeCommand::SetDartDoorOpen { team, open } => {
                let mut side = self.side(team);
                side.dart_door_open = open;
                self.set_side(team, side);
            },
            RefereeCommand::SetDartTargetMoving { moving } => {
                if !moving {
                    self.state.dart_target_since_ns = None;
                } else if self.state.dart_target_since_ns.is_none() {
                    self.state.dart_target_since_ns = Some(self.state.now_ns);
                }
            },
            RefereeCommand::SetRuneOpportunities { team, opportunities } => {
                let mut state = self.side(team).team;
                state.rune_opportunities = opportunities;
                self.set_team(team, state);
            },
            RefereeCommand::GrantRuneOpportunity { team } => {
                let stage = self.state.stage;
                self.grant(team, stage);
            },
            _ => {},
        }
        self.settle(game)
    }

    /// Apply a command that is not refused at the referee's time.
    fn carry_out(
        &mut self,
        command: RefereeCommand,
        since_ns: u64,
        runes: &mut Vec<Rune>,
        game: &GameView,
    ) -> (r: Progress)
        requires
            play(*old(self), old(runes)@).wf(),
            old(self).state.stood_at(since_ns),
            old(self).state.pending == Pending::Nothing,
            play(*old(self), old(runes)@).refusal(command, old(self).state.now_ns, *game) is None,
        ensures
            (play(*final(self), final(runes)@), r) == play(*old(self), old(runes)@).commanded(
                command,
                since_ns,
                *game,
            ),
            play(*final(self), final(runes)@).wf(),
            play(*final(self), final(runes)@).resumable(),
            times_kept(
                old(self).config.rune_teams@.len(),
                models(old(runes)@),
                models(final(runes)@),
                final(self).state.now_ns,
            ),
            final(self).config@ == old(self).config@,
            final(self).state.now_ns == old(self).state.now_ns,
            r is Call <==> final(self).state.pending != Pending::Nothing,
    {
        proof {
            reveal(Play::commanded);
        }
        match command {
            RefereeCommand::SetOutpostHp { outpost, hp } => {
                let team = self.config.outpost_teams[outpost as usize];
                let destroyed = game.team(team).outpost_hp > 0 && hp == 0;
                self.wait(Pending::OutpostSet { team, destroyed, since_ns });
                Progress::Call(GameCall::SetOutpostHp { team, hp })
            },
            RefereeCommand::SetRuneBuff {
                team,
                defense_pct,
                attack_pct,
                cooling_multiplier,
                duration_ns,
            } => self.set_rune_buff(
                team,
                defense_pct,
                attack_pct,
                cooling_multiplier,
                duration_ns,
                since_ns,
                runes,
                game,
            ),
            RefereeCommand::StartMatch => {
                self.control_runes(runes);
                self.clear_match(true, game)
            },
            RefereeCommand::SkipTo { match_time_ns } => {
                let behind: u64 = self.ticks_behind(game);
                if behind > 0 {
                    self.wait(Pending::SkipStep { match_time_ns });
                    Progress::Call(GameCall::Step { ticks: behind })
                } else {
                    self.skip(match_time_ns, runes, game)
                }
            },
            RefereeCommand::FinishMatch => self.finish(runes, game),
            RefereeCommand::Adjudicate { winner } => {
                self.wait(Pending::Adjudicated { since_ns });
                Progress::Call(GameCall::Adjudicate { winner })
            },
            RefereeCommand::ResetMatch => {
                self.release_runes(runes);
                self.clear_match(false, game)
            },
            RefereeCommand::ActivateRune { team } => self.activate_rune(team, since_ns, runes, game),
            RefereeCommand::SetBaseOpen { .. }
            | RefereeCommand::SetDartDoorOpen { .. }
            | RefereeCommand::SetDartTargetMoving { .. }
            | RefereeCommand::SetRuneOpportunities { .. }
            | RefereeCommand::GrantRuneOpportunity { .. } => self.apply_setting(command, since_ns, game),
            RefereeCommand::SetBaseHp { team, hp, shield_hp } => self.forward(
                GameCall::SetBase { team, hp, shield_hp },
                since_ns,
            ),
            RefereeCommand::SetGold { team, gold } => self.forward(
                GameCall::SetGold { team, gold },
                since_ns,
            ),
            RefereeCommand::SetAllowance { robot, allowance } => self.forward(
                GameCall::SetAllowance { robot, allowance },
                since_ns,
            ),
            RefereeCommand::SetPolicy { enforce_allowance, exchange_requires_zone } =>
                self.forward(
                GameCall::SetPolicy { enforce_allowance, exchange_requires_zone },
                since_ns,
            ),
            RefereeCommand::SetPerformance { robot, performance } => self.forward(
                GameCall::SetPerformance { robot, code: performance },
                since_ns,
            ),
            RefereeCommand::BuyAmmo { robot, caliber, amount } => self.forward(
                GameCall::ExchangeAmmo { robot, caliber, amount },
                since_ns,
            ),
            RefereeCommand::DamageRobot { robot, amount } => self.forward(
                GameCall::Damage {
                    target: StrikeTarget::Robot(robot),
                    amount,
                    kind: DamageKind::Penalty,
                },
                since_ns,
            ),
            RefereeCommand::ReviveRobot { robot } => self.forward(
                GameCall::Revive { robot },
                since_ns,
            ),
            RefereeCommand::InstantRespawn { robot } => self.forward(
                GameCall::InstantRespawn { robot },
                since_ns,
            ),
            RefereeCommand::ClearWeakened { robot } => self.forward(
                GameCall::ClearWeakened { robot },
                since_ns,
            ),
            RefereeCommand::SetRobotHp { robot, hp } => self.forward(
                GameCall::SetRobotHp { robot, hp },
                since_ns,
            ),
        }
    }

    /// Apply an operator command at `now_ns`, driving the runes it owns. A
    /// timestamp before the referee's current one, and any command the current
    /// phase does not allow, is refused with a message and no other change.
    pub fn command(
        &mut self,
        command: RefereeCommand,
        now_ns: u64,
        runes: &mut Vec<Rune>,
        game: &GameView,
    ) -> (r: Progress)
        requires
            play(*old(self), old(runes)@).wf(),
            old(self).state.pending == Pending::Nothing,
        ensures
            (play(*final(self), final(runes)@), r) == play(*old(self), old(runes)@).answered(
                command,
                now_ns,
                *game,
            ),
            play(*final(self), final(runes)@).wf(),
            play(*final(self), final(runes)@).resumable(),
            times_kept(
                old(self).config.rune_teams@.len(),
                models(old(runes)@),
                models(final(runes)@),
                final(self).state.now_ns,
            ),
            final(self).config@ == old(self).config@,
            final(self).state.now_ns == old(self).state.now_ns || final(self).state.now_ns
                == now_ns,
            r is Call <==> final(self).state.pending != Pending::Nothing,
    {
        if let Some(reason) = self.refuse(command, now_ns, runes, game) {
            return Progress::Refused(reason);
        }
        let ghost before = play(*self, runes@);
        let since_ns: u64 = self.state.now_ns;
        self.state.now_ns = now_ns;
        proof {
            assert(play(*self, runes@) == before.under(
                before.referee.with(MatchState { now_ns, ..before.referee.state }),
            ));
        }
        self.carry_out(command, since_ns, runes, game)
    }
}

/// The commands that only set the referee's own state.
pub open spec fn sets_referee(command: RefereeCommand) -> bool {
    match command {
        RefereeCommand::SetBaseOpen { .. }
        | RefereeCommand::SetDartDoorOpen { .. }
        | RefereeCommand::SetDartTargetMoving { .. }
        | RefereeCommand::SetRuneOpportunities { .. }
        | RefereeCommand::GrantRuneOpportunity { .. } => true,
        _ => false,
    }
}

} // verus!

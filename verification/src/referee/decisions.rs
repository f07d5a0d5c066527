//! What the referee makes of commands and of the engine's answers.
use super::model::{
    fresh_side, MatchState, Pending, Play, Progress, RefereeModel, Scheduled, Side, TeamState,
    SCHEDULE_LEN,
};
use super::{BuffState, MatchPhase, RefereeCommand, RefereeEvent, RuneStage};
use crate::game::{
    robot_in, DamageKind, GameCall, GameError, GamePhase, GameView, StrikeTarget,
};
use crate::rune::{RuneKind, RuneState};
use crate::target::{Caliber, Team};
use vstd::prelude::*;

verus! {

/// Time never runs back: a command at an earlier time is refused, whatever it
/// is.
pub proof fn no_command_comes_from_the_past(
    play: Play,
    command: RefereeCommand,
    now_ns: u64,
    game: GameView,
)
    requires
        now_ns < play.referee.state.now_ns,
    ensures
        play.refusal(command, now_ns, game) == Some("referee time cannot move backwards"),
{
}

/// A command that is not refused moves the referee's time to its own.
pub proof fn commands_take_their_time(
    play: Play,
    command: RefereeCommand,
    now_ns: u64,
    game: GameView,
)
    requires
        play.refusal(command, now_ns, game) is None,
    ensures
        play.referee.state.now_ns <= now_ns,
        play.answered(command, now_ns, game) == play.under(
            play.referee.with(MatchState { now_ns, ..play.referee.state }),
        ).commanded(command, play.referee.state.now_ns, game),
{
}

/// A match starts from free practice, ends while it counts down or runs, is
/// decided once it is over, and is reset whenever there is one. Runes that are
/// ahead of the command stop it.
pub proof fn when_a_match_may_change(
    play: Play,
    now_ns: u64,
    winner: Option<Team>,
    game: GameView,
)
    requires
        play.referee.state.now_ns <= now_ns,
    ensures
        ({
            let phase = play.referee.state.phase;
            let ready = play.runes_by(now_ns);
            &&& play.refusal(RefereeCommand::StartMatch, now_ns, game) is None <==> phase
                == MatchPhase::Idle && ready
            &&& play.refusal(RefereeCommand::FinishMatch, now_ns, game) is None <==> (phase
                == MatchPhase::Countdown || phase == MatchPhase::Running) && ready
            &&& play.refusal(RefereeCommand::ResetMatch, now_ns, game) is None <==> phase
                != MatchPhase::Idle && ready
            &&& play.refusal(RefereeCommand::Adjudicate { winner }, now_ns, game) is None <==> phase
                == MatchPhase::Finished
            &&& phase != MatchPhase::Idle ==> play.refusal(
                RefereeCommand::StartMatch,
                now_ns,
                game,
            ) == Some("a match is already in progress; reset it first")
            &&& phase == MatchPhase::Idle ==> play.refusal(
                RefereeCommand::ResetMatch,
                now_ns,
                game,
            ) == Some("no match to reset")
            &&& phase != MatchPhase::Finished ==> play.refusal(
                RefereeCommand::Adjudicate { winner },
                now_ns,
                game,
            ) == Some("no finished round to decide")
            &&& phase == MatchPhase::Idle || phase == MatchPhase::Finished ==> play.refusal(
                RefereeCommand::FinishMatch,
                now_ns,
                game,
            ) == Some("no match to finish")
        }),
{
}

/// The round clock is skipped in a running round only, and never back.
pub proof fn when_a_round_may_be_skipped(
    play: Play,
    match_time_ns: u64,
    now_ns: u64,
    game: GameView,
)
    requires
        play.referee.state.now_ns <= now_ns,
    ensures
        ({
            let s = play.referee.state;
            let refusal = play.refusal(RefereeCommand::SkipTo { match_time_ns }, now_ns, game);
            &&& refusal is None <==> s.phase == MatchPhase::Running && s.match_time(now_ns)
                <= match_time_ns
            &&& s.phase != MatchPhase::Running ==> refusal == Some("the round is not running")
            &&& s.phase == MatchPhase::Running && match_time_ns < s.match_time(now_ns) ==> refusal
                == Some("the round clock cannot move backwards")
        }),
{
}

/// A team activates its rune in a running round where it has one, an
/// opportunity to spend, a dark rune, and no buff that still holds.
pub proof fn when_a_rune_may_be_activated(play: Play, team: Team, now_ns: u64, game: GameView)
    requires
        play.referee.state.now_ns <= now_ns,
    ensures
        ({
            let s = play.referee.state;
            let mine = if team == Team::Red {
                s.red.team
            } else {
                s.blue.team
            };
            let owned = play.referee.rune_of(team);
            let rune = play.runes[owned->0 as int];
            let refusal = play.refusal(RefereeCommand::ActivateRune { team }, now_ns, game);
            &&& refusal is None <==> {
                &&& s.phase == MatchPhase::Running
                &&& owned is Some
                &&& mine.rune_opportunities > 0
                &&& rune.state() == RuneState::Inactive
                &&& mine.buff is None
                &&& rune.time_ns() <= now_ns
            }
            &&& s.phase != MatchPhase::Running ==> refusal == Some("the round is not running")
            &&& s.phase == MatchPhase::Running && owned is None ==> refusal == Some(
                "the team has no rune",
            )
            &&& s.phase == MatchPhase::Running && owned is Some && mine.rune_opportunities == 0
                ==> refusal == Some("the team has no rune opportunity")
            &&& s.phase == MatchPhase::Running && owned is Some && mine.rune_opportunities > 0
                && rune.state() != RuneState::Inactive ==> refusal == Some(
                "the team's rune is not inactive",
            )
            &&& s.phase == MatchPhase::Running && owned is Some && mine.rune_opportunities > 0
                && rune.state() == RuneState::Inactive && mine.buff is Some ==> refusal == Some(
                "the team's rune buff is still active",
            )
        }),
{
}

/// An operator grants a buff in a running round, to a team with a rune, of at
/// most 100 % defense, 1000 % attack, a hundredfold cooling and the length of
/// the round.
pub proof fn when_a_buff_may_be_granted(
    play: Play,
    team: Team,
    defense_pct: u32,
    attack_pct: u32,
    cooling_multiplier: u32,
    duration_ns: u64,
    now_ns: u64,
    game: GameView,
)
    requires
        play.referee.state.now_ns <= now_ns,
    ensures
        ({
            let command = RefereeCommand::SetRuneBuff {
                team,
                defense_pct,
                attack_pct,
                cooling_multiplier,
                duration_ns,
            };
            let owned = play.referee.rune_of(team);
            play.refusal(command, now_ns, game) is None <==> {
                &&& play.referee.state.phase == MatchPhase::Running
                &&& defense_pct <= 100
                &&& attack_pct <= 1000
                &&& cooling_multiplier <= 100
                &&& duration_ns <= play.referee.config.round_ns
                &&& owned is Some
                &&& play.runes[owned->0 as int].time_ns() <= now_ns
            }
        }),
{
}

/// An outpost must be one of the field's, and a robot that is penalised must be
/// there and stand. Everything else is for the engine to refuse.
pub proof fn what_else_is_refused(
    play: Play,
    outpost: u32,
    hp: u32,
    robot: u32,
    amount: u32,
    team: Team,
    open: bool,
    caliber: Caliber,
    now_ns: u64,
    game: GameView,
)
    requires
        play.referee.state.now_ns <= now_ns,
    ensures
        play.refusal(RefereeCommand::SetOutpostHp { outpost, hp }, now_ns, game) is None
            <==> outpost < play.referee.config.outpost_teams.len(),
        play.refusal(RefereeCommand::DamageRobot { robot, amount }, now_ns, game) is None <==> {
            let found = robot_in(game.robots@, robot);
            found is Some && found->0.alive
        },
        robot_in(game.robots@, robot) is None ==> play.refusal(
            RefereeCommand::DamageRobot { robot, amount },
            now_ns,
            game,
        ) == Some("unknown robot id"),
        play.refusal(RefereeCommand::SetBaseHp { team, hp, shield_hp: amount }, now_ns, game)
            is None,
        play.refusal(RefereeCommand::SetBaseOpen { team, open }, now_ns, game) is None,
        play.refusal(RefereeCommand::SetDartDoorOpen { team, open }, now_ns, game) is None,
        play.refusal(RefereeCommand::SetDartTargetMoving { moving: open }, now_ns, game) is None,
        play.refusal(RefereeCommand::SetGold { team, gold: amount }, now_ns, game) is None,
        play.refusal(RefereeCommand::BuyAmmo { robot, caliber, amount }, now_ns, game) is None,
        play.refusal(RefereeCommand::GrantRuneOpportunity { team }, now_ns, game) is None,
        play.refusal(RefereeCommand::ReviveRobot { robot }, now_ns, game) is None,
        play.refusal(RefereeCommand::InstantRespawn { robot }, now_ns, game) is None,
        play.refusal(RefereeCommand::ClearWeakened { robot }, now_ns, game) is None,
        play.refusal(RefereeCommand::SetRobotHp { robot, hp }, now_ns, game) is None,
{
}

/// A command that is the engine's to carry out is handed to it as it is, for
/// the robot or team it names, and changes nothing before the engine's answer.
pub proof fn commands_are_handed_to_the_engine(
    play: Play,
    since_ns: u64,
    game: GameView,
    team: Team,
    robot: u32,
    caliber: Caliber,
    amount: u32,
    other: u32,
    pair: [u32; 2],
    enforce_allowance: bool,
    exchange_requires_zone: bool,
    winner: Option<Team>,
)
    ensures
        ({
            let wait = play.under(play.referee.waiting(Pending::Forwarded { since_ns }));
            let to = |command: RefereeCommand| play.commanded(command, since_ns, game);
            &&& to(RefereeCommand::SetBaseHp { team, hp: amount, shield_hp: other }) == (
                wait,
                Progress::Call(GameCall::SetBase { team, hp: amount, shield_hp: other }),
            )
            &&& to(RefereeCommand::SetGold { team, gold: amount }) == (
                wait,
                Progress::Call(GameCall::SetGold { team, gold: amount }),
            )
            &&& to(RefereeCommand::SetAllowance { robot, allowance: pair }) == (
                wait,
                Progress::Call(GameCall::SetAllowance { robot, allowance: pair }),
            )
            &&& to(RefereeCommand::SetPolicy { enforce_allowance, exchange_requires_zone }) == (
                wait,
                Progress::Call(GameCall::SetPolicy { enforce_allowance, exchange_requires_zone }),
            )
            &&& to(RefereeCommand::SetPerformance { robot, performance: other }) == (
                wait,
                Progress::Call(GameCall::SetPerformance { robot, code: other }),
            )
            &&& to(RefereeCommand::BuyAmmo { robot, caliber, amount }) == (
                wait,
                Progress::Call(GameCall::ExchangeAmmo { robot, caliber, amount }),
            )
            &&& to(RefereeCommand::DamageRobot { robot, amount }) == (
                wait,
                Progress::Call(
                    GameCall::Damage {
                        target: StrikeTarget::Robot(robot),
                        amount,
                        kind: DamageKind::Penalty,
                    },
                ),
            )
            &&& to(RefereeCommand::ReviveRobot { robot }) == (
                wait,
                Progress::Call(GameCall::Revive { robot }),
            )
            &&& to(RefereeCommand::InstantRespawn { robot }) == (
                wait,
                Progress::Call(GameCall::InstantRespawn { robot }),
            )
            &&& to(RefereeCommand::ClearWeakened { robot }) == (
                wait,
                Progress::Call(GameCall::ClearWeakened { robot }),
            )
            &&& to(RefereeCommand::SetRobotHp { robot, hp: amount }) == (
                wait,
                Progress::Call(GameCall::SetRobotHp { robot, hp: amount }),
            )
            &&& to(RefereeCommand::Adjudicate { winner }).1 == Progress::Call(
                GameCall::Adjudicate { winner },
            )
        }),
{
    reveal(Play::commanded);
}

/// Outpost HP is set for the team that owns the outpost, and its fall is told
/// where it stood before and has no HP after.
pub proof fn outposts_are_set_for_their_owner(
    play: Play,
    outpost: u32,
    hp: u32,
    since_ns: u64,
    game: GameView,
)
    requires
        outpost < play.referee.config.outpost_teams.len(),
    ensures
        ({
            let team = play.referee.config.outpost_teams[outpost as int];
            let had = if team == Team::Red {
                game.red.outpost_hp
            } else {
                game.blue.outpost_hp
            };
            let (after, progress) = play.commanded(
                RefereeCommand::SetOutpostHp { outpost, hp },
                since_ns,
                game,
            );
            &&& progress == Progress::Call(GameCall::SetOutpostHp { team, hp })
            &&& match after.referee.state.pending {
                Pending::OutpostSet { team: whose, destroyed, since_ns: since } => {
                    &&& whose == team
                    &&& since == since_ns
                    &&& destroyed <==> had > 0 && hp == 0
                },
                _ => false,
            }
        }),
{
    reveal(Play::commanded);
}

/// Reports that the referee has seen change nothing.
proof fn seen_reports_change_nothing(referee: RefereeModel, game: GameView, n: nat)
    requires
        n <= game.events@.len(),
        forall|i: int|
            0 <= i < game.events@.len() ==> (#[trigger] game.events@[i]).id
                < referee.state.game_events_seen,
    ensures
        referee.reported_first(game, n) == referee,
    decreases n,
{
    if n > 0 {
        seen_reports_change_nothing(referee, game, (n - 1) as nat);
        assert(game.events@[n - 1].id < referee.state.game_events_seen);
    }
}

/// Mechanisms are moved as an operator says, for the team named: a base cover,
/// a dart door, the dart targets. A sweep that goes on keeps its start, one that
/// stops has none. Where the engine has nothing new to report, nothing else
/// changes.
pub proof fn mechanisms_move_as_told(
    play: Play,
    team: Team,
    open: bool,
    since_ns: u64,
    game: GameView,
)
    requires
        forall|i: int|
            0 <= i < game.events@.len() ==> (#[trigger] game.events@[i]).id
                < play.referee.state.game_events_seen,
    ensures
        ({
            let s = play.referee.state;
            let cover = play.commanded(
                RefereeCommand::SetBaseOpen { team, open },
                since_ns,
                game,
            ).0.referee.state;
            let door = play.commanded(
                RefereeCommand::SetDartDoorOpen { team, open },
                since_ns,
                game,
            ).0.referee.state;
            let targets = play.commanded(
                RefereeCommand::SetDartTargetMoving { moving: open },
                since_ns,
                game,
            ).0.referee.state;
            &&& team == Team::Red ==> {
                &&& cover.red.base_open == open && cover.blue == s.blue
                &&& cover.red.dart_door_open == s.red.dart_door_open
                &&& cover.red.team == s.red.team
                &&& door.red == (Side { dart_door_open: open, ..s.red }) && door.blue == s.blue
            }
            &&& team == Team::Blue ==> {
                &&& cover.blue.base_open == open && cover.red == s.red
                &&& cover.blue.dart_door_open == s.blue.dart_door_open
                &&& cover.blue.team == s.blue.team
                &&& door.blue == (Side { dart_door_open: open, ..s.blue }) && door.red == s.red
            }
            &&& !open ==> targets.dart_target_since_ns is None
            &&& open && s.dart_target_since_ns is None ==> targets.dart_target_since_ns == Some(
                s.now_ns,
            )
            &&& open && s.dart_target_since_ns is Some ==> targets.dart_target_since_ns
                == s.dart_target_since_ns
            &&& targets.red == s.red && targets.blue == s.blue
            &&& cover.phase == s.phase && door.phase == s.phase && targets.phase == s.phase
        }),
{
    reveal(Play::commanded);
    reveal(RefereeModel::drained);
    let r = play.referee;
    let s = r.state;
    seen_reports_change_nothing(
        r.with(s.base_sent(team, open, r.base_travel_ns)),
        game,
        game.events@.len(),
    );
    seen_reports_change_nothing(
        r.with(s.with_side(team, Side { dart_door_open: open, ..s.side(team) })),
        game,
        game.events@.len(),
    );
    seen_reports_change_nothing(
        r.with(
            MatchState {
                dart_target_since_ns: if !open {
                    None
                } else if s.dart_target_since_ns is None {
                    Some(s.now_ns)
                } else {
                    s.dart_target_since_ns
                },
                ..s
            },
        ),
        game,
        game.events@.len(),
    );
}

/// An activation spends one opportunity, starts its attempt at the round's time
/// with no ring recorded, and lights the team's own rune; the other team and
/// its rune notice nothing. An operator sets or adds opportunities for the team
/// named alone.
pub proof fn opportunities_are_spent_and_given(
    play: Play,
    team: Team,
    count: u32,
    since_ns: u64,
    game: GameView,
)
    requires
        play.wf(),
        play.referee.state.pending == Pending::Nothing,
        play.referee.rune_of(team) is Some,
        play.referee.state.phase == MatchPhase::Running,
        0 < play.referee.state.side(team).team.rune_opportunities < u32::MAX,
    ensures
        ({
            let s = play.referee.state;
            let (mine, yours) = if team == Team::Red {
                (s.red.team, s.blue.team)
            } else {
                (s.blue.team, s.red.team)
            };
            let lit = play.commanded(RefereeCommand::ActivateRune { team }, since_ns, game).0;
            let set = play.commanded(
                RefereeCommand::SetRuneOpportunities { team, opportunities: count },
                since_ns,
                game,
            ).0;
            let given = play.commanded(
                RefereeCommand::GrantRuneOpportunity { team },
                since_ns,
                game,
            ).0;
            let of = |p: Play| if team == Team::Red {
                (p.referee.state.red.team, p.referee.state.blue.team)
            } else {
                (p.referee.state.blue.team, p.referee.state.red.team)
            };
            let index = play.referee.rune_of(team)->0 as int;
            &&& of(lit).0.rune_opportunities + 1 == mine.rune_opportunities
            &&& of(lit).0.activating_since_ns == Some(play.referee.match_time())
            &&& of(lit).0.attempt_arms == 0 && of(lit).0.attempt_ring_sum == 0
            &&& of(lit).0.last_completed_groups == 0
            &&& of(lit).0.buff == mine.buff
            &&& of(lit).0.big_rune_activations == mine.big_rune_activations
            &&& of(lit).1 == yours
            &&& lit.runes[index] == play.runes[index].advanced(s.now_ns).triggered()
            &&& lit.runes.len() == play.runes.len()
            &&& forall|i: int|
                0 <= i < play.runes.len() && i != index ==> #[trigger] lit.runes[i]
                    == play.runes[i]
            &&& of(set).0 == (TeamState { rune_opportunities: count, ..mine })
            &&& of(set).1 == yours
            &&& of(given).0.rune_opportunities == mine.rune_opportunities + 1
            &&& of(given).1 == yours
        }),
{
    reveal(Play::commanded);
    super::model::owned_index_is_owned(play.referee.config.rune_teams, team, 0);
    let r = play.referee;
    let s = r.state;
    let state = s.side(team).team;
    let spent = TeamState {
        rune_opportunities: (state.rune_opportunities - 1) as u32,
        activating_since_ns: Some(r.match_time()),
        last_completed_groups: 0,
        ..state.without_rings()
    };
    let a = r.with_team(team, spent).told(RefereeEvent::RuneActivating { team });
    let b = r.with_team(team, TeamState { rune_opportunities: count, ..state });
    let c = r.granted(team, s.stage);
    a.draining_keeps_wf(game);
    b.draining_keeps_wf(game);
    c.draining_keeps_wf(game);
}

/// A granted buff starts at the round's time, lasts as long as asked and is what
/// the engine is told, for the ticks that cover it; a duration of zero takes the
/// buff away and darkens the team's rune.
pub proof fn operators_grant_buffs(
    play: Play,
    team: Team,
    defense_pct: u32,
    attack_pct: u32,
    cooling_multiplier: u32,
    duration_ns: u64,
    since_ns: u64,
    game: GameView,
)
    requires
        play.wf(),
        play.referee.rune_of(team) is Some,
        play.referee.match_time() + duration_ns <= u64::MAX,
        duration_ns <= 420_000_000_000,
        game.round_ticks <= u64::MAX - 420_000,
    ensures
        ({
            let command = RefereeCommand::SetRuneBuff {
                team,
                defense_pct,
                attack_pct,
                cooling_multiplier,
                duration_ns,
            };
            let (after, progress) = play.commanded(command, since_ns, game);
            let t = play.referee.match_time();
            &&& duration_ns > 0 ==> match (after.referee.state.pending, progress) {
                (
                    Pending::BuffSet { team: whose, buff, since_ns: since },
                    Progress::Call(
                        GameCall::ApplyRuneBuff {
                            team: told,
                            attack_pct: attack,
                            defense_pct: defense,
                            cooling_multiplier: cooling,
                            expires_ticks,
                        },
                    ),
                ) => {
                    &&& whose == team && told == team && since == since_ns
                    &&& buff.source == play.referee.state.stage
                    &&& buff.started_ns == t
                    &&& buff.expires_ns == t + duration_ns
                    &&& buff.attack_pct == attack_pct && attack == attack_pct
                    &&& buff.defense_pct == defense_pct && defense == defense_pct
                    &&& buff.cooling_multiplier == cooling_multiplier && cooling
                        == cooling_multiplier
                    &&& (expires_ticks - game.round_ticks - 1) * 1_000_000 < duration_ns <= (
                    expires_ticks - game.round_ticks) * 1_000_000
                },
                _ => false,
            }
            &&& duration_ns == 0 ==> {
                let mine = if team == Team::Red {
                    after.referee.state.red.team
                } else {
                    after.referee.state.blue.team
                };
                let index = play.referee.rune_of(team)->0 as int;
                &&& progress == Progress::Call(GameCall::ClearRuneBuff { team })
                &&& mine.buff is None && mine.activating_since_ns is None
                &&& after.runes[index] == play.runes[index].advanced(
                    play.referee.state.now_ns,
                ).darkened()
            }
        }),
{
    reveal(Play::commanded);
    super::model::owned_index_is_owned(play.referee.config.rune_teams, team, 0);
}

/// A match that starts or is reset begins afresh: both teams as on the first
/// day, the schedule at its start, the Small stage, and the engine reset too. A
/// start hands the runes to the referee, a reset back to their training.
pub proof fn matches_begin_afresh(play: Play, since_ns: u64, game: GameView)
    requires
        play.wf(),
        play.referee.state.pending == Pending::Nothing,
    ensures
        ({
            let (start, started) = play.commanded(RefereeCommand::StartMatch, since_ns, game);
            let (reset, again) = play.commanded(RefereeCommand::ResetMatch, since_ns, game);
            &&& started == Progress::Call(GameCall::ResetMatch)
            &&& again == Progress::Call(GameCall::ResetMatch)
            &&& start.referee.state.pending == (Pending::Resetting { start: true })
            &&& reset.referee.state.pending == (Pending::Resetting { start: false })
            &&& start.referee.state.red == fresh_side() && start.referee.state.blue
                == fresh_side()
            &&& reset.referee.state.red == fresh_side() && reset.referee.state.blue
                == fresh_side()
            &&& start.referee.state.schedule_index == 0 && reset.referee.state.schedule_index == 0
            &&& start.referee.state.stage == RuneStage::Small && reset.referee.state.stage
                == RuneStage::Small
            &&& start.runes == play.controlled().runes
            &&& reset.runes == play.released().runes
        }),
{
    reveal(Play::commanded);
    reveal(RefereeModel::drained);
}

/// Under a referee every rune of the match is a dark Small Rune that does not
/// restart by itself; back in training each is of the kind it was made as, lit
/// and restarting. Runes that no team owns are left alone.
pub proof fn runes_change_hands(play: Play, i: int)
    requires
        play.wf(),
        play.runes_by(play.referee.state.now_ns),
        0 <= i < play.runes.len(),
    ensures
        ({
            let taken = play.controlled().runes[i];
            let back = play.released().runes[i];
            let now = play.referee.state.now_ns;
            &&& play.referee.config.rune_teams.len() <= i ==> taken == play.runes[i] && back
                == play.runes[i]
            &&& i < play.referee.config.rune_teams.len() ==> {
                &&& taken.kind() == RuneKind::Small
                &&& taken.state() == RuneState::Inactive
                &&& taken.time_ns() == now
                &&& back.kind() == play.referee.training_kinds[i]
                &&& back.state() == RuneState::Activating
                &&& back.time_ns() == now
                &&& match taken.activation {
                    crate::rune::runner::Activation::Small(a) => !a.auto_restart && a.rng
                        is Some,
                    crate::rune::runner::Activation::Big(a) => false,
                }
                &&& match back.activation {
                    crate::rune::runner::Activation::Small(a) => a.auto_restart && a.rng is None,
                    crate::rune::runner::Activation::Big(a) => a.auto_restart && a.rng is None
                        && a.motion == crate::rune::wheel::BigRuneMotion::training(),
                }
            }
        }),
{
    if i < play.referee.config.rune_teams.len() {
        let now = play.referee.state.now_ns;
        assert(play.runes[i].time_ns() <= now);
        super::handover::taken_runes_are_dark(
            play.runes[i],
            super::model::rune_seed(play.referee.config.seed, i),
            now,
        );
        super::handover::returned_runes_train(
            play.runes[i],
            play.referee.training_kinds[i],
            now,
        );
    }
}

/// A skip moves the clock to its target but not past the end of the round, and
/// brings the engine to the same millisecond.
pub proof fn skips_stop_at_the_end(play: Play, match_time_ns: u64, game: GameView)
    requires
        play.referee.wf(),
        play.referee.state.phase == MatchPhase::Running,
        play.referee.match_time() <= match_time_ns,
        play.referee.match_time() <= play.referee.config.round_ns,
        game.phase == GamePhase::Running,
    ensures
        ({
            let round = play.referee.config.round_ns;
            let target = if match_time_ns < round {
                match_time_ns
            } else {
                round
            };
            let (after, progress) = play.skipping(match_time_ns, game);
            &&& after.referee.match_time() == target
            &&& match progress {
                Progress::Call(GameCall::SkipTo { round_ticks }) => round_ticks * 1_000_000
                    <= target < (round_ticks + 1) * 1_000_000,
                _ => false,
            }
            &&& after.referee.state.now_ns == play.referee.state.now_ns
        }),
{
    reveal(Play::skipping);
}

/// A round that ends takes every attempt and buff with it, stops the clock where
/// it stands but not past the round's end, and darkens the match's runes. A
/// countdown is run out first, and a running engine is told to end.
pub proof fn rounds_end_cleanly(play: Play, game: GameView, i: int)
    requires
        play.wf(),
    ensures
        ({
            let (after, progress) = play.finishing(game);
            let t = play.referee.match_time();
            let round = play.referee.config.round_ns;
            let s = after.referee.state;
            &&& s.finished_match_time_ns <= round
            &&& t <= round ==> s.finished_match_time_ns == t
            &&& round <= t ==> s.finished_match_time_ns == round
            &&& s.red.team.buff is None && s.blue.team.buff is None
            &&& s.red.team.activating_since_ns is None && s.blue.team.activating_since_ns is None
            &&& s.red.team.attempt_arms == 0 && s.blue.team.attempt_arms == 0
            &&& s.red.team.big_rune_activations == play.referee.state.red.team.big_rune_activations
            &&& s.blue.team.big_rune_activations
                == play.referee.state.blue.team.big_rune_activations
            &&& game.phase == GamePhase::Countdown ==> progress == Progress::Call(
                GameCall::Step { ticks: game.countdown_left_ticks },
            )
            &&& game.phase == GamePhase::Running ==> progress == Progress::Call(
                GameCall::EndRound,
            )
            &&& game.phase == GamePhase::Idle || game.phase == GamePhase::Ended ==> progress
                == Progress::Done && s.phase == MatchPhase::Finished
            &&& 0 <= i < play.referee.config.rune_teams.len() ==> after.runes[i]
                == play.runes[i].advanced(play.referee.state.now_ns).darkened()
            &&& after.runes.len() == play.runes.len()
        }),
{
    reveal(Play::finishing);
    reveal(Play::ending);
    reveal(Play::ended);
    let dark = play.darkened();
    let r = dark.referee;
    let t = r.match_time();
    let frozen = r.with(
        MatchState {
            finished_match_time_ns: if t < r.config.round_ns {
                t
            } else {
                r.config.round_ns
            },
            ..r.state
        },
    );
    let red = frozen.state.red.team;
    let blue = frozen.state.blue.team;
    let cleared = frozen.with_team(
        Team::Red,
        TeamState { buff: None, ..red.without_attempt() },
    ).with_team(Team::Blue, TeamState { buff: None, ..blue.without_attempt() });
    let over = cleared.with(
        MatchState {
            phase: MatchPhase::Finished,
            phase_started_ns: cleared.state.now_ns,
            ..cleared.state
        },
    );
    draining_keeps_the_round(over, game, game.events@.len());
}

/// Draining leaves the clocks, the phase and the teams' runes alone.
pub proof fn draining_keeps_the_round(referee: RefereeModel, game: GameView, n: nat)
    requires
        n <= game.events@.len(),
    ensures
        ({
            let some = referee.reported_first(game, n);
            let all = referee.drained(game);
            &&& same_round(referee, some)
            &&& n == game.events@.len() ==> same_round(referee, all)
        }),
    decreases n,
{
    reveal(RefereeModel::reported);
    reveal(RefereeModel::drained);
    if n > 0 {
        draining_keeps_the_round(referee, game, (n - 1) as nat);
    }
}

/// Two referees are at the same moment of the same round.
pub open spec fn same_round(a: RefereeModel, b: RefereeModel) -> bool {
    &&& a.config == b.config
    &&& a.state.phase == b.state.phase
    &&& a.state.phase_started_ns == b.state.phase_started_ns
    &&& a.state.match_started_ns == b.state.match_started_ns
    &&& a.state.skipped_ns == b.state.skipped_ns
    &&& a.state.finished_match_time_ns == b.state.finished_match_time_ns
    &&& a.state.schedule_index == b.state.schedule_index
    &&& a.state.stage == b.state.stage
    &&& a.state.red.team == b.state.red.team
    &&& a.state.blue.team == b.state.blue.team
    &&& a.state.red.dart_door_open == b.state.red.dart_door_open
    &&& a.state.blue.dart_door_open == b.state.blue.dart_door_open
    &&& a.state.dart_target_since_ns == b.state.dart_target_since_ns
    &&& a.state.now_ns == b.state.now_ns
    &&& a.state.pending == b.state.pending
}

/// Until the countdown is over a tick only moves time; then it runs the
/// engine's out. A base that has finished its travel comes to rest on the way.
pub proof fn a_countdown_runs_out(play: Play, now_ns: u64, game: GameView)
    requires
        play.referee.state.now_ns <= now_ns,
        play.referee.state.phase_started_ns <= now_ns,
        play.referee.state.phase == MatchPhase::Countdown,
    ensures
        ({
            let (after, progress) = play.ticked(now_ns, game);
            let waited = now_ns - play.referee.state.phase_started_ns;
            &&& after.referee.state.now_ns == now_ns
            &&& after.referee.state.phase == MatchPhase::Countdown
            &&& after.runes == play.runes
            &&& waited < play.referee.config.countdown_ns ==> progress == Progress::Done
            &&& waited >= play.referee.config.countdown_ns ==> progress == Progress::Call(
                GameCall::Step { ticks: game.countdown_left_ticks },
            )
        }),
{
}

/// In free practice and once a round is over a tick moves time and nothing else.
pub proof fn ticks_outside_a_round_move_time_only(play: Play, now_ns: u64, game: GameView)
    requires
        play.referee.state.phase == MatchPhase::Idle || play.referee.state.phase
            == MatchPhase::Finished,
    ensures
        ({
            let (after, progress) = play.ticked(now_ns, game);
            &&& progress == Progress::Done
            &&& after.referee.state.now_ns == now_ns
            &&& after.referee.state.phase == play.referee.state.phase
            &&& after.referee.state.red.team == play.referee.state.red.team
            &&& after.referee.state.blue.team == play.referee.state.blue.team
            &&& after.referee.events == play.referee.events
            &&& after.runes == play.runes
        }),
{
}

/// A running round steps the engine by what it is behind before anything else.
pub proof fn a_round_steps_the_engine_first(play: Play, now_ns: u64, game: GameView)
    requires
        play.referee.state.phase == MatchPhase::Running,
        play.referee.state.now_ns <= now_ns,
        play.referee.with(MatchState { now_ns, ..play.referee.state }).ticks_behind(game) > 0,
    ensures
        ({
            let (after, progress) = play.ticked(now_ns, game);
            &&& progress == Progress::Call(
                GameCall::Step {
                    ticks: play.referee.with(
                        MatchState { now_ns, ..play.referee.state },
                    ).ticks_behind(game),
                },
            )
            &&& after.referee.state.pending == Pending::RoundStep
            &&& after.referee.state.now_ns == now_ns
            &&& after.runes == play.runes
        }),
{
    reveal(Play::round_advanced);
}

/// What the engine answers is passed on: what it carried out is done, and what
/// it refused is refused in its words.
pub proof fn the_engines_answer_is_passed_on(
    play: Play,
    since_ns: u64,
    error: GameError,
    game: GameView,
)
    requires
        play.referee.state.pending == (Pending::Forwarded { since_ns }),
    ensures
        play.resumed(Ok(()), game).1 == Progress::Done,
        play.resumed(Err(error), game).1 == Progress::Refused(error.words()),
        play.resumed(Ok(()), game).0.referee.state.pending == Pending::Nothing,
        play.resumed(Ok(()), game).0.runes == play.runes,
{
    reveal(Play::resumed);
    reveal(RefereeModel::drained);
}

/// Robots that join or leave are told of once the engine took them, and not
/// otherwise.
pub proof fn robots_join_and_leave(
    play: Play,
    robot: u32,
    team: Team,
    error: GameError,
    game: GameView,
)
    requires
        play.referee.wf(),
    ensures
        ({
            let joining = play.under(play.referee.waiting(Pending::Joining { robot, team }));
            let leaving = play.under(play.referee.waiting(Pending::Leaving { robot }));
            let (joined, j) = joining.resumed(Ok(()), game);
            let (left, l) = leaving.resumed(Ok(()), game);
            &&& j == Progress::Done && l == Progress::Done
            &&& joined.referee.events.last().event == (RefereeEvent::RobotJoined { robot, team })
            &&& left.referee.events.last().event == (RefereeEvent::RobotLeft { robot })
            &&& joining.resumed(Err(error), game).1 is Refused
            &&& joining.resumed(Err(error), game).0.referee.events == play.referee.events
            &&& leaving.resumed(Err(error), game).1 == Progress::Refused(error.words())
            &&& leaving.resumed(Err(error), game).0.referee.events == play.referee.events
        }),
{
    reveal(Play::resumed);
}

/// A buff that the engine took is the team's from then on, in place of the
/// attempt under way, and its rune is dark.
pub proof fn granted_buffs_hold(
    play: Play,
    team: Team,
    buff: BuffState,
    since_ns: u64,
    game: GameView,
)
    requires
        play.wf(),
        play.referee.state.pending == (Pending::BuffSet { team, buff, since_ns }),
        play.referee.rune_of(team) is Some,
    ensures
        ({
            let (after, progress) = play.resumed(Ok(()), game);
            let s = play.referee.state;
            let index = play.referee.rune_of(team)->0 as int;
            &&& progress == Progress::Done
            &&& team == Team::Red ==> {
                &&& after.referee.state.red.team.buff == Some(buff)
                &&& after.referee.state.red.team.activating_since_ns is None
                &&& after.referee.state.blue.team == s.blue.team
            }
            &&& team == Team::Blue ==> {
                &&& after.referee.state.blue.team.buff == Some(buff)
                &&& after.referee.state.blue.team.activating_since_ns is None
                &&& after.referee.state.red.team == s.red.team
            }
            &&& after.runes[index] == play.runes[index].advanced(s.now_ns).darkened()
        }),
{
    reveal(Play::resumed);
    super::model::owned_index_is_owned(play.referee.config.rune_teams, team, 0);
    let r = play.referee.waiting(Pending::Nothing);
    let after = play.buffed(team, Some(buff), r);
    draining_keeps_the_round(after.referee, game, game.events@.len());
}

/// Once the engine is reset, a start begins its countdown and a reset leaves
/// free practice, told as such.
pub proof fn resets_lead_on(play: Play, start: bool, reply: Result<(), GameError>, game: GameView)
    requires
        play.referee.wf(),
        play.referee.state.pending == (Pending::Resetting { start }),
    ensures
        ({
            let (after, progress) = play.resumed(reply, game);
            &&& start ==> progress == Progress::Call(GameCall::BeginCountdown)
                && after.referee.state.pending == (Pending::Opening { done: 0 })
            &&& !start ==> {
                &&& progress == Progress::Done
                &&& after.referee.state.phase == MatchPhase::Idle
                &&& after.referee.state.phase_started_ns == play.referee.state.now_ns
                &&& after.referee.state.pending == Pending::Nothing
            }
            &&& after.referee.state.game_events_seen == game.next_event_id
            &&& after.runes == play.runes
        }),
{
    reveal(Play::resumed);
    reveal(RefereeModel::drained);
    let r = play.referee.waiting(Pending::Nothing);
    let seen = r.with(MatchState { game_events_seen: game.next_event_id, ..r.state });
    let idle = seen.with(
        MatchState {
            phase: MatchPhase::Idle,
            phase_started_ns: seen.state.now_ns,
            ..seen.state
        },
    );
    draining_keeps_the_round(
        idle.told(RefereeEvent::MatchReset),
        game,
        game.events@.len(),
    );
}

/// A team without an outpost begins the match with none: its HP is set to zero,
/// red's first. Then the countdown starts at the referee's time.
pub proof fn teams_without_an_outpost_have_none(play: Play, done: u32, game: GameView)
    requires
        play.referee.wf(),
        done <= 2,
    ensures
        ({
            let (after, progress) = play.opening(done, game);
            let red = done == 0 && play.referee.outpost_of(Team::Red) is None;
            let blue = !red && done <= 1 && play.referee.outpost_of(Team::Blue) is None;
            &&& red ==> progress == Progress::Call(
                GameCall::SetOutpostHp { team: Team::Red, hp: 0 },
            ) && after.referee.state.pending == (Pending::Opening { done: 1 })
            &&& blue ==> progress == Progress::Call(
                GameCall::SetOutpostHp { team: Team::Blue, hp: 0 },
            ) && after.referee.state.pending == (Pending::Opening { done: 2 })
            &&& !red && !blue ==> {
                &&& progress == Progress::Done
                &&& after.referee.state.phase == MatchPhase::Countdown
                &&& after.referee.state.phase_started_ns == play.referee.state.now_ns
            }
            &&& after.runes == play.runes
        }),
{
    reveal(Play::opening);
    let r = play.referee;
    let counting = r.with(
        MatchState {
            phase: MatchPhase::Countdown,
            phase_started_ns: r.state.now_ns,
            ..r.state
        },
    );
    draining_keeps_the_round(
        counting.told(RefereeEvent::CountdownStarted),
        game,
        game.events@.len(),
    );
}

/// Two plays share when their round started, what was skipped and what time it
/// is.
pub open spec fn same_clock(a: Play, b: Play) -> bool {
    &&& a.referee.state.match_started_ns == b.referee.state.match_started_ns
    &&& a.referee.state.skipped_ns == b.referee.state.skipped_ns
    &&& a.referee.state.now_ns == b.referee.state.now_ns
    &&& a.referee.config == b.referee.config
}

/// The schedule leaves the clock alone.
proof fn schedules_keep_the_clock(play: Play, left: nat)
    requires
        SCHEDULE_LEN - play.referee.state.schedule_index <= left,
    ensures
        same_clock(play, play.scheduled()),
        play.scheduled().referee.state.phase == play.referee.state.phase,
    decreases left,
{
    let index = play.referee.state.schedule_index;
    if index < SCHEDULE_LEN && super::model::schedule(index).0 <= play.referee.match_time() {
        reveal(Play::item_done);
        let next = play.item_done(super::model::schedule(index).1);
        assert(same_clock(play, next));
        assert(next.referee.state.schedule_index == index + 1);
        if left > 0 {
            schedules_keep_the_clock(next, (left - 1) as nat);
        }
    }
}

/// The end of a round leaves the clock alone.
proof fn endings_keep_the_clock(play: Play, game: GameView)
    ensures
        same_clock(play, play.finishing(game).0),
        same_clock(play, play.round_checked(game).0),
{
    reveal(Play::finishing);
    reveal(Play::ending);
    reveal(Play::ended);
    reveal(Play::round_checked);
    let dark = play.darkened();
    let r = dark.referee;
    let t = r.match_time();
    let frozen = r.with(
        MatchState {
            finished_match_time_ns: if t < r.config.round_ns {
                t
            } else {
                r.config.round_ns
            },
            ..r.state
        },
    );
    let red = frozen.state.red.team;
    let blue = frozen.state.blue.team;
    let cleared = frozen.with_team(
        Team::Red,
        TeamState { buff: None, ..red.without_attempt() },
    ).with_team(Team::Blue, TeamState { buff: None, ..blue.without_attempt() });
    let over = cleared.with(
        MatchState {
            phase: MatchPhase::Finished,
            phase_started_ns: cleared.state.now_ns,
            ..cleared.state
        },
    );
    draining_keeps_the_round(over, game, game.events@.len());
}

/// A team's attempt and its buff leave the clock alone.
proof fn attempts_keep_the_clock(play: Play, team: Team)
    ensures
        same_clock(play, play.attempted(team).0),
        same_clock(play, play.expired(team).0),
{
    reveal(Play::attempted);
    reveal(Play::expired);
}

/// What a round does each tick leaves the clock alone.
proof fn rounds_keep_the_clock(play: Play, game: GameView)
    ensures
        same_clock(play, play.red_attempt(game).0),
        same_clock(play, play.round_advanced(game).0),
{
    reveal(Play::round_advanced);
    reveal(Play::red_attempt);
    reveal(Play::red_buff);
    reveal(Play::blue_attempt);
    reveal(Play::blue_buff);
    one_pass_keeps_the_clock(play, game);
    let gap: int = SCHEDULE_LEN - play.referee.state.schedule_index;
    schedules_keep_the_clock(
        play,
        if gap > 0 {
            gap as nat
        } else {
            0
        },
    );
    one_pass_keeps_the_clock(play.scheduled(), game);
}

/// One pass over both teams leaves the clock alone.
proof fn one_pass_keeps_the_clock(play: Play, game: GameView)
    ensures
        same_clock(play, play.red_attempt(game).0),
{
    reveal(Play::red_attempt);
    reveal(Play::red_buff);
    reveal(Play::blue_attempt);
    reveal(Play::blue_buff);
    let a = play.attempted(Team::Red).0;
    let b = a.expired(Team::Red).0;
    let c = b.attempted(Team::Blue).0;
    let d = c.expired(Team::Blue).0;
    attempts_keep_the_clock(play, Team::Red);
    attempts_keep_the_clock(a, Team::Red);
    attempts_keep_the_clock(b, Team::Blue);
    attempts_keep_the_clock(c, Team::Blue);
    endings_keep_the_clock(d, game);
}

/// The round starts when the countdown has run out: its clock begins at zero,
/// with nothing skipped.
pub proof fn a_round_starts_at_zero(play: Play, reply: Result<(), GameError>, game: GameView)
    requires
        play.referee.state.pending == Pending::CountdownStep,
    ensures
        ({
            let after = play.resumed(reply, game).0.referee.state;
            &&& after.match_started_ns == play.referee.state.now_ns
            &&& after.skipped_ns == 0
            &&& after.now_ns == play.referee.state.now_ns
        }),
{
    reveal(Play::resumed);
    let r = play.referee.waiting(Pending::Nothing);
    draining_keeps_the_round(r, game, game.events@.len());
    let d = r.drained(game);
    let running = d.with(
        MatchState {
            phase: MatchPhase::Running,
            phase_started_ns: d.state.now_ns,
            match_started_ns: d.state.now_ns,
            skipped_ns: 0,
            ..d.state
        },
    );
    rounds_keep_the_clock(play.under(running.told(RefereeEvent::MatchStarted)), game);
}

/// A round ends when its time is up or the engine's round is over, and not
/// before.
pub proof fn a_round_ends_on_time(play: Play, game: GameView)
    requires
        play.wf(),
        play.runes_by(play.referee.state.now_ns),
    ensures
        ({
            let (after, progress) = play.round_checked(game);
            let over = play.referee.config.round_ns <= play.referee.match_time() || game.phase
                != GamePhase::Running;
            &&& !over ==> progress == Progress::Done && after == play.under(
                play.referee.waiting(Pending::Nothing),
            )
            &&& over ==> {
                &&& after.referee.state.red.team.buff is None
                &&& after.referee.state.blue.team.buff is None
                &&& progress == Progress::Done ==> after.referee.state.phase
                    == MatchPhase::Finished
            }
        }),
{
    reveal(Play::round_checked);
    rounds_end_cleanly(play, game, 0);
}

/// A finished round is told, and its result where there is one.
pub proof fn a_result_is_told(play: Play, game: GameView)
    requires
        play.referee.wf(),
    ensures
        ({
            let (after, progress) = play.ended(game);
            &&& progress == Progress::Done
            &&& after.referee.state.phase == MatchPhase::Finished
            &&& after.referee.state.phase_started_ns == play.referee.state.now_ns
            &&& game.result is Some ==> after.referee.events.last().event
                == RefereeEvent::RoundResult(game.result->0)
            &&& game.result is None ==> after.referee.events.last().event
                == RefereeEvent::MatchFinished
        }),
{
    reveal(Play::ended);
    let r = play.referee;
    let over = r.with(
        MatchState { phase: MatchPhase::Finished, phase_started_ns: r.state.now_ns, ..r.state },
    );
    draining_keeps_the_round(over, game, game.events@.len());
}

/// An opportunity of the schedule goes to both teams, one each.
pub proof fn scheduled_opportunities_go_to_both(play: Play, item: Scheduled)
    requires
        play.referee.wf(),
        item != Scheduled::BigStage,
        play.referee.state.schedule_index < 6,
        play.referee.state.red.team.rune_opportunities < u32::MAX,
        play.referee.state.blue.team.rune_opportunities < u32::MAX,
    ensures
        ({
            let before = play.referee.state;
            let done = play.item_done(item);
            let after = done.referee.state;
            &&& after.red.team == (TeamState {
                rune_opportunities: (before.red.team.rune_opportunities + 1) as u32,
                ..before.red.team
            })
            &&& after.blue.team == (TeamState {
                rune_opportunities: (before.blue.team.rune_opportunities + 1) as u32,
                ..before.blue.team
            })
            &&& after.stage == before.stage
            &&& done.runes == play.runes
            &&& done.referee.events.last().event == (RefereeEvent::RuneOpportunity {
                team: Team::Blue,
                stage: if item == Scheduled::BigOpportunity {
                    RuneStage::Big
                } else {
                    RuneStage::Small
                },
                total: after.blue.team.rune_opportunities,
            })
        }),
{
    reveal(Play::item_done);
}

/// Once the engine took an outpost's HP, a fall is told as such and anything
/// else is not; a decided round's result is told. What the engine refuses is
/// refused, and nothing is told.
pub proof fn decisions_are_told(
    play: Play,
    team: Team,
    destroyed: bool,
    since_ns: u64,
    error: GameError,
    game: GameView,
)
    requires
        play.referee.wf(),
        forall|i: int|
            0 <= i < game.events@.len() ==> (#[trigger] game.events@[i]).id
                < play.referee.state.game_events_seen,
    ensures
        ({
            let set = play.under(
                play.referee.waiting(Pending::OutpostSet { team, destroyed, since_ns }),
            );
            let judged = play.under(play.referee.waiting(Pending::Adjudicated { since_ns }));
            let (a, x) = set.resumed(Ok(()), game);
            let (b, y) = judged.resumed(Ok(()), game);
            &&& x == Progress::Done && y == Progress::Done
            &&& destroyed && play.referee.outpost_of(team) is Some ==> a.referee.events.last().event
                == (RefereeEvent::OutpostDestroyed {
                outpost: play.referee.outpost_of(team)->0 as u32,
                team,
            })
            &&& !destroyed ==> a.referee.events == play.referee.events
            &&& game.result is Some ==> b.referee.events.last().event
                == RefereeEvent::RoundResult(game.result->0)
            &&& game.result is None ==> b.referee.events == play.referee.events
            &&& set.resumed(Err(error), game).1 is Refused
            &&& judged.resumed(Err(error), game).1 == Progress::Refused(error.words())
            &&& set.resumed(Err(error), game).0.referee.events == play.referee.events
            &&& judged.resumed(Err(error), game).0.referee.events == play.referee.events
        }),
{
    reveal(Play::resumed);
    reveal(RefereeModel::drained);
    let r = play.referee.waiting(Pending::Nothing);
    let n = game.events@.len();
    seen_reports_change_nothing(r, game, n);
    seen_reports_change_nothing(r.told_outpost(team), game, n);
    if game.result is Some {
        seen_reports_change_nothing(r.told(RefereeEvent::RoundResult(game.result->0)), game, n);
    }
}

} // verus!

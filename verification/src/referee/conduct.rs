//! How a match is conducted: its clock, its schedule, its rune attempts and
//! what each command and each answer of the engine leads to.
use super::desk::{config_refusal, idle_state, observed, owned_count, RefereeSnapshot};
use super::laws::{opportunities, schedule_takes_effect_once};
use super::model::{
    covering_ticks, fresh_side, owned_index, rune_seed, schedule, MatchState, Pending,
    Play, Progress, RefereeModel, Scheduled, Side, TeamState,
};
use super::{
    MatchPhase, RefereeConfig, RefereeEvent, RuneStage,
};
use crate::game::{
    robot_in, GameCall, GameEventKind, GamePhase, GameView, RobotState,
};
use crate::projectile::ArmorHit;
use crate::rune::{HitOutcome, RuneKind, RuneState};
use crate::target::{Caliber, Team};
use vstd::prelude::*;

verus! {

/// The round clock stands at zero before a round, keeps pace with the field
/// clock while one runs, and stands still once it is over.
pub proof fn the_round_clock_keeps_pace(state: MatchState, sooner: u64, later: u64)
    requires
        state.match_started_ns <= sooner <= later,
        later + state.skipped_ns <= u64::MAX,
    ensures
        state.phase == MatchPhase::Idle || state.phase == MatchPhase::Countdown
            ==> state.match_time(later) == 0,
        state.phase == MatchPhase::Running ==> {
            &&& state.match_time(later) - state.match_time(sooner) == later - sooner
            &&& state.match_time(state.match_started_ns) == state.skipped_ns
        },
        state.phase == MatchPhase::Finished ==> state.match_time(later) == state.match_time(sooner)
            && state.match_time(later) == state.finished_match_time_ns,
{
}

/// The schedule of a round: an opportunity for the Small Rune at the start and
/// at a minute and a half, then at three minutes the Big Rune and an opportunity
/// for it, and two more every seventy-five seconds. Both teams get the same.
pub proof fn a_round_has_its_schedule(play: Play)
    requires
        play.referee.wf(),
        play.referee.state.schedule_index == 0,
        play.referee.state.red.team.rune_opportunities < 1000,
        play.referee.state.blue.team.rune_opportunities < 1000,
    ensures
        ({
            let t = play.referee.match_time();
            let before = play.referee.state;
            let after = play.scheduled().referee.state;
            let due = 1 + (if t >= 90_000_000_000 {
                1int
            } else {
                0
            }) + (if t >= 180_000_000_000 {
                1int
            } else {
                0
            }) + (if t >= 255_000_000_000 {
                1int
            } else {
                0
            }) + (if t >= 330_000_000_000 {
                1int
            } else {
                0
            });
            &&& after.red.team.rune_opportunities == before.red.team.rune_opportunities + due
            &&& after.blue.team.rune_opportunities == before.blue.team.rune_opportunities + due
            &&& after.stage == RuneStage::Big <==> t >= 180_000_000_000
        }),
{
    schedule_takes_effect_once(play);
    reveal_with_fuel(opportunities, 8);
    let k = play.scheduled().referee.state.schedule_index;
    assert(schedule(0).0 == 0);
    if k > 0 {
        assert(schedule((k - 1) as u32).0 <= play.referee.match_time());
    }
}

/// Each opportunity of the schedule is for the rune of its time.
pub proof fn the_schedule_fits_its_stage(index: u32)
    requires
        index < 6,
    ensures
        schedule(index).1 == Scheduled::SmallOpportunity ==> schedule(index).0 < 180_000_000_000,
        schedule(index).1 == Scheduled::BigOpportunity ==> schedule(index).0 >= 180_000_000_000,
        schedule(index).1 == Scheduled::BigStage <==> index == 2,
        schedule(2).0 == 180_000_000_000,
        index > 0 ==> schedule((index - 1) as u32).0 <= schedule(index).0,
{
}

/// At three minutes both teams lose the attempt under way, whatever rings it
/// has, and every rune of the match becomes a Big Rune; a Small Rune's
/// opportunities and buffs are kept.
pub proof fn the_big_stage_ends_attempts(play: Play, i: int)
    requires
        play.wf(),
        play.referee.state.schedule_index < 6,
    ensures
        ({
            let before = play.referee.state;
            let done = play.item_done(Scheduled::BigStage);
            let after = done.referee.state;
            &&& after.stage == RuneStage::Big
            &&& after.schedule_index == before.schedule_index + 1
            &&& after.red.team.activating_since_ns is None
            &&& after.blue.team.activating_since_ns is None
            &&& after.red.team.attempt_arms == 0 && after.red.team.attempt_ring_sum == 0
            &&& after.blue.team.attempt_arms == 0 && after.blue.team.attempt_ring_sum == 0
            &&& after.red.team.rune_opportunities == before.red.team.rune_opportunities
            &&& after.blue.team.rune_opportunities == before.blue.team.rune_opportunities
            &&& after.red.team.buff == before.red.team.buff
            &&& after.blue.team.buff == before.blue.team.buff
            &&& done.referee.events.len() > 0
            &&& done.referee.events.last().event == RefereeEvent::RuneStage(RuneStage::Big)
            &&& done.runes.len() == play.runes.len()
            &&& 0 <= i < play.referee.config.rune_teams.len() ==> done.runes[i]
                == play.runes[i].as_kind(RuneKind::Big, before.now_ns)
            &&& play.referee.config.rune_teams.len() <= i < play.runes.len() ==> done.runes[i]
                == play.runes[i]
        }),
{
    reveal(Play::item_done);
}

/// A report carries the field's time and, while a round runs or is over, the
/// round's; it goes behind the others, of which the newest forty-eight are kept.
pub proof fn reports_are_stamped_and_kept(referee: RefereeModel, event: RefereeEvent)
    requires
        referee.events.len() <= 48,
    ensures
        ({
            let after = referee.told(event);
            let n = referee.events.len() as int;
            let m = after.events.len() as int;
            let last = after.events[m - 1];
            &&& m == (if n < 48 {
                n + 1
            } else {
                48
            })
            &&& last.event == event
            &&& last.time_ns == referee.state.now_ns
            &&& last.match_time_ns is Some <==> referee.state.phase == MatchPhase::Running
                || referee.state.phase == MatchPhase::Finished
            &&& last.match_time_ns is Some ==> last.match_time_ns == Some(
                referee.state.match_time(referee.state.now_ns),
            )
            &&& forall|i: int|
                0 <= i < m - 1 ==> #[trigger] after.events[i] == referee.events[n - m + 1 + i]
            &&& after.state == referee.state
        }),
{
}

/// What the engine reports is told on: damage only where there was some, with
/// what is left; a base without HP as destroyed, an outpost only then.
pub proof fn the_engines_reports_are_told(
    referee: RefereeModel,
    game: GameView,
    robot: u32,
    shooter: Option<u32>,
    hp: u32,
    shield: u32,
    team: Team,
)
    requires
        referee.events.len() <= 48,
    ensures
        ({
            let after = referee.reported(
                GameEventKind::RobotDamage { robot, shooter, hp, shield },
                game,
            );
            let left = robot_in(game.robots@, robot);
            &&& hp == 0 && shield == 0 ==> after == referee
            &&& hp > 0 || shield > 0 ==> after.events.len() > 0 && after.events.last().event == (
            RefereeEvent::RobotDamaged {
                robot,
                amount: hp,
                hp: if left is Some {
                    left->0.hp
                } else {
                    0
                },
                shooter,
            })
        }),
        ({
            let after = referee.reported(
                GameEventKind::BaseDamage { team, shooter, hp, shield },
                game,
            );
            let left = if team == Team::Red {
                game.red
            } else {
                game.blue
            };
            &&& hp == 0 && shield == 0 ==> after == referee
            &&& (hp > 0 || shield > 0) && left.base_hp == 0 ==> after.events.len() > 0
                && after.events.last().event == (RefereeEvent::BaseDestroyed { team })
            &&& (hp > 0 || shield > 0) && left.base_hp > 0 && hp + shield <= u32::MAX
                ==> after.events.len() > 0 && after.events.last().event == (
            RefereeEvent::BaseDamaged {
                team,
                amount: (hp + shield) as u32,
                hp: left.base_hp,
                shield_hp: left.base_shield_hp,
                shooter,
            })
        }),
        ({
            let after = referee.reported(GameEventKind::OutpostDamage { team, hp, shield }, game);
            let left = if team == Team::Red {
                game.red
            } else {
                game.blue
            };
            &&& left.outpost_hp > 0 || (hp == 0 && shield == 0) ==> after == referee
            &&& left.outpost_hp == 0 && (hp > 0 || shield > 0) && referee.outpost_of(
                team,
            ) is Some ==> after.events.len() > 0 && after.events.last().event == (
            RefereeEvent::OutpostDestroyed {
                outpost: referee.outpost_of(team)->0 as u32,
                team,
            })
        }),
{
    reveal(RefereeModel::reported);
}

/// What else the engine reports is told by its name; base armor that expands
/// opens the cover of its own team.
pub proof fn other_reports_are_told_by_name(
    referee: RefereeModel,
    game: GameView,
    robot: u32,
    team: Team,
    level: u8,
    kind: crate::game::ZoneKind,
)
    requires
        referee.events.len() <= 48,
    ensures
        referee.reported(GameEventKind::RobotDefeated(robot), game).events.last().event == (
        RefereeEvent::RobotDefeated { robot }),
        referee.reported(GameEventKind::RobotRespawned(robot), game).events.last().event == (
        RefereeEvent::RobotRespawned { robot }),
        referee.reported(GameEventKind::RobotRevived(robot), game).events.last().event == (
        RefereeEvent::RobotRevived { robot }),
        referee.reported(GameEventKind::WeaknessCleared(robot), game).events.last().event == (
        RefereeEvent::WeaknessCleared { robot }),
        referee.reported(GameEventKind::OutpostRebuilt(team), game).events.last().event == (
        RefereeEvent::OutpostRebuilt { team }),
        referee.reported(
            GameEventKind::LevelChanged { robot, level },
            game,
        ).events.last().event == (RefereeEvent::LevelUp { robot, level }),
        referee.reported(
            GameEventKind::TerrainCrossing { robot, kind },
            game,
        ).events.last().event == (RefereeEvent::TerrainCrossing { robot, kind }),
        ({
            let after = referee.reported(GameEventKind::BaseArmorExpanded(team), game);
            let other = if team == Team::Red {
                referee.state.blue == after.state.blue
            } else {
                referee.state.red == after.state.red
            };
            &&& after.events.last().event == (RefereeEvent::BaseArmorExpanded { team })
            &&& team == Team::Red ==> after.state.red.base_open
            &&& team == Team::Blue ==> after.state.blue.base_open
            &&& other
        }),
        referee.reported(GameEventKind::Other, game) == referee,
{
    reveal(RefereeModel::reported);
}

/// No report of the engine is told twice or passed over: those numbered from
/// the first unseen on are told, in their order, and the next unseen one is the
/// engine's next.
pub proof fn reports_are_drained_once(referee: RefereeModel, game: GameView, n: nat)
    requires
        0 < n <= game.events@.len(),
    ensures
        ({
            let before = referee.reported_first(game, (n - 1) as nat);
            let after = referee.reported_first(game, n);
            let event = game.events@[n - 1];
            &&& event.id < referee.state.game_events_seen ==> after == before
            &&& referee.state.game_events_seen <= event.id ==> after == before.reported(
                event.kind,
                game,
            )
        }),
        referee.reported_first(game, 0) == referee,
        referee.drained(game).state.game_events_seen == game.next_event_id,
        referee.drained(game).events == referee.reported_first(game, game.events@.len()).events,
{
    reveal(RefereeModel::drained);
}

/// The engine's round clock runs in milliseconds behind the referee's, never
/// past the end of the round: as many ticks are owed as bring it there.
pub proof fn the_engine_is_brought_up_to_the_round(referee: RefereeModel, game: GameView)
    ensures
        ({
            let t = referee.match_time();
            let round = referee.config.round_ns;
            let until = if t < round {
                t
            } else {
                round
            };
            let owed = referee.ticks_behind(game);
            &&& game.phase != GamePhase::Running ==> owed == 0
            &&& owed > 0 ==> (game.round_ticks + owed) * 1_000_000 <= until
            &&& game.phase == GamePhase::Running ==> until < (game.round_ticks + owed + 1)
                * 1_000_000
        }),
{
}

/// Time that a buff takes is covered by whole milliseconds, and by no more than
/// needed; none at all still counts as one.
pub proof fn ticks_cover_the_time(ns: u64)
    requires
        ns <= u64::MAX - 1_000_000,
    ensures
        covering_ticks(0) == 1,
        ns > 0 ==> (covering_ticks(ns) - 1) * 1_000_000 < ns <= covering_ticks(ns) * 1_000_000,
{
}

/// An opportunity more for the team that is given one, and told so; the other
/// team's are untouched.
pub proof fn an_opportunity_is_given(referee: RefereeModel, team: Team, stage: RuneStage)
    requires
        referee.events.len() <= 48,
        referee.state.side(team).team.rune_opportunities < u32::MAX,
    ensures
        ({
            let after = referee.granted(team, stage);
            let (mine, yours) = if team == Team::Red {
                (referee.state.red, referee.state.blue)
            } else {
                (referee.state.blue, referee.state.red)
            };
            let (my_new, your_new) = if team == Team::Red {
                (after.state.red, after.state.blue)
            } else {
                (after.state.blue, after.state.red)
            };
            &&& my_new.team.rune_opportunities == mine.team.rune_opportunities + 1
            &&& my_new == (Side {
                team: TeamState {
                    rune_opportunities: my_new.team.rune_opportunities,
                    ..mine.team
                },
                ..mine
            })
            &&& your_new == yours
            &&& after.events.last().event == (RefereeEvent::RuneOpportunity {
                team,
                stage,
                total: my_new.team.rune_opportunities,
            })
        }),
{
}

/// A Small Rune's buff takes a quarter of the damage for forty-five seconds and
/// nothing else; a Big Rune's goes by the rings the attempt recorded and the
/// arms it lit, which are as many.
pub proof fn what_an_attempt_earns(play: Play, team: Team)
    requires
        play.referee.match_time() <= u64::MAX - 60_000_000_000,
    ensures
        ({
            let t = play.referee.match_time();
            let state = if team == Team::Red {
                play.referee.state.red.team
            } else {
                play.referee.state.blue.team
            };
            let buff = play.earned(team);
            &&& buff.started_ns == t
            &&& buff.source == play.referee.state.stage
            &&& play.referee.state.stage == RuneStage::Small ==> {
                &&& buff.defense_pct == 25
                &&& buff.attack_pct == 100
                &&& buff.cooling_multiplier == 1
                &&& buff.expires_ns == t + 45_000_000_000
            }
            &&& play.referee.state.stage == RuneStage::Big ==> buff == super::rules::big_buff(
                state.attempt_ring_sum,
                state.attempt_arms,
                state.attempt_arms,
                t,
            )
        }),
{
}

/// What became of an attempt: a team without one, or without a rune, is left
/// alone. An Activated rune earns its buff and the engine hears of it, at the
/// buff's own numbers and for its whole length; in the Big stage it counts. An
/// attempt of twenty seconds or more is over and the rune goes dark; until then
/// it goes on. The other team notices nothing.
pub proof fn what_becomes_of_an_attempt(play: Play, team: Team)
    requires
        play.wf(),
        play.team_by(team, play.referee.state.now_ns),
        play.referee.match_time() <= u64::MAX - 120_000_000_000,
    ensures
        ({
            let s = play.referee.state;
            let (mine, yours) = if team == Team::Red {
                (s.red, s.blue)
            } else {
                (s.blue, s.red)
            };
            let (after, call) = play.attempted(team);
            let (my_new, your_new) = if team == Team::Red {
                (after.referee.state.red, after.referee.state.blue)
            } else {
                (after.referee.state.blue, after.referee.state.red)
            };
            let t = play.referee.match_time();
            let owned = play.referee.rune_of(team);
            let rune = play.runes[owned->0 as int].advanced(s.now_ns);
            &&& your_new == yours
            &&& owned is None ==> after == play && call is None
            &&& owned is Some && mine.team.activating_since_ns is None ==> call is None && my_new
                == mine
            &&& owned is Some && mine.team.activating_since_ns is Some ==> {
                let since = mine.team.activating_since_ns->0;
                &&& rune.state() == RuneState::Activated ==> {
                    let buff = play.earned(team);
                    &&& my_new.team.buff == Some(buff)
                    &&& my_new.team.activating_since_ns is None
                    &&& my_new.team.attempt_arms == 0 && my_new.team.attempt_ring_sum == 0
                    &&& s.stage == RuneStage::Small ==> my_new.team.big_rune_activations
                        == mine.team.big_rune_activations
                    &&& s.stage == RuneStage::Big && mine.team.big_rune_activations < u32::MAX
                        ==> my_new.team.big_rune_activations == mine.team.big_rune_activations + 1
                    &&& match call {
                        Some(
                            GameCall::RuneActivated {
                                team: whose,
                                big,
                                attack_pct,
                                defense_pct,
                                cooling_multiplier,
                                duration_ticks,
                            },
                        ) => {
                            &&& whose == team
                            &&& big <==> s.stage == RuneStage::Big
                            &&& attack_pct == buff.attack_pct
                            &&& defense_pct == buff.defense_pct
                            &&& cooling_multiplier == buff.cooling_multiplier
                            &&& duration_ticks * 1_000_000 == buff.expires_ns - buff.started_ns
                        },
                        _ => false,
                    }
                }
                &&& rune.state() == RuneState::Activating && t - since >= 20_000_000_000 ==> {
                    &&& call is None
                    &&& my_new.team.activating_since_ns is None
                    &&& my_new.team.attempt_arms == 0 && my_new.team.attempt_ring_sum == 0
                    &&& my_new.team.buff == mine.team.buff
                    &&& after.referee.events.last().event
                        == (RefereeEvent::RuneActivationExpired { team })
                    &&& after.runes[owned->0 as int] == rune.darkened()
                }
                &&& rune.state() == RuneState::Activating && t - since < 20_000_000_000 ==> {
                    &&& call is None
                    &&& my_new.team.activating_since_ns == mine.team.activating_since_ns
                    &&& my_new.team.buff == mine.team.buff
                    &&& my_new.team.rune_opportunities == mine.team.rune_opportunities
                    &&& rune.progress() >= mine.team.last_completed_groups
                        ==> my_new.team.attempt_arms == mine.team.attempt_arms
                        && my_new.team.attempt_ring_sum == mine.team.attempt_ring_sum
                    &&& rune.progress() < mine.team.last_completed_groups
                        ==> my_new.team.attempt_arms == 0 && my_new.team.attempt_ring_sum == 0
                    &&& after.referee.events == play.referee.events
                    &&& after.runes[owned->0 as int] == rune
                }
                &&& rune.state() == RuneState::Inactive ==> call is None
                    && my_new.team.activating_since_ns is None && my_new.team.buff
                    == mine.team.buff
            }
        }),
{
    reveal(Play::attempted);
    super::model::owned_index_is_owned(play.referee.config.rune_teams, team, 0);
    let now = play.referee.state.now_ns;
    if let Some(index) = play.referee.rune_of(team) {
        play.runes[index as int].advancing_in_steps(now, now);
    }
}

/// A buff ends at its time, not before: the team loses it, its rune goes dark
/// and the engine is told; nothing else of either team changes.
pub proof fn buffs_end_on_time(play: Play, team: Team)
    requires
        play.wf(),
    ensures
        ({
            let s = play.referee.state;
            let mine = if team == Team::Red {
                s.red.team
            } else {
                s.blue.team
            };
            let (after, call) = play.expired(team);
            let my_new = if team == Team::Red {
                after.referee.state.red.team
            } else {
                after.referee.state.blue.team
            };
            let owned = play.referee.rune_of(team);
            let over = mine.buff is Some && mine.buff->0.expires_ns <= play.referee.match_time();
            &&& owned is Some && over ==> {
                &&& call == Some(GameCall::ClearRuneBuff { team })
                &&& my_new == (TeamState { buff: None, ..mine })
                &&& after.runes[owned->0 as int] == play.runes[owned->0 as int].advanced(
                    s.now_ns,
                ).darkened()
            }
            &&& !(owned is Some && over) ==> call is None && after == play
            &&& team == Team::Red ==> after.referee.state.blue == s.blue
            &&& team == Team::Blue ==> after.referee.state.red == s.red
        }),
{
    reveal(Play::expired);
    super::model::owned_index_is_owned(play.referee.config.rune_teams, team, 0);
}

/// A team's rune or outpost is the first that it owns.
pub proof fn owners_have_their_first(owners: Seq<Team>, team: Team, k: int)
    requires
        0 <= k < owners.len(),
        owners[k] == team,
        forall|i: int| 0 <= i < k ==> #[trigger] owners[i] != team,
    ensures
        owned_index(owners, team, 0) == Some(k as nat),
{
    first_owned(owners, team, 0, k);
}

/// The first that a team owns from a place on.
proof fn first_owned(owners: Seq<Team>, team: Team, from: nat, k: int)
    requires
        from <= k < owners.len(),
        owners[k] == team,
        forall|i: int| 0 <= i < k ==> #[trigger] owners[i] != team,
    ensures
        owned_index(owners, team, from) == Some(k as nat),
    decreases k - from,
{
    if from < k {
        assert(owners[from as int] != team);
        first_owned(owners, team, from + 1, k);
    }
}

/// Rings count towards an attempt one by one with the ring struck; a wrong blade
/// loses them, and a hit on a rune that is not lit changes nothing.
pub proof fn rings_count_towards_an_attempt(
    team: TeamState,
    outcome: Option<HitOutcome>,
    ring: u32,
)
    requires
        team.attempt_arms < u32::MAX,
        team.attempt_ring_sum <= u64::MAX - u32::MAX,
    ensures
        ({
            let after = observed(team, outcome, ring);
            let counts = outcome is Some && (outcome->0 is GroupHit || outcome->0 is Accepted
                || outcome->0 is Activated);
            let lost = outcome is Some && outcome->0 is WrongBlade;
            &&& counts ==> after.attempt_arms == team.attempt_arms + 1 && after.attempt_ring_sum
                == team.attempt_ring_sum + ring
            &&& lost ==> after.attempt_arms == 0 && after.attempt_ring_sum == 0
            &&& !counts && !lost ==> after == team
            &&& after.activating_since_ns == team.activating_since_ns
            &&& after.buff == team.buff
            &&& after.rune_opportunities == team.rune_opportunities
        }),
{
}

/// A hit counts for the owner of the rune it met, in a running round while that
/// team has an attempt, and only where it was detected.
pub proof fn hits_count_for_the_owner(referee: RefereeModel, hit: ArmorHit)
    ensures
        match referee.attempt_of(hit) {
            Some(team) => {
                &&& hit.detected
                &&& referee.state.phase == MatchPhase::Running
                &&& hit.target is Rune
                &&& hit.target->Rune_rune < referee.config.rune_teams.len()
                &&& referee.config.rune_teams[hit.target->Rune_rune as int] == team
                &&& team == Team::Red ==> referee.state.red.team.activating_since_ns is Some
                &&& team == Team::Blue ==> referee.state.blue.team.activating_since_ns is Some
            },
            None => {
                ||| !hit.detected
                ||| referee.state.phase != MatchPhase::Running
                ||| !(hit.target is Rune)
                ||| hit.target->Rune_rune >= referee.config.rune_teams.len()
                ||| {
                    let team = referee.config.rune_teams[hit.target->Rune_rune as int];
                    ||| team == Team::Red && referee.state.red.team.activating_since_ns is None
                    ||| team == Team::Blue && referee.state.blue.team.activating_since_ns is None
                }
            },
        },
{
}

/// In the Big stage a team's rune detects from ring 4 on once it was activated,
/// and from ring 7 on once it was twice; before that every ring counts.
pub proof fn rings_go_out_with_activations(referee: RefereeModel, index: u32)
    requires
        index < referee.config.rune_teams.len(),
    ensures
        ({
            let done = if referee.config.rune_teams[index as int] == Team::Red {
                referee.state.red.team.big_rune_activations
            } else {
                referee.state.blue.team.big_rune_activations
            };
            &&& referee.state.stage == RuneStage::Small || done == 0 ==> referee.min_ring(index)
                == 1
            &&& referee.state.stage == RuneStage::Big && done == 1 ==> referee.min_ring(index)
                == 4
            &&& referee.state.stage == RuneStage::Big && done >= 2 ==> referee.min_ring(index)
                == 7
        }),
{
}

/// Every rune of a match draws from a seed of its own: the match's seed spread
/// over the runes by their place.
pub proof fn runes_draw_from_their_own_seed(seed: u64, i: int, j: int)
    requires
        0 <= i < j < 0x1_0000,
    ensures
        rune_seed(seed, i) != rune_seed(seed, j),
        rune_seed(seed, i) == seed.wrapping_mul(0x9E37_79B9_7F4A_7C15).wrapping_add(
            (i + 1) as u64,
        ),
{
}

/// A referee takes the field only with an owner for every rune and outpost, no
/// team with two outposts, a round of up to seven minutes and robots with HP.
pub proof fn what_a_referee_needs(config: RefereeConfig, runes: nat, outposts: nat)
    ensures
        config_refusal(config, runes, outposts) is None <==> {
            &&& config.rune_teams@.len() == runes
            &&& config.outpost_teams@.len() == outposts
            &&& owned_count(config.outpost_teams@, Team::Red) <= 1
            &&& owned_count(config.outpost_teams@, Team::Blue) <= 1
            &&& 0 < config.round_ns <= 420_000_000_000
            &&& config.robot.fallback.max_hp > 0
        },
{
}

/// Two that a team owns count as two.
pub proof fn owners_are_counted(owners: Seq<Team>, team: Team, i: int, j: int)
    requires
        0 <= i < j < owners.len(),
        owners[i] == team,
        owners[j] == team,
    ensures
        owned_count(owners, team) >= 2,
        owned_count(owners, team) + owned_count(owners, team.opponent()) == owners.len(),
{
    counted_from(owners, team, j, 1);
    counts_are_whole(owners, team);
}

/// A team owns at least those that were counted.
proof fn counted_from(owners: Seq<Team>, team: Team, j: int, more: nat)
    requires
        0 <= j < owners.len(),
        owners[j] == team,
        more <= 1,
        more == 1 ==> exists|i: int| 0 <= i < j && #[trigger] owners[i] == team,
    ensures
        owned_count(owners, team) >= 1 + more,
    decreases owners.len(),
{
    let head = owners.drop_last();
    if j < head.len() {
        assert(head[j] == team);
        if more == 1 {
            let i = choose|i: int| 0 <= i < j && #[trigger] owners[i] == team;
            assert(head[i] == team);
        }
        counted_from(head, team, j, more);
    } else if more == 1 {
        let i = choose|i: int| 0 <= i < j && #[trigger] owners[i] == team;
        assert(head[i] == team);
        counted_from(head, team, i, 0);
    }
}

/// Everything is owned by one of the two.
proof fn counts_are_whole(owners: Seq<Team>, team: Team)
    ensures
        owned_count(owners, team) + owned_count(owners, team.opponent()) == owners.len(),
    decreases owners.len(),
{
    if owners.len() > 0 {
        counts_are_whole(owners.drop_last(), team);
    }
}

/// A referee begins in free practice: nothing started, nothing earned, covers
/// closed, dart doors open and dart targets at rest.
pub proof fn a_referee_begins_idle(team: Team)
    ensures
        ({
            let s = idle_state();
            let side = fresh_side();
            &&& s.phase == MatchPhase::Idle
            &&& s.stage == RuneStage::Small
            &&& s.schedule_index == 0
            &&& s.dart_target_since_ns is None
            &&& s.pending == Pending::Nothing
            &&& s.match_time(s.now_ns) == 0
            &&& s.red == side && s.blue == side
            &&& !side.base_open && side.base_moved_ns is None && side.dart_door_open
            &&& side.team.rune_opportunities == 0
            &&& side.team.big_rune_activations == 0
            &&& side.team.activating_since_ns is None
            &&& side.team.buff is None
            &&& side.team.attempt_arms == 0 && side.team.attempt_ring_sum == 0
        }),
{
}

/// A snapshot shows red first, then blue; what remains of the round and of the
/// countdown goes down as time passes.
pub proof fn snapshots_show_the_match(
    snapshot: RefereeSnapshot,
    r: RefereeModel,
    robots: Seq<RobotState>,
    i: int,
)
    requires
        snapshot.shows(r, robots),
        r.wf(),
    ensures
        snapshot.base_open[0] == r.state.red.base_open,
        snapshot.base_open[1] == r.state.blue.base_open,
        snapshot.base_moved_ns[0] == r.state.red.base_moved_ns,
        snapshot.base_moved_ns[1] == r.state.blue.base_moved_ns,
        snapshot.dart_door_open[0] == r.state.red.dart_door_open,
        snapshot.dart_door_open[1] == r.state.blue.dart_door_open,
        snapshot.dart_target_since_ns == r.state.dart_target_since_ns,
        snapshot.phase == r.state.phase,
        snapshot.stage == r.state.stage,
        snapshot.teams[0].team == Team::Red && snapshot.teams[1].team == Team::Blue,
        snapshot.teams[0].buff == r.state.red.team.buff,
        snapshot.teams[1].buff == r.state.blue.team.buff,
        snapshot.teams[0].rune_opportunities == r.state.red.team.rune_opportunities,
        snapshot.teams[1].rune_opportunities == r.state.blue.team.rune_opportunities,
        snapshot.teams[0].big_rune_activations == r.state.red.team.big_rune_activations,
        snapshot.teams[1].big_rune_activations == r.state.blue.team.big_rune_activations,
        snapshot.teams[0].rune_activating_since_ns == r.state.red.team.activating_since_ns,
        snapshot.teams[1].rune_activating_since_ns == r.state.blue.team.activating_since_ns,
        snapshot.match_time_ns <= r.config.round_ns ==> snapshot.match_time_ns
            + snapshot.remaining_ns == r.config.round_ns,
        snapshot.match_time_ns > r.config.round_ns ==> snapshot.remaining_ns == 0,
        r.state.phase != MatchPhase::Countdown ==> snapshot.countdown_remaining_ns == 0,
        r.state.phase == MatchPhase::Countdown && r.state.now_ns - r.state.phase_started_ns
            <= r.config.countdown_ns ==> snapshot.countdown_remaining_ns + (r.state.now_ns
            - r.state.phase_started_ns) == r.config.countdown_ns,
        snapshot.robots@.len() == robots.len(),
        snapshot.events@ == r.events,
        snapshot.rune_teams@ == r.config.rune_teams,
        snapshot.outpost_teams@ == r.config.outpost_teams,
        0 <= i < robots.len() ==> {
            let shown = snapshot.robots@[i];
            &&& shown.id == robots[i].id
            &&& shown.team == robots[i].team
            &&& shown.kind == robots[i].kind
            &&& shown.max_hp == robots[i].max_hp
            &&& shown.level == robots[i].level
            &&& shown.weakened == robots[i].weakened
            &&& robots[i].ejected ==> shown.hp == 0
            &&& !robots[i].ejected ==> shown.hp == robots[i].hp
        },
{
}

/// A launch is accounted to the robot that made it, at its caliber, where the
/// engine knows it; any other launch is nobody's.
pub proof fn launches_are_accounted(
    referee: RefereeModel,
    shooter: Option<u32>,
    caliber: Caliber,
    game: GameView,
)
    ensures
        ({
            let (after, progress) = referee.launched(shooter, caliber, game);
            let known = shooter is Some && robot_in(game.robots@, shooter->0) is Some;
            &&& known ==> progress == Progress::Call(
                GameCall::Launch { robot: shooter->0, caliber },
            )
            &&& !known ==> progress == Progress::Done && after == referee
            &&& after.events == referee.events
        }),
{
}

/// A robot's record is opened once, for its team and class, with the match's
/// stand-in values; a second one under its id is refused.
pub proof fn records_are_opened_once(
    referee: RefereeModel,
    robot: u32,
    team: Team,
    kind: crate::game::RobotKind,
    performance: Option<u32>,
    game: GameView,
)
    ensures
        ({
            let (after, progress) = referee.joining(robot, team, kind, performance, game);
            let known = robot_in(game.robots@, robot) is Some;
            &&& known ==> progress is Refused && after == referee
            &&& !known ==> {
                &&& after.state.pending == (Pending::Joining { robot, team })
                &&& match progress {
                    Progress::Call(
                        GameCall::AddRobot {
                            robot: id,
                            team: whose,
                            kind: class,
                            performance: code,
                            fallback,
                        },
                    ) => {
                        &&& id == robot && whose == team && class == kind && code == performance
                        &&& fallback == referee.config.robot.fallback
                    },
                    _ => false,
                }
            }
        }),
{
}

/// A robot is defeated when it does not take part; of an unknown one nothing is
/// said.
pub proof fn defeat_is_told_of_known_robots(robots: Seq<RobotState>, robot: u32)
    ensures
        super::desk::defeated_in(robots, robot) is Some <==> robot_in(robots, robot) is Some,
        robot_in(robots, robot) is Some ==> (super::desk::defeated_in(robots, robot)->0
            <==> !robot_in(robots, robot)->0.alive),
{
}

} // verus!

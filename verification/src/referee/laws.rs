//! What holds of the referee whatever happens.
use super::model::{schedule, MatchState, Pending, Play, Progress, Scheduled, Side, SCHEDULE_LEN};
use super::{MatchPhase, RefereeCommand, RuneStage};
use crate::game::{GameError, GameView};
use crate::target::Team;
use vstd::prelude::*;

verus! {

/// A command that the referee refuses itself changes neither the referee nor
/// a rune.
pub proof fn refusal_changes_nothing(
    play: Play,
    command: RefereeCommand,
    now_ns: u64,
    game: GameView,
)
    requires
        play.refusal(command, now_ns, game) is Some,
    ensures
        play.answered(command, now_ns, game) == (
            play,
            Progress::Refused(play.refusal(command, now_ns, game)->0),
        ),
{
}

/// The commands that the engine may refuse.
pub open spec fn engine_decides(command: RefereeCommand) -> bool {
    match command {
        RefereeCommand::SetBaseOpen { .. }
        | RefereeCommand::SetDartDoorOpen { .. }
        | RefereeCommand::SetDartTargetMoving { .. }
        | RefereeCommand::SetRuneOpportunities { .. }
        | RefereeCommand::GrantRuneOpportunity { .. }
        | RefereeCommand::StartMatch
        | RefereeCommand::SkipTo { .. }
        | RefereeCommand::FinishMatch
        | RefereeCommand::ResetMatch
        | RefereeCommand::ActivateRune { .. } => false,
        RefereeCommand::SetRuneBuff { duration_ns, .. } => duration_ns > 0,
        _ => true,
    }
}

/// What a play waits for came with a command that changed nothing yet.
spec fn undecided(pending: Pending, since_ns: u64) -> bool {
    match pending {
        Pending::Forwarded { since_ns: t } => t == since_ns,
        Pending::OutpostSet { since_ns: t, .. } => t == since_ns,
        Pending::Adjudicated { since_ns: t } => t == since_ns,
        Pending::BuffSet { since_ns: t, .. } => t == since_ns,
        _ => false,
    }
}

proof fn commands_wait_undecided(play: Play, command: RefereeCommand, since_ns: u64, game: GameView)
    requires
        engine_decides(command),
    ensures
        ({
            let (asked, progress) = play.commanded(command, since_ns, game);
            &&& undecided(asked.referee.state.pending, since_ns)
            &&& asked == play.under(play.referee.waiting(asked.referee.state.pending))
            &&& progress is Call
        }),
{
    reveal(Play::commanded);
}

proof fn phase_puts_back(play: Play, since_ns: u64, game: GameView)
    requires
        undecided(play.referee.state.pending, since_ns),
    ensures
        ({
            let (back, progress) = play.resumed(Err(GameError::Phase), game);
            &&& back == play.under(play.referee.with(play.referee.state.back_to(since_ns)))
            &&& progress is Refused
        }),
{
    reveal(Play::resumed);
}

/// A command that the engine's phase does not allow is refused and changes
/// neither the referee, its time among the rest, nor a rune.
pub proof fn phase_refusal_changes_nothing(
    play: Play,
    command: RefereeCommand,
    now_ns: u64,
    game: GameView,
    after: GameView,
)
    requires
        play.referee.state.pending == Pending::Nothing,
        play.refusal(command, now_ns, game) is None,
        engine_decides(command),
    ensures
        play.answered(command, now_ns, game).1 is Call,
        play.answered(command, now_ns, game).0.resumed(Err(GameError::Phase), after).0 == play,
        play.answered(command, now_ns, game).0.resumed(Err(GameError::Phase), after).1 is Refused,
{
    let r = play.referee;
    let now = play.under(r.with(MatchState { now_ns, ..r.state }));
    commands_wait_undecided(now, command, r.state.now_ns, game);
    phase_puts_back(now.commanded(command, r.state.now_ns, game).0, r.state.now_ns, after);
}

/// Rune commands, skips and buffs need a running round; a match is started
/// only from Idle, finished only before it is finished, decided only after,
/// and reset only when there is one.
pub proof fn commands_fit_the_phase(play: Play, now_ns: u64, game: GameView)
    requires
        play.referee.state.now_ns <= now_ns,
    ensures
        play.referee.state.phase != MatchPhase::Idle ==> play.refusal(
            RefereeCommand::StartMatch,
            now_ns,
            game,
        ) is Some,
        play.referee.state.phase == MatchPhase::Idle ==> play.refusal(
            RefereeCommand::ResetMatch,
            now_ns,
            game,
        ) is Some,
        play.referee.state.phase != MatchPhase::Countdown && play.referee.state.phase
            != MatchPhase::Running ==> play.refusal(
            RefereeCommand::FinishMatch,
            now_ns,
            game,
        ) is Some,
        play.referee.state.phase != MatchPhase::Finished ==> forall|winner: Option<Team>|
            #[trigger] play.refusal(
                RefereeCommand::Adjudicate { winner },
                now_ns,
                game,
            ) is Some,
        play.referee.state.phase != MatchPhase::Running ==> {
            &&& forall|team: Team| #[trigger]
                play.refusal(RefereeCommand::ActivateRune { team }, now_ns, game) is Some
            &&& forall|match_time_ns: u64| #[trigger]
                play.refusal(RefereeCommand::SkipTo { match_time_ns }, now_ns, game) is Some
        },
{
}

/// The round clock never runs back while the field clock goes on.
pub proof fn round_clock_runs_forward(state: MatchState, sooner: u64, later: u64)
    requires
        sooner <= later,
    ensures
        state.match_time(sooner) <= state.match_time(later),
{
}

/// A skip moves the round clock to its target, and never back.
pub proof fn skips_reach_their_target(play: Play, match_time_ns: u64, game: GameView)
    requires
        play.referee.wf(),
        play.referee.state.phase == MatchPhase::Running,
        play.referee.match_time() <= match_time_ns <= play.referee.config.round_ns,
        game.phase == crate::game::GamePhase::Running,
    ensures
        play.skipping(match_time_ns, game).0.referee.match_time() == match_time_ns,
{
    reveal(Play::skipping);
}

/// Opportunities among the scheduled items from one to another.
pub open spec fn opportunities(from: u32, to: u32) -> nat
    decreases to - from,
{
    if from >= to {
        0
    } else {
        opportunities((from + 1) as u32, to) + (if schedule(from).1 == Scheduled::BigStage {
            0nat
        } else {
            1
        })
    }
}

/// A count as far as it can be held.
pub open spec fn capped(n: int) -> int {
    if n < u32::MAX {
        n
    } else {
        u32::MAX as int
    }
}

/// Every scheduled item that is due takes effect exactly once, in order: the
/// schedule stands at the first item that is not due, doing it again changes
/// nothing, each team has one more opportunity for each opportunity passed,
/// and the round clock does not move.
pub proof fn schedule_takes_effect_once(play: Play)
    requires
        play.referee.wf(),
    ensures
        ({
            let before = play.referee.state;
            let done = play.scheduled();
            let after = done.referee.state;
            let t = play.referee.match_time();
            &&& before.schedule_index <= after.schedule_index <= SCHEDULE_LEN
            &&& after.schedule_index < SCHEDULE_LEN ==> schedule(after.schedule_index).0 > t
            &&& forall|i: u32|
                before.schedule_index <= i < after.schedule_index ==> (#[trigger] schedule(i)).0
                    <= t
            &&& done.referee.match_time() == t
            &&& done.scheduled() == done
            &&& after.red.team.rune_opportunities == capped(
                before.red.team.rune_opportunities + opportunities(
                    before.schedule_index,
                    after.schedule_index,
                ),
            )
            &&& after.blue.team.rune_opportunities == capped(
                before.blue.team.rune_opportunities + opportunities(
                    before.schedule_index,
                    after.schedule_index,
                ),
            )
            &&& after.stage == RuneStage::Big <==> after.schedule_index >= 3
        }),
{
    schedule_runs(play, 6);
}

/// What the schedule does with at most `left` items to go.
proof fn schedule_runs(play: Play, left: nat)
    requires
        play.referee.state.schedule_index <= SCHEDULE_LEN,
        SCHEDULE_LEN - play.referee.state.schedule_index <= left <= 6,
        play.referee.state.stage == RuneStage::Big <==> play.referee.state.schedule_index >= 3,
    ensures
        ({
            let before = play.referee.state;
            let done = play.scheduled();
            let after = done.referee.state;
            let t = play.referee.match_time();
            &&& before.schedule_index <= after.schedule_index <= SCHEDULE_LEN
            &&& after.schedule_index < SCHEDULE_LEN ==> schedule(after.schedule_index).0 > t
            &&& forall|i: u32|
                before.schedule_index <= i < after.schedule_index ==> (#[trigger] schedule(i)).0
                    <= t
            &&& done.referee.match_time() == t
            &&& done.scheduled() == done
            &&& after.red.team.rune_opportunities == capped(
                before.red.team.rune_opportunities + opportunities(
                    before.schedule_index,
                    after.schedule_index,
                ),
            )
            &&& after.blue.team.rune_opportunities == capped(
                before.blue.team.rune_opportunities + opportunities(
                    before.schedule_index,
                    after.schedule_index,
                ),
            )
            &&& after.stage == RuneStage::Big <==> after.schedule_index >= 3
        }),
    decreases left,
{
    let index = play.referee.state.schedule_index;
    let t = play.referee.match_time();
    if index < SCHEDULE_LEN && schedule(index).0 <= t {
        reveal(Play::item_done);
        let next = play.item_done(schedule(index).1);
        assert(next.referee.state.schedule_index == index + 1);
        assert(next.referee.match_time() == t);
        schedule_runs(next, (left - 1) as nat);
        assert(play.scheduled() == next.scheduled());
    } else {
        assert(play.scheduled() == play);
    }
}

/// How far a base's armor has opened, out of its whole travel.
pub open spec fn opened_ns(side: Side, now_ns: u64, travel_ns: u64) -> int {
    match side.base_moved_ns {
        None => if side.base_open {
            travel_ns as int
        } else {
            0
        },
        Some(moved) => {
            let gone = if now_ns - moved < travel_ns {
                now_ns - moved
            } else {
                travel_ns as int
            };
            if side.base_open {
                gone
            } else {
                travel_ns - gone
            }
        },
    }
}

/// Base armor that reverses in mid-travel goes on from where it is, and one
/// that has come to rest sets off from there.
pub proof fn base_reverses_from_where_it_is(
    state: MatchState,
    team: Team,
    open: bool,
    travel_ns: u64,
)
    requires
        state.side_wf(state.side(team)),
        travel_ns <= state.now_ns,
    ensures
        opened_ns(state.base_sent(team, open, travel_ns).side(team), state.now_ns, travel_ns)
            == opened_ns(state.side(team), state.now_ns, travel_ns),
        state.base_sent(team, open, travel_ns).side(team).base_open == open,
{
}

/// A base that has finished its travel and rests stands where it stood.
pub proof fn rest_does_not_move_a_base(state: MatchState, team: Team, travel_ns: u64)
    requires
        state.side_wf(state.side(team)),
    ensures
        opened_ns(state.base_rested(team, travel_ns).side(team), state.now_ns, travel_ns)
            == opened_ns(state.side(team), state.now_ns, travel_ns),
{
}

/// When the round ends nothing is left of an attempt or a buff, the round
/// clock stands at the end, and it stays there.
pub proof fn a_finished_round_is_quiet(play: Play, game: GameView, later: u64)
    requires
        play.referee.wf(),
        play.referee.state.pending == Pending::Nothing,
        play.referee.state.sides_quiet(),
    ensures
        ({
            let over = play.ended(game).0.referee;
            &&& over.state.phase == MatchPhase::Finished
            &&& over.state.sides_quiet()
            &&& over.state.match_time(later) == play.referee.state.finished_match_time_ns
            &&& over.state.match_time(later) <= play.referee.config.round_ns
        }),
{
    reveal(Play::ended);
    let r = play.referee;
    let finished = r.with(
        MatchState { phase: MatchPhase::Finished, phase_started_ns: r.state.now_ns, ..r.state },
    );
    finished.draining_keeps_wf(game);
}

/// A base that has travelled as long as it takes comes to rest, and one that has
/// not goes on; which way it stands does not change, and neither does the other
/// team's.
pub proof fn bases_come_to_rest(state: MatchState, team: Team, travel_ns: u64)
    requires
        state.side_wf(state.red),
        state.side_wf(state.blue),
    ensures
        ({
            let after = state.base_rested(team, travel_ns);
            let (old, new, others) = if team == Team::Red {
                (state.red, after.red, state.blue == after.blue)
            } else {
                (state.blue, after.blue, state.red == after.red)
            };
            &&& old.base_moved_ns is None ==> new == old
            &&& old.base_moved_ns is Some && state.now_ns - old.base_moved_ns->0 >= travel_ns
                ==> new.base_moved_ns is None
            &&& old.base_moved_ns is Some && state.now_ns - old.base_moved_ns->0 < travel_ns
                ==> new == old
            &&& new.base_open == old.base_open
            &&& others
        }),
{
}

/// A base cover that is sent where it stands or goes already stays as it is; one
/// that is sent the other way from rest sets off now.
pub proof fn covers_set_off_when_sent(state: MatchState, team: Team, open: bool, travel_ns: u64)
    ensures
        ({
            let after = state.base_sent(team, open, travel_ns);
            let (old, new) = if team == Team::Red {
                (state.red, after.red)
            } else {
                (state.blue, after.blue)
            };
            &&& old.base_open == open ==> after == state
            &&& old.base_open != open && old.base_moved_ns is None ==> new.base_open == open
                && new.base_moved_ns == Some(state.now_ns)
            &&& new.team == old.team && new.dart_door_open == old.dart_door_open
        }),
{
}

} // verus!

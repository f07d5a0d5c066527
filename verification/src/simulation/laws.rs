//! What holds of the shot schedule whatever arrives.
use super::command::{Action, Command, Facts, SimulationModel};
use super::shots::{
    apart, result_in, spaced, Admission, AimedShot, FireRecord, ShooterFacts, ShotRefusal,
    ShotResult, ShotsModel, RESULT_MEMORY,
};
use crate::input::InputFrame;
use vstd::prelude::*;

verus! {

/// Appending a result to ones that hold none of its shot makes it the shot's
/// result.
proof fn appended_result_found(results: Seq<ShotResult>, entry: ShotResult)
    requires
        result_in(results, entry.shot_id) is None,
    ensures
        result_in(results.push(entry), entry.shot_id) == Some(entry),
    decreases results.len(),
{
    let all = results.push(entry);
    if results.len() == 0 {
        assert(all[0] == entry);
    } else {
        let rest = results.subrange(1, results.len() as int);
        appended_result_found(rest, entry);
        assert(all.subrange(1, all.len() as int) =~= rest.push(entry));
        assert(all[0] == results[0]);
    }
}

/// A retry changes nothing and is answered like the shot: once a shot's result
/// is remembered, the same id is answered with it, whatever else the retry
/// says and whenever it comes.
pub proof fn retries_are_answered_alike(
    shots: ShotsModel,
    shooter: u32,
    shot_id: u64,
    result: Result<u64, ShotRefusal>,
    then_ns: u64,
    notify: bool,
    retry: AimedShot,
    facts: ShooterFacts,
    paused: bool,
    input_epoch: u64,
    now_ns: u64,
)
    requires
        shots.wf(),
        result_in(shots.log(shooter).results, shot_id) is None,
        retry.shooter == shooter,
        retry.shot_id == shot_id,
    ensures
        ({
            let after = shots.remembered(shooter, shot_id, result, then_ns, notify);
            after.admitted(retry, facts, paused, input_epoch, now_ns) == (
                after,
                Admission::Known(
                    match result {
                        Ok(_) => Ok(()),
                        Err(reason) => Err(reason),
                    },
                ),
            )
        }),
{
    let log = shots.log(shooter);
    let entry = shots.entry(shooter, shot_id, result, then_ns);
    if log.results.len() >= RESULT_MEMORY {
        assert(result_in(log.results.subrange(1, log.results.len() as int), shot_id) is None);
        appended_result_found(log.results.subrange(1, log.results.len() as int), entry);
    } else {
        appended_result_found(log.results, entry);
    }
}

/// A shot command whose result is recorded is answered with that result and
/// changes nothing, whatever else it says: a retry never fires, schedules or
/// changes the recorded outcome.
pub proof fn a_recorded_shot_is_never_fired_again(
    simulation: SimulationModel,
    shot: AimedShot,
    facts: Facts,
)
    requires
        result_in(simulation.shots.log(shot.shooter).results, shot.shot_id) is Some,
    ensures
        simulation.applied(Command::FireAimed(shot), facts) == (
            simulation,
            match result_in(simulation.shots.log(shot.shooter).results, shot.shot_id)->0.result {
                Ok(_) => Action::Done,
                Err(reason) => Action::RefusedShot(reason),
            },
        ),
{
}

/// Nothing stays queued when everything is cancelled.
pub proof fn cancelling_empties_the_queue(shots: ShotsModel, reason: ShotRefusal, now_ns: u64)
    ensures
        shots.cancelled(None, reason, now_ns).pending.len() == 0,
    decreases shots.pending.len(),
{
    if shots.pending.len() > 0 {
        let next = shots.finished(0, Err(reason), now_ns);
        assert(next.pending == shots.pending.remove(0));
        cancelling_empties_the_queue(next, reason, now_ns);
        assert(shots.cancelled(None, reason, now_ns) == next.cancelled(None, reason, now_ns));
    }
}

/// No shot crosses a pause: one stamped with another epoch is never admitted,
/// and none is while the host is paused.
pub proof fn no_shot_crosses_a_pause(
    shots: ShotsModel,
    shot: AimedShot,
    facts: ShooterFacts,
    paused: bool,
    input_epoch: u64,
    now_ns: u64,
)
    requires
        paused || shot.input.input_epoch != input_epoch,
    ensures
        shots.shot_refusal(shot, facts, paused, input_epoch, now_ns) is Some,
        !(shots.admitted(shot, facts, paused, input_epoch, now_ns).1 is Fire),
{
}

/// No input crosses a pause: once the pause has changed, samples of an earlier
/// epoch are refused and change nothing.
pub proof fn no_input_crosses_a_pause(
    simulation: SimulationModel,
    paused: bool,
    then_ns: u64,
    chassis: u32,
    frame: InputFrame,
    facts: Facts,
)
    requires
        simulation.pacing.input_epoch < u64::MAX,
        frame.input_epoch <= simulation.pacing.input_epoch,
    ensures
        ({
            let after = simulation.repaused(paused, then_ns);
            after.applied(Command::PilotInput { chassis, frame }, facts) == (
                after,
                Action::Refused("input epoch expired"),
            )
        }),
{
}

/// Remembering what became of a shot costs no gun its rate: a refused shot does
/// not use up an interval.
pub proof fn results_cost_no_interval(
    shots: ShotsModel,
    shooter: u32,
    shot_id: u64,
    result: Result<u64, ShotRefusal>,
    now_ns: u64,
    notify: bool,
    gun: u32,
)
    requires
        shots.wf(),
    ensures
        shots.remembered(shooter, shot_id, result, now_ns, notify).log(gun).fired_ns == shots.log(
            gun,
        ).fired_ns,
{
    remembering_keeps_times(shots, shooter, shot_id, result, now_ns, notify, gun);
}

/// Something that happens to a shot schedule.
pub ghost enum Happening {
    /// A shot intent arrives.
    Intent {
        shot: AimedShot,
        facts: ShooterFacts,
        paused: bool,
        input_epoch: u64,
        now_ns: u64,
    },
    /// An admitted shot is settled.
    Settled { shooter: u32, shot_id: u64, result: Result<u64, ShotRefusal>, now_ns: u64 },
    /// A queued shot is taken out.
    Finished { index: int, result: Result<u64, ShotRefusal>, now_ns: u64 },
    /// Queued shots are cancelled.
    Cancelled { shooter: Option<u32>, reason: ShotRefusal, now_ns: u64 },
    /// The field accepted a shot.
    Fired { record: FireRecord, intended_ns: u64 },
    /// The host fetches what was completed.
    Fetched,
    /// A shooter leaves.
    Left { shooter: u32, now_ns: u64 },
}

impl ShotsModel {
    /// The schedule after something happened.
    pub open spec fn after(self, happening: Happening) -> ShotsModel {
        match happening {
            Happening::Intent { shot, facts, paused, input_epoch, now_ns } => self.admitted(
                shot,
                facts,
                paused,
                input_epoch,
                now_ns,
            ).0,
            Happening::Settled { shooter, shot_id, result, now_ns } => self.remembered(
                shooter,
                shot_id,
                result,
                now_ns,
                false,
            ),
            Happening::Finished { index, result, now_ns } => self.finished(index, result, now_ns),
            Happening::Cancelled { shooter, reason, now_ns } => self.cancelled(
                shooter,
                reason,
                now_ns,
            ),
            Happening::Fired { record, intended_ns } => self.noted(record, intended_ns),
            Happening::Fetched => ShotsModel { completed: Seq::empty(), ..self },
            Happening::Left { shooter, now_ns } => self.forgotten(shooter, now_ns),
        }
    }

    /// The schedule after one thing after the other.
    pub open spec fn after_all(self, happenings: Seq<Happening>) -> ShotsModel
        decreases happenings.len(),
    {
        if happenings.len() == 0 {
            self
        } else {
            self.after_all(happenings.drop_last()).after(happenings.last())
        }
    }
}

/// A gun's shooter leaves.
pub open spec fn leaves(happening: Happening, gun: u32) -> bool {
    match happening {
        Happening::Left { shooter, .. } => shooter == gun,
        _ => false,
    }
}

/// Noting a shot adds its time to its own gun's and touches no other.
proof fn firing_adds_its_time(
    shots: ShotsModel,
    record: FireRecord,
    intended_ns: u64,
    gun: u32,
)
    ensures
        shots.noted(record, intended_ns).log(gun).fired_ns == (if gun == record.shooter {
            shots.log(gun).fired_ns.push(intended_ns)
        } else {
            shots.log(gun).fired_ns
        }),
{
}

/// Remembering a result touches no gun's times.
proof fn remembering_keeps_times(
    shots: ShotsModel,
    shooter: u32,
    shot_id: u64,
    result: Result<u64, ShotRefusal>,
    now_ns: u64,
    notify: bool,
    gun: u32,
)
    ensures
        shots.remembered(shooter, shot_id, result, now_ns, notify).log(gun).fired_ns == shots.log(
            gun,
        ).fired_ns,
{
}

/// Taking a queued shot out touches no gun's times.
proof fn finishing_keeps_times(
    shots: ShotsModel,
    index: int,
    result: Result<u64, ShotRefusal>,
    now_ns: u64,
    gun: u32,
)
    ensures
        shots.finished(index, result, now_ns).log(gun).fired_ns == shots.log(gun).fired_ns,
{
    let shot = shots.pending[index];
    remembering_keeps_times(
        ShotsModel { pending: shots.pending.remove(index), ..shots },
        shot.shooter,
        shot.shot_id,
        result,
        now_ns,
        true,
        gun,
    );
}

/// Cancelling queued shots touches no gun's times.
proof fn cancelling_keeps_times(
    shots: ShotsModel,
    from: nat,
    shooter: Option<u32>,
    reason: ShotRefusal,
    now_ns: u64,
    gun: u32,
)
    ensures
        shots.cancelled_from(from, shooter, reason, now_ns).log(gun).fired_ns == shots.log(
            gun,
        ).fired_ns,
    decreases shots.pending.len() - from,
{
    if from < shots.pending.len() {
        if shooter is None || shooter->0 == shots.pending[from as int].shooter {
            let next = shots.finished(from as int, Err(reason), now_ns);
            finishing_keeps_times(shots, from as int, Err(reason), now_ns, gun);
            assert(next.pending == shots.pending.remove(from as int));
            cancelling_keeps_times(next, from, shooter, reason, now_ns, gun);
        } else {
            cancelling_keeps_times(shots, from + 1, shooter, reason, now_ns, gun);
        }
    }
}

/// Whatever happens, a gun keeps the times of all its shots until its shooter
/// leaves, and gets a new one only when the field accepts a shot.
pub proof fn guns_keep_their_times(shots: ShotsModel, happening: Happening, gun: u32)
    requires
        !leaves(happening, gun),
    ensures
        shots.after(happening).log(gun).fired_ns == (match happening {
            Happening::Fired { record, intended_ns } if record.shooter == gun => shots.log(
                gun,
            ).fired_ns.push(intended_ns),
            _ => shots.log(gun).fired_ns,
        }),
{
    match happening {
        Happening::Intent { shot, facts, paused, input_epoch, now_ns } => {
            let reason = match shots.shot_refusal(shot, facts, paused, input_epoch, now_ns) {
                Some(reason) => reason,
                None => ShotRefusal::ScheduleFull,
            };
            remembering_keeps_times(
                shots,
                shot.shooter,
                shot.shot_id,
                Err(reason),
                now_ns,
                false,
                gun,
            );
        },
        Happening::Settled { shooter, shot_id, result, now_ns } => {
            remembering_keeps_times(shots, shooter, shot_id, result, now_ns, false, gun);
        },
        Happening::Finished { index, result, now_ns } => {
            finishing_keeps_times(shots, index, result, now_ns, gun);
        },
        Happening::Cancelled { shooter, reason, now_ns } => {
            cancelling_keeps_times(shots, 0, shooter, reason, now_ns, gun);
        },
        Happening::Fired { record, intended_ns } => {
            firing_adds_its_time(shots, record, intended_ns, gun);
        },
        Happening::Fetched => {},
        Happening::Left { shooter, now_ns } => {
            let reason = ShotRefusal::Disconnected;
            cancelling_keeps_times(shots, 0, Some(shooter), reason, now_ns, gun);
        },
    }
}

/// A time stays among a gun's, whatever happens, until its shooter leaves.
proof fn times_stay(shots: ShotsModel, happenings: Seq<Happening>, gun: u32, k: int)
    requires
        0 <= k < shots.log(gun).fired_ns.len(),
        forall|i: int| 0 <= i < happenings.len() ==> !leaves(#[trigger] happenings[i], gun),
    ensures
        k < shots.after_all(happenings).log(gun).fired_ns.len(),
        shots.after_all(happenings).log(gun).fired_ns[k] == shots.log(gun).fired_ns[k],
    decreases happenings.len(),
{
    if happenings.len() > 0 {
        let head = happenings.drop_last();
        assert forall|i: int| 0 <= i < head.len() implies !leaves(#[trigger] head[i], gun) by {
            assert(head[i] == happenings[i]);
        }
        times_stay(shots, head, gun, k);
        assert(!leaves(happenings[happenings.len() - 1], gun));
        guns_keep_their_times(shots.after_all(head), happenings.last(), gun);
    }
}

/// The gun's rate: no two shots of a gun are intended within one interval of
/// each other. Once the field accepted a shot intended at a time, and whatever
/// happened since, another intended within the gun's interval of that time is
/// refused, however long ago the first was and whatever weapon the gun has
/// now. Only a shooter that left and came back starts anew.
pub proof fn no_two_shots_within_an_interval(
    then: ShotsModel,
    record: FireRecord,
    accepted_ns: u64,
    happenings: Seq<Happening>,
    now: SimulationModel,
    intended_ns: u64,
    revision: Option<u64>,
)
    requires
        then.wf(),
        forall|i: int|
            0 <= i < happenings.len() ==> !leaves(#[trigger] happenings[i], record.shooter),
        now.shots == then.noted(record, accepted_ns).after_all(happenings),
        apart(accepted_ns, intended_ns) < now.weapon_of(record.shooter).interval_ns,
    ensures
        now.fire_refusal(record.shooter, intended_ns, revision) == Some(ShotRefusal::CoolingDown),
{
    let gun = record.shooter;
    let fired = then.noted(record, accepted_ns);
    firing_adds_its_time(then, record, accepted_ns, gun);
    let k = then.log(gun).fired_ns.len() as int;
    times_stay(fired, happenings, gun, k);
    assert(now.shots.log(gun).fired_ns[k] == accepted_ns);
}

/// Times that all lie an interval from each other.
pub open spec fn all_spaced(fired_ns: Seq<u64>, interval_ns: u64) -> bool {
    forall|i: int, j: int|
        0 <= i < j < fired_ns.len() ==> apart(
            #[trigger] fired_ns[i],
            #[trigger] fired_ns[j],
        ) >= interval_ns
}

/// As long as only shots that may fire are noted, the times of all shots of a
/// gun lie an interval from each other, in whatever order they arrive.
pub proof fn shots_keep_the_rate(
    shots: ShotsModel,
    record: FireRecord,
    intended_ns: u64,
    interval_ns: u64,
)
    requires
        shots.wf(),
        all_spaced(shots.log(record.shooter).fired_ns, interval_ns),
        spaced(shots.log(record.shooter).fired_ns, intended_ns, interval_ns),
    ensures
        all_spaced(shots.noted(record, intended_ns).log(record.shooter).fired_ns, interval_ns),
{
    firing_adds_its_time(shots, record, intended_ns, record.shooter);
    let before = shots.log(record.shooter).fired_ns;
    let after = before.push(intended_ns);
    assert forall|i: int, j: int| 0 <= i < j < after.len() implies apart(
        #[trigger] after[i],
        #[trigger] after[j],
    ) >= interval_ns by {
        assert(after[i] == before[i]);
        if j < before.len() {
            assert(after[j] == before[j]);
        }
    }
}

} // verus!

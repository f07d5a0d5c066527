//! What becomes of aimed shots: when they may fire, how they wait and what is
//! remembered of them.
use super::laws::cancelling_empties_the_queue;
use super::shots::{
    count_of, due_before, newest_first, pending_shot, queued, queueing_keeps_order, result_in,
    Admission, AimedShot, Due, FireRecord, LogModel, ShooterFacts, ShotRefusal, ShotResult,
    ShotsModel,
};
use super::sweep::Moment;
use crate::binary::finite;
use crate::input::ChassisCommand;
use vstd::prelude::*;

verus! {

/// Every control of a command is a finite number.
pub open spec fn all_finite(command: ChassisCommand) -> bool {
    &&& finite(command.forward_m_s)
    &&& finite(command.left_m_s)
    &&& finite(command.yaw_rate_rad_s)
    &&& finite(command.aim_yaw_rad)
    &&& finite(command.aim_pitch_rad)
}

/// An aimed shot may fire exactly where it has a number that is not 128 or more
/// behind the shooter's newest, its shooter stands in the placement and epoch
/// that it was aimed in, nothing is paused, its sample is sound, and it is meant
/// for no more than a quarter of a second ago and a fifth of a second ahead.
pub proof fn when_a_shot_may_fire(
    shots: ShotsModel,
    shot: AimedShot,
    facts: ShooterFacts,
    paused: bool,
    input_epoch: u64,
    now_ns: u64,
)
    requires
        now_ns <= u64::MAX - 200_000_000,
    ensures
        ({
            let refusal = shots.shot_refusal(shot, facts, paused, input_epoch, now_ns);
            let known = shots.logs.dom().contains(shot.shooter);
            let newest = shots.logs[shot.shooter].last_shot_id;
            let numbered = shot.shot_id > 0 && (known && newest is Some ==> newest->0
                < shot.shot_id + 128);
            let sound = {
                &&& !paused
                &&& facts.defeated is Some && !facts.defeated->0
                &&& shot.input.input_epoch == input_epoch
                &&& facts.revision == Some(shot.input.placement_revision)
                &&& all_finite(shot.input.command)
                &&& shot.input.sequence > 0
                &&& now_ns <= shot.input.sampled_time_ns + 250_000_000
                &&& shot.input.sampled_time_ns <= now_ns + 200_000_000
            };
            &&& refusal is None <==> numbered && sound
            &&& refusal == Some(ShotRefusal::Stale) <==> !numbered
            &&& refusal == Some(ShotRefusal::NoChassis) <==> numbered && facts.revision is None
            &&& refusal == Some(ShotRefusal::Expired) <==> numbered && facts.revision is Some
                && !sound
        }),
{
}

/// A shot that is new and may fire fires at once when its time has come, and
/// waits otherwise, behind at most thirty-one others of its shooter. One that
/// may not is refused and its refusal remembered. A shot with a known result
/// gets that; one that already waits goes on waiting.
pub proof fn how_a_shot_is_taken_in(
    shots: ShotsModel,
    shot: AimedShot,
    facts: ShooterFacts,
    paused: bool,
    input_epoch: u64,
    now_ns: u64,
)
    ensures
        ({
            let (after, admission) = shots.admitted(shot, facts, paused, input_epoch, now_ns);
            let known = result_in(shots.log(shot.shooter).results, shot.shot_id);
            let waits = pending_shot(shots.pending, shot.shooter, shot.shot_id);
            let refusal = shots.shot_refusal(shot, facts, paused, input_epoch, now_ns);
            let fresh = known is None && waits is None;
            let due = shot.input.sampled_time_ns <= now_ns;
            let room = count_of(shots.pending, shot.shooter) < 32;
            &&& admission is Fire <==> fresh && refusal is None && due
            &&& admission is Fire ==> after == shots
            &&& admission is Known <==> known is Some
            &&& known is Some || waits is Some ==> after == shots
            &&& admission is Changed <==> known is None && waits is Some && !waits->0.same(shot)
            &&& admission is Scheduled <==> known is None && (waits is Some && waits->0.same(shot)
                || waits is None && refusal is None && !due && room)
            &&& admission is Scheduled && waits is None ==> {
                &&& after.logs == shots.logs
                &&& after.completed == shots.completed
                &&& after.records == shots.records
                &&& after.pending == queued(shots.pending, shot)
            }
            &&& fresh && refusal is Some ==> admission == Admission::Refused(refusal->0)
            &&& fresh && refusal is None && !due && !room ==> admission == Admission::Refused(
                ShotRefusal::ScheduleFull,
            )
            &&& admission is Refused ==> {
                let entry = after.logs[shot.shooter].results.last();
                &&& after.pending == shots.pending
                &&& after.completed == shots.completed
                &&& after.records == shots.records
                &&& after.logs.dom().contains(shot.shooter)
                &&& entry.shot_id == shot.shot_id
                &&& entry.result == Err::<u64, ShotRefusal>(admission->Refused_0)
            }
        }),
{
}

/// Shots wait in the order of their times, then of their shooters, then of
/// their numbers; a new one goes behind all that are not due after it.
pub proof fn shots_wait_in_order_of_their_times(pending: Seq<AimedShot>, shot: AimedShot)
    requires
        forall|i: int, j: int|
            0 <= i < j < pending.len() ==> !due_before(
                #[trigger] pending[j],
                #[trigger] pending[i],
            ),
    ensures
        forall|i: int, j: int|
            0 <= i < j < queued(pending, shot).len() ==> (#[trigger] queued(
                pending,
                shot,
            )[i]).input.sampled_time_ns <= (#[trigger] queued(
                pending,
                shot,
            )[j]).input.sampled_time_ns,
        queued(pending, shot).to_multiset() == pending.to_multiset().insert(shot),
{
    queueing_keeps_order(pending, shot);
    let all = queued(pending, shot);
    assert forall|i: int, j: int| 0 <= i < j < all.len() implies (
    #[trigger] all[i]).input.sampled_time_ns <= (#[trigger] all[j]).input.sampled_time_ns by {
        assert(!due_before(all[j], all[i]));
    }
}

/// The earlier of two shots is due first; of two at one time that of the lower
/// shooter, and of one shooter's the lower number. No two different ones are due
/// before each other.
pub proof fn the_earlier_shot_is_due_first(a: AimedShot, b: AimedShot)
    ensures
        a.input.sampled_time_ns < b.input.sampled_time_ns ==> due_before(a, b) && !due_before(b, a),
        a.input.sampled_time_ns == b.input.sampled_time_ns && a.shooter < b.shooter ==> due_before(
            a,
            b,
        ) && !due_before(b, a),
        a.input.sampled_time_ns == b.input.sampled_time_ns && a.shooter == b.shooter ==> (
        due_before(a, b) <==> a.shot_id < b.shot_id),
{
}

/// A waiting shot fires once its time has come, as long as it may still fire;
/// one that may not is dropped for that reason.
pub proof fn waiting_shots_fire_on_time(
    shots: ShotsModel,
    index: int,
    facts: ShooterFacts,
    paused: bool,
    input_epoch: u64,
    now_ns: u64,
)
    requires
        0 <= index < shots.pending.len(),
    ensures
        ({
            let shot = shots.pending[index];
            let refusal = shots.shot_refusal(shot, facts, paused, input_epoch, now_ns);
            match shots.due_action(index, facts, paused, input_epoch, now_ns) {
                Due::End => false,
                Due::Wait => refusal is None && now_ns < shot.input.sampled_time_ns,
                Due::Fire(fired) => refusal is None && shot.input.sampled_time_ns <= now_ns
                    && fired == shot,
                Due::Drop(reason) => refusal == Some(reason),
            }
        }),
{
}

/// What is remembered of a shot: its number, its result, and of a shot that was
/// fired when it was and how fast. The newest 128 results of a shooter are kept,
/// the newest number never falls, and nothing of any other shooter changes. What
/// the host is to hear of is added behind what it has not fetched yet.
pub proof fn what_is_remembered_of_a_shot(
    shots: ShotsModel,
    shooter: u32,
    shot_id: u64,
    result: Result<u64, ShotRefusal>,
    now_ns: u64,
    notify: bool,
    other: u32,
)
    requires
        shots.wf(),
    ensures
        ({
            let after = shots.remembered(shooter, shot_id, result, now_ns, notify);
            let old: LogModel = shots.log(shooter);
            let new = after.logs[shooter];
            let n = old.results.len() as int;
            let m = new.results.len() as int;
            let entry = new.results[m - 1];
            &&& after.logs.dom().contains(shooter)
            &&& m == (if n < 128 {
                n + 1
            } else {
                128
            })
            &&& entry.shooter == shooter && entry.shot_id == shot_id && entry.result == result
            &&& result is Ok ==> entry.executed_time_ns == Some(now_ns)
            &&& result is Err ==> entry.executed_time_ns is None && entry.launch_speed_m_s is None
            &&& forall|i: int|
                0 <= i < m - 1 ==> #[trigger] new.results[i] == old.results[n - m + 1 + i]
            &&& new.last_shot_id is Some && new.last_shot_id->0 >= shot_id
            &&& old.last_shot_id is Some ==> new.last_shot_id->0 >= old.last_shot_id->0
            &&& new.last_shot_id == Some(shot_id) || new.last_shot_id == old.last_shot_id
            &&& new.fired_ns == old.fired_ns
            &&& other != shooter ==> after.log(other) == shots.log(other)
            &&& after.pending == shots.pending
            &&& after.records == shots.records
            &&& notify ==> after.completed[after.completed.len() - 1] == entry
            &&& !notify ==> after.completed == shots.completed
        }),
{
}

/// The speed remembered of a fired shot is that of its own projectile.
pub proof fn a_result_tells_the_projectiles_speed(
    shots: ShotsModel,
    shooter: u32,
    shot_id: u64,
    projectile: u64,
    now_ns: u64,
    k: int,
)
    requires
        0 <= k < shots.records.len(),
        shots.records[k].projectile_id == projectile,
        forall|i: int| 0 <= i < k ==> (#[trigger] shots.records[i]).projectile_id != projectile,
    ensures
        shots.entry(shooter, shot_id, Ok(projectile), now_ns).launch_speed_m_s == Some(
            shots.records[k].launch_speed_m_s,
        ),
    decreases k,
{
    if k > 0 {
        let rest = ShotsModel {
            records: shots.records.subrange(1, shots.records.len() as int),
            ..shots
        };
        assert(shots.records[0].projectile_id != projectile);
        assert forall|i: int| 0 <= i < k - 1 implies (#[trigger] rest.records[i]).projectile_id
            != projectile by {
            assert(rest.records[i] == shots.records[i + 1]);
        }
        a_result_tells_the_projectiles_speed(rest, shooter, shot_id, projectile, now_ns, k - 1);
    }
}

/// A waiting shot that is settled leaves the queue, no other does, and the host
/// hears of it.
pub proof fn settled_shots_leave_the_queue(
    shots: ShotsModel,
    index: int,
    result: Result<u64, ShotRefusal>,
    now_ns: u64,
)
    requires
        0 <= index < shots.pending.len(),
    ensures
        ({
            let after = shots.finished(index, result, now_ns);
            let shot = shots.pending[index];
            let heard = after.completed[after.completed.len() - 1];
            &&& after.pending.len() == shots.pending.len() - 1
            &&& forall|i: int|
                0 <= i < index ==> #[trigger] after.pending[i] == shots.pending[i]
            &&& forall|i: int|
                index <= i < after.pending.len() ==> #[trigger] after.pending[i]
                    == shots.pending[i + 1]
            &&& heard.shooter == shot.shooter && heard.shot_id == shot.shot_id && heard.result
                == result
            &&& after.records == shots.records
        }),
{
}

/// A shot that the field accepted is recorded, the newest 256 are kept, and its
/// gun has the time it was meant for.
pub proof fn accepted_shots_are_recorded(shots: ShotsModel, record: FireRecord, intended_ns: u64)
    requires
        shots.wf(),
    ensures
        ({
            let after = shots.noted(record, intended_ns);
            let n = shots.records.len() as int;
            let m = after.records.len() as int;
            let gun = after.logs[record.shooter].fired_ns;
            &&& m == (if n < 256 {
                n + 1
            } else {
                256
            })
            &&& after.records[m - 1] == record
            &&& forall|i: int|
                0 <= i < m - 1 ==> #[trigger] after.records[i] == shots.records[n - m + 1 + i]
            &&& gun.len() == shots.log(record.shooter).fired_ns.len() + 1
            &&& gun[gun.len() - 1] == intended_ns
            &&& after.pending == shots.pending
            &&& after.completed == shots.completed
        }),
{
}

/// Of each shooter the newest thirty-two results are published, newest first.
pub proof fn the_newest_results_are_published(results: Seq<ShotResult>, j: int)
    requires
        0 <= j < newest_first(results).len(),
    ensures
        newest_first(results).len() <= 32,
        newest_first(results).len() == results.len() || newest_first(results).len() == 32,
        newest_first(results)[j] == results[results.len() - 1 - j],
{
}

/// The shots of others.
pub open spec fn of_others(pending: Seq<AimedShot>, shooter: u32) -> Seq<AimedShot> {
    pending.filter(|shot: AimedShot| shot.shooter != shooter)
}

/// Cancelling from a place on leaves what stands before it and the shots of
/// others.
proof fn cancelling_from_leaves_others(
    shots: ShotsModel,
    from: nat,
    shooter: u32,
    reason: ShotRefusal,
    now_ns: u64,
)
    requires
        from <= shots.pending.len(),
    ensures
        shots.cancelled_from(from, Some(shooter), reason, now_ns).pending == shots.pending.subrange(
            0,
            from as int,
        ) + of_others(
            shots.pending.subrange(from as int, shots.pending.len() as int),
            shooter,
        ),
    decreases shots.pending.len() - from,
{
    let n = shots.pending.len();
    let rest = shots.pending.subrange(from as int, n as int);
    let keep = |shot: AimedShot| shot.shooter != shooter;
    if from >= n {
        reveal(Seq::filter);
        assert(rest =~= Seq::empty());
        assert(of_others(rest, shooter) =~= Seq::empty());
        assert(shots.pending =~= shots.pending.subrange(0, from as int) + of_others(
            rest,
            shooter,
        ));
    } else {
        let head = shots.pending[from as int];
        let tail = shots.pending.subrange((from + 1) as int, n as int);
        assert(rest =~= seq![head] + tail);
        Seq::filter_distributes_over_add(seq![head], tail, keep);
        assert(of_others(rest, shooter) == of_others(seq![head], shooter) + of_others(
            tail,
            shooter,
        ));
        assert(of_others(seq![head], shooter) =~= if head.shooter != shooter {
            seq![head]
        } else {
            Seq::empty()
        }) by {
            reveal(Seq::filter);
            assert(seq![head].drop_last() =~= Seq::empty());
            assert(Seq::<AimedShot>::empty().filter(keep) =~= Seq::empty());
        }
        if head.shooter == shooter {
            let next = shots.finished(from as int, Err(reason), now_ns);
            assert(next.pending == shots.pending.remove(from as int));
            assert(next.pending.subrange(from as int, next.pending.len() as int) =~= tail);
            assert(next.pending.subrange(0, from as int) =~= shots.pending.subrange(
                0,
                from as int,
            ));
            cancelling_from_leaves_others(next, from, shooter, reason, now_ns);
            assert(of_others(rest, shooter) =~= of_others(tail, shooter));
        } else {
            cancelling_from_leaves_others(shots, from + 1, shooter, reason, now_ns);
            assert(shots.pending.subrange(0, (from + 1) as int) + of_others(tail, shooter)
                =~= shots.pending.subrange(0, from as int) + of_others(rest, shooter));
        }
    }
}

/// Cancelling a shooter's shots takes exactly those from the queue; cancelling
/// everybody's takes all. A shooter that left has no shot waiting, and those of
/// others wait on in their order.
pub proof fn cancelling_spares_others(
    shots: ShotsModel,
    shooter: u32,
    reason: ShotRefusal,
    now_ns: u64,
)
    ensures
        shots.cancelled(Some(shooter), reason, now_ns).pending == of_others(
            shots.pending,
            shooter,
        ),
        shots.cancelled(None, reason, now_ns).pending.len() == 0,
        shots.forgotten(shooter, now_ns).pending == of_others(shots.pending, shooter),
        !shots.forgotten(shooter, now_ns).logs.dom().contains(shooter),
{
    cancelling_empties_the_queue(shots, reason, now_ns);
    assert(shots.pending.subrange(0, shots.pending.len() as int) =~= shots.pending);
    let none = Seq::<AimedShot>::empty();
    assert(shots.pending.subrange(0, 0) =~= none);
    assert(none + of_others(shots.pending, shooter) =~= of_others(shots.pending, shooter));
    cancelling_from_leaves_others(shots, 0, shooter, reason, now_ns);
    cancelling_from_leaves_others(shots, 0, shooter, ShotRefusal::Disconnected, now_ns);
}

/// A sweep hands out a shot only when its time has come and it may fire.
pub proof fn sweeps_fire_what_is_due(shots: ShotsModel, index: nat, moment: Moment)
    ensures
        ({
            let after = shots.swept(index, moment);
            match after.fires {
                None => after.index >= after.shots.pending.len(),
                Some(shot) => {
                    &&& shot.input.sampled_time_ns <= moment.now_ns
                    &&& after.shots.shot_refusal(
                        shot,
                        super::sweep::facts_of(moment.shooters@, shot.shooter),
                        moment.paused,
                        moment.input_epoch,
                        moment.now_ns,
                    ) is None
                },
            }
        }),
    decreases shots.pending.len() - index,
{
    if index < shots.pending.len() {
        match shots.due_at(index, moment) {
            Due::Drop(reason) => {
                let next = shots.finished(index as int, Err(reason), moment.now_ns);
                assert(next.pending.len() == shots.pending.len() - 1);
                sweeps_fire_what_is_due(next, index, moment);
            },
            Due::Fire(shot) => {},
            _ => {
                sweeps_fire_what_is_due(shots, index + 1, moment);
            },
        }
    }
}

/// The facts of a shooter are those the moment first lists, and none where it
/// lists none.
pub proof fn a_moment_tells_of_its_shooters(
    shooters: Seq<(u32, ShooterFacts)>,
    shooter: u32,
    k: int,
)
    ensures
        0 <= k < shooters.len() && shooters[k].0 == shooter && (forall|i: int|
            0 <= i < k ==> (#[trigger] shooters[i]).0 != shooter) ==> super::sweep::facts_of(
            shooters,
            shooter,
        ) == shooters[k].1,
        (forall|i: int| 0 <= i < shooters.len() ==> (#[trigger] shooters[i]).0 != shooter)
            ==> super::sweep::facts_of(shooters, shooter) == (ShooterFacts {
            revision: None,
            defeated: None,
        }),
    decreases shooters.len(),
{
    if shooters.len() > 0 && shooters[0].0 != shooter {
        let rest = shooters.subrange(1, shooters.len() as int);
        a_moment_tells_of_its_shooters(rest, shooter, k - 1);
        if forall|i: int| 0 <= i < k ==> (#[trigger] shooters[i]).0 != shooter {
            assert forall|i: int| 0 <= i < k - 1 && i < rest.len() implies (
            #[trigger] rest[i]).0 != shooter by {
                if i + 1 < shooters.len() {
                    assert(rest[i] == shooters[i + 1]);
                }
            }
        }
        if forall|i: int| 0 <= i < shooters.len() ==> (#[trigger] shooters[i]).0 != shooter {
            assert forall|i: int| 0 <= i < rest.len() implies (#[trigger] rest[i]).0
                != shooter by {
                assert(rest[i] == shooters[i + 1]);
            }
        }
    }
}

/// Retries are the same shot exactly where all stamps agree and every control is
/// the same number, whatever the sign of a zero.
pub proof fn a_retry_repeats_the_shot(a: AimedShot, b: AimedShot)
    ensures
        a.same(b) ==> {
            &&& a.shooter == b.shooter
            &&& a.shot_id == b.shot_id
            &&& a.input.input_epoch == b.input.input_epoch
            &&& a.input.sequence == b.input.sequence
            &&& a.input.sampled_time_ns == b.input.sampled_time_ns
            &&& a.input.duration_ticks == b.input.duration_ticks
            &&& a.input.placement_revision == b.input.placement_revision
            &&& (a.timing is Some <==> b.timing is Some)
        },
        a == b && all_finite(a.input.command) && a.timing is None ==> a.same(b),
        a.same(b) <==> b.same(a),
{
    if a.timing is Some && b.timing is Some {
        let x = a.timing->0;
        let y = b.timing->0;
        assert(x.same(y) <==> y.same(x)) by {
            poses_are_the_same_both_ways(x.observed_chassis_pose, y.observed_chassis_pose);
            poses_are_the_same_both_ways(x.observed_muzzle_pose, y.observed_muzzle_pose);
        }
    }
}

/// Being the same view does not depend on the order.
proof fn poses_are_the_same_both_ways(
    a: Option<crate::binary::Pose>,
    b: Option<crate::binary::Pose>,
)
    ensures
        super::shots::same_view(a, b) == super::shots::same_view(b, a),
{
    if a is Some && b is Some {
        let x = a->0;
        let y = b->0;
        if x.same(y) {
            assert forall|i: int| 0 <= i < 3 implies crate::binary::same_number(
                #[trigger] y.translation_m[i],
                x.translation_m[i],
            ) by {
                assert(crate::binary::same_number(x.translation_m[i], y.translation_m[i]));
            }
            assert forall|i: int| 0 <= i < 4 implies crate::binary::same_number(
                #[trigger] y.rotation_wxyz[i],
                x.rotation_wxyz[i],
            ) by {
                assert(crate::binary::same_number(x.rotation_wxyz[i], y.rotation_wxyz[i]));
            }
        }
        if y.same(x) {
            assert forall|i: int| 0 <= i < 3 implies crate::binary::same_number(
                #[trigger] x.translation_m[i],
                y.translation_m[i],
            ) by {
                assert(crate::binary::same_number(y.translation_m[i], x.translation_m[i]));
            }
            assert forall|i: int| 0 <= i < 4 implies crate::binary::same_number(
                #[trigger] x.rotation_wxyz[i],
                y.rotation_wxyz[i],
            ) by {
                assert(crate::binary::same_number(y.rotation_wxyz[i], x.rotation_wxyz[i]));
            }
        }
    }
}

/// Whoever is cancelled hears the reason: the last to be told of is a shot that
/// was refused for it.
proof fn cancelled_shots_hear_why(
    shots: ShotsModel,
    from: nat,
    shooter: Option<u32>,
    reason: ShotRefusal,
    now_ns: u64,
)
    ensures
        ({
            let after = shots.cancelled_from(from, shooter, reason, now_ns);
            after.pending.len() < shots.pending.len() ==> after.completed.len() > 0
                && after.completed.last().result == Err::<u64, ShotRefusal>(reason)
        }),
        shots.cancelled_from(from, shooter, reason, now_ns).pending.len() <= shots.pending.len(),
        shots.cancelled_from(from, shooter, reason, now_ns).pending.len() == shots.pending.len()
            ==> shots.cancelled_from(from, shooter, reason, now_ns) == shots,
    decreases shots.pending.len() - from,
{
    if from < shots.pending.len() {
        if shooter is None || shooter->0 == shots.pending[from as int].shooter {
            let next = shots.finished(from as int, Err(reason), now_ns);
            settled_shots_leave_the_queue(shots, from as int, Err(reason), now_ns);
            cancelled_shots_hear_why(next, from, shooter, reason, now_ns);
        } else {
            cancelled_shots_hear_why(shots, from + 1, shooter, reason, now_ns);
        }
    }
}

/// Shots that a pause cancels are told so, and those of a shooter that left that
/// it disconnected.
pub proof fn cancelled_shots_are_told_why(
    simulation: super::command::SimulationModel,
    paused: bool,
    shooter: u32,
    now_ns: u64,
)
    ensures
        ({
            let shots = simulation.shots;
            let after = simulation.repaused(paused, now_ns).shots;
            let gone = shots.forgotten(shooter, now_ns);
            &&& shots.pending.len() > 0 ==> after.completed.len() > 0
                && after.completed.last().result == Err::<u64, ShotRefusal>(ShotRefusal::Paused)
            &&& gone.pending.len() < shots.pending.len() ==> gone.completed.len() > 0
                && gone.completed.last().result == Err::<u64, ShotRefusal>(
                ShotRefusal::Disconnected,
            )
        }),
{
    let shots = simulation.shots;
    cancelling_empties_the_queue(shots, ShotRefusal::Paused, now_ns);
    cancelled_shots_hear_why(shots, 0, None, ShotRefusal::Paused, now_ns);
    cancelled_shots_hear_why(shots, 0, Some(shooter), ShotRefusal::Disconnected, now_ns);
}

/// A shooter's queued shots are counted, and nobody else's.
pub proof fn queued_shots_are_counted_by_shooter(pending: Seq<AimedShot>, shooter: u32)
    ensures
        count_of(pending, shooter) == pending.filter(
            |shot: AimedShot| shot.shooter == shooter,
        ).len(),
    decreases pending.len(),
{
    reveal(Seq::filter);
    if pending.len() > 0 {
        queued_shots_are_counted_by_shooter(pending.drop_last(), shooter);
    }
}

/// A shot is found in the queue by shooter and number, and its result by number;
/// what is not there is not found.
pub proof fn shots_are_found_by_their_number(
    pending: Seq<AimedShot>,
    results: Seq<ShotResult>,
    shooter: u32,
    shot_id: u64,
)
    ensures
        match pending_shot(pending, shooter, shot_id) {
            Some(shot) => pending.contains(shot) && shot.shooter == shooter && shot.shot_id
                == shot_id,
            None => forall|i: int|
                0 <= i < pending.len() ==> (#[trigger] pending[i]).shooter != shooter
                    || pending[i].shot_id != shot_id,
        },
        match result_in(results, shot_id) {
            Some(result) => results.contains(result) && result.shot_id == shot_id,
            None => forall|i: int|
                0 <= i < results.len() ==> (#[trigger] results[i]).shot_id != shot_id,
        },
    decreases pending.len() + results.len(),
{
    if pending.len() > 0 {
        let rest = pending.subrange(1, pending.len() as int);
        shots_are_found_by_their_number(rest, results, shooter, shot_id);
        match pending_shot(rest, shooter, shot_id) {
            Some(shot) => {
                let i = choose|i: int| 0 <= i < rest.len() && rest[i] == shot;
                assert(pending[i + 1] == shot);
            },
            None => {
                assert forall|i: int| 1 <= i < pending.len() implies (
                #[trigger] pending[i]).shooter != shooter || pending[i].shot_id != shot_id by {
                    assert(rest[i - 1] == pending[i]);
                }
            },
        }
        assert(pending.contains(pending[0]));
    } else if results.len() > 0 {
        let rest = results.subrange(1, results.len() as int);
        shots_are_found_by_their_number(pending, rest, shooter, shot_id);
        match result_in(rest, shot_id) {
            Some(result) => {
                let i = choose|i: int| 0 <= i < rest.len() && rest[i] == result;
                assert(results[i + 1] == result);
            },
            None => {
                assert forall|i: int| 1 <= i < results.len() implies (
                #[trigger] results[i]).shot_id != shot_id by {
                    assert(rest[i - 1] == results[i]);
                }
            },
        }
        assert(results.contains(results[0]));
    }
}

/// What a client saw when it fired is the same where its clocks agree and every
/// pose it saw is the same; a pose seen is never the same as none.
pub proof fn timings_are_compared_whole(
    a: super::shots::FireTiming,
    b: super::shots::FireTiming,
)
    ensures
        a.same(b) ==> {
            &&& a.client_elapsed_ns == b.client_elapsed_ns
            &&& a.estimated_simulation_time_ns == b.estimated_simulation_time_ns
            &&& a.observed_snapshot_time_ns == b.observed_snapshot_time_ns
            &&& (a.observed_chassis_pose is Some <==> b.observed_chassis_pose is Some)
            &&& (a.observed_muzzle_pose is Some <==> b.observed_muzzle_pose is Some)
            &&& a.observed_chassis_pose is Some ==> a.observed_chassis_pose->0.same(
                b.observed_chassis_pose->0,
            )
            &&& a.observed_muzzle_pose is Some ==> a.observed_muzzle_pose->0.same(
                b.observed_muzzle_pose->0,
            )
        },
        a == b && a.observed_chassis_pose is None && a.observed_muzzle_pose is None ==> a.same(b),
{
}

/// A retry is the same shot only with the same sample and the same timing.
pub proof fn a_retry_has_the_same_sample(a: AimedShot, b: AimedShot)
    requires
        a.same(b),
    ensures
        a.input.same(b.input),
        a.timing is Some ==> b.timing is Some && a.timing->0.same(b.timing->0),
{
}

} // verus!

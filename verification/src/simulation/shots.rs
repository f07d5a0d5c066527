//! The shot schedule: admission, queueing, results and the gun's rate.
use crate::binary::Pose;
use crate::field::FieldError;
use crate::input::InputFrame;
use std::collections::BTreeMap;
use vstd::prelude::*;
use vstd::std_specs::cmp::OrdSpec;
use vstd::std_specs::iter::IteratorSpec;

verus! {

broadcast use {vstd::laws_cmp::group_laws_cmp, vstd::std_specs::btree::group_btree_axioms};

/// A shot may arrive this long after its intended time.
pub const LATE_NS: u64 = 250_000_000;

/// A shot may be scheduled this long ahead.
pub const EARLY_NS: u64 = 200_000_000;

/// Shot ids this far behind the newest are stale.
pub const STALE_IDS: u64 = 128;

/// Queued shots per shooter.
pub const SCHEDULE_LIMIT: usize = 32;

/// Results remembered per shooter, and completions kept per shooter.
pub const RESULT_MEMORY: usize = 128;

/// Accepted shots in the journal.
pub const RECORD_MEMORY: usize = 256;

/// Results of each shooter that are published.
pub const PUBLISHED_RESULTS: usize = 32;

/// Client-reported timing kept for diagnostics; firing ignores it.
#[derive(Clone, Copy, Debug, PartialEq, Eq)]
pub struct FireTiming {
    /// The client's own clock.
    pub client_elapsed_ns: u64,
    /// The client's estimate of simulation time.
    pub estimated_simulation_time_ns: u64,
    /// The snapshot the client saw.
    pub observed_snapshot_time_ns: Option<u64>,
    /// The chassis the client saw.
    pub observed_chassis_pose: Option<Pose>,
    /// The muzzle the client saw.
    pub observed_muzzle_pose: Option<Pose>,
}

/// A pilot's intent to fire with its own aim at a time of the pilot's clock.
#[derive(Clone, Copy, Debug, PartialEq, Eq)]
pub struct AimedShot {
    /// Chassis id of the shooter.
    pub shooter: u32,
    /// Id of the shot, counted by the pilot from one.
    pub shot_id: u64,
    /// The input the shot was fired with.
    pub input: InputFrame,
    /// Client-reported timing.
    pub timing: Option<FireTiming>,
}

/// Why a shot did not fire.
#[derive(Clone, Copy, Debug, PartialEq, Eq)]
pub enum ShotRefusal {
    /// Its id is zero or far behind the newest.
    Stale,
    /// There is no such chassis.
    NoChassis,
    /// Its time, life or epoch has passed, or the host is paused.
    Expired,
    /// The shooter has too many queued shots.
    ScheduleFull,
    /// Another shot of the gun is intended within one interval.
    CoolingDown,
    /// A pause came before it.
    Paused,
    /// The shooter left.
    Disconnected,
    /// The field refused it.
    Field(FieldError),
}

impl ShotRefusal {
    /// The words for a refusal; a field's refusal has its own.
    pub open spec fn words(self) -> Option<&'static str> {
        match self {
            ShotRefusal::Stale => Some("shot id is stale"),
            ShotRefusal::NoChassis => Some("no chassis with that id"),
            ShotRefusal::Expired => Some("shot expired or belongs to another life"),
            ShotRefusal::ScheduleFull => Some("shot schedule full"),
            ShotRefusal::CoolingDown => Some("weapon is cooling down"),
            ShotRefusal::Paused => Some("shot cancelled by pause or epoch change"),
            ShotRefusal::Disconnected => Some("shooter disconnected"),
            ShotRefusal::Field(_) => None,
        }
    }

    /// The words for a refusal; a field's refusal has its own.
    pub fn message(&self) -> (r: Option<&'static str>)
        ensures
            r == self.words(),
    {
        match self {
            ShotRefusal::Stale => Some("shot id is stale"),
            ShotRefusal::NoChassis => Some("no chassis with that id"),
            ShotRefusal::Expired => Some("shot expired or belongs to another life"),
            ShotRefusal::ScheduleFull => Some("shot schedule full"),
            ShotRefusal::CoolingDown => Some("weapon is cooling down"),
            ShotRefusal::Paused => Some("shot cancelled by pause or epoch change"),
            ShotRefusal::Disconnected => Some("shooter disconnected"),
            ShotRefusal::Field(_) => None,
        }
    }
}

/// What became of a shot.
#[derive(Clone, Copy, Debug, PartialEq, Eq)]
pub struct ShotResult {
    /// Actual initial speed in m/s, as a binary64 pattern.
    pub launch_speed_m_s: Option<u64>,
    /// Simulation time at which the shot fired.
    pub executed_time_ns: Option<u64>,
    /// Chassis id of the shooter.
    pub shooter: u32,
    /// Id of the shot.
    pub shot_id: u64,
    /// Id of the projectile, or why there is none.
    pub result: Result<u64, ShotRefusal>,
}

/// One accepted shot.
#[derive(Clone, Copy, Debug, PartialEq, Eq)]
pub struct FireRecord {
    /// Actual initial speed in m/s, as a binary64 pattern.
    pub launch_speed_m_s: u64,
    /// Chassis id of the shooter.
    pub shooter: u32,
    /// Id of the projectile.
    pub projectile_id: u64,
    /// Simulation time at which the shot fired.
    pub accepted_time_ns: u64,
    /// Muzzle pose the host fired from.
    pub authoritative_muzzle_pose: Pose,
    /// Client-reported timing.
    pub client_timing: Option<FireTiming>,
}

/// What the field knows of a shooter.
#[derive(Clone, Copy, Debug, PartialEq, Eq, Structural)]
pub struct ShooterFacts {
    /// Placement revision; `None` for an unknown chassis.
    pub revision: Option<u64>,
    /// Whether the robot is defeated; `None` for an unknown chassis.
    pub defeated: Option<bool>,
}

/// One shooter's memory.
#[derive(Clone, Debug, PartialEq, Eq)]
pub struct ShooterLog {
    /// The newest shot id seen.
    pub last_shot_id: Option<u64>,
    /// Recent results, oldest first.
    pub results: Vec<ShotResult>,
    /// Intended times of every shot the gun fired, in the order they fired.
    pub fired_ns: Vec<u64>,
}

/// What a shooter's memory is.
pub ghost struct LogModel {
    pub last_shot_id: Option<u64>,
    pub results: Seq<ShotResult>,
    pub fired_ns: Seq<u64>,
}

impl View for ShooterLog {
    type V = LogModel;

    open spec fn view(&self) -> LogModel {
        LogModel {
            last_shot_id: self.last_shot_id,
            results: self.results@,
            fired_ns: self.fired_ns@,
        }
    }
}

/// The memory of a shooter that was never seen.
pub open spec fn blank_log() -> LogModel {
    LogModel { last_shot_id: None, results: Seq::empty(), fired_ns: Seq::empty() }
}

/// A shooter's memory; blank for one that was never seen.
pub open spec fn log_of(logs: Map<u32, LogModel>, id: u32) -> LogModel {
    if logs.contains_key(id) {
        logs[id]
    } else {
        blank_log()
    }
}

/// A list with one more entry that forgets its oldest beyond `limit`.
pub open spec fn remembering<T>(list: Seq<T>, entry: T, limit: nat) -> Seq<T> {
    if list.len() >= limit {
        list.subrange(1, list.len() as int).push(entry)
    } else {
        list.push(entry)
    }
}

/// Where a queued shot stands: by intended time, then shooter, then id.
pub open spec fn due_before(a: AimedShot, b: AimedShot) -> bool {
    ||| a.input.sampled_time_ns < b.input.sampled_time_ns
    ||| a.input.sampled_time_ns == b.input.sampled_time_ns && a.shooter < b.shooter
    ||| a.input.sampled_time_ns == b.input.sampled_time_ns && a.shooter == b.shooter && a.shot_id
        < b.shot_id
}

/// A queue with one more shot in its place, behind those due no later.
pub open spec fn queued(pending: Seq<AimedShot>, shot: AimedShot) -> Seq<AimedShot>
    decreases pending.len(),
{
    if pending.len() == 0 || !due_before(shot, pending.last()) {
        pending.push(shot)
    } else {
        queued(pending.drop_last(), shot).push(pending.last())
    }
}

/// How many shots a shooter has in a queue.
pub open spec fn count_of(pending: Seq<AimedShot>, shooter: u32) -> nat
    decreases pending.len(),
{
    if pending.len() == 0 {
        0
    } else {
        count_of(pending.drop_last(), shooter) + (if pending.last().shooter == shooter {
            1nat
        } else {
            0
        })
    }
}

/// A queue in order.
pub open spec fn in_order(pending: Seq<AimedShot>) -> bool {
    forall|i: int, j: int|
        0 <= i < j < pending.len() ==> !due_before(
            #[trigger] pending[j],
            #[trigger] pending[i],
        )
}

/// Queueing a shot keeps the order and adds exactly that shot.
pub proof fn queueing_keeps_order(pending: Seq<AimedShot>, shot: AimedShot)
    requires
        in_order(pending),
    ensures
        in_order(queued(pending, shot)),
        queued(pending, shot).to_multiset() == pending.to_multiset().insert(shot),
        forall|shooter: u32| #[trigger]
            count_of(queued(pending, shot), shooter) == count_of(pending, shooter) + (
            if shooter == shot.shooter {
                1nat
            } else {
                0
            }),
        queued(pending, shot).len() == pending.len() + 1,
        forall|i: int|
            0 <= i < queued(pending, shot).len() ==> (#[trigger] queued(pending, shot)[i]) == shot
                || pending.contains(queued(pending, shot)[i]),
    decreases pending.len(),
{
    broadcast use vstd::seq_lib::group_to_multiset_ensures;

    let after = queued(pending, shot);
    if pending.len() == 0 || !due_before(shot, pending.last()) {
        assert(after.drop_last() =~= pending);
        assert forall|i: int, j: int| 0 <= i < j < after.len() implies !due_before(
            #[trigger] after[j],
            #[trigger] after[i],
        ) by {
            if j == pending.len() && i < pending.len() - 1 {
                assert(!due_before(pending[pending.len() - 1], pending[i]));
            }
        }
        assert forall|i: int| 0 <= i < after.len() implies (#[trigger] after[i]) == shot
            || pending.contains(after[i]) by {
            if i < pending.len() {
                assert(pending[i] == after[i]);
            }
        }
    } else {
        let rest = pending.drop_last();
        let last = pending.last();
        queueing_keeps_order(rest, shot);
        let head = queued(rest, shot);
        assert(after.drop_last() =~= head);
        assert forall|shooter: u32| #[trigger]
            count_of(after, shooter) == count_of(pending, shooter) + (if shooter
                == shot.shooter {
                1nat
            } else {
                0
            }) by {
            assert(count_of(head, shooter) == count_of(rest, shooter) + (if shooter
                == shot.shooter {
                1nat
            } else {
                0
            }));
        }
        assert(pending =~= rest.push(last));
        assert(after.to_multiset() =~= pending.to_multiset().insert(shot));
        assert forall|i: int, j: int| 0 <= i < j < after.len() implies !due_before(
            #[trigger] after[j],
            #[trigger] after[i],
        ) by {
            if j == after.len() - 1 {
                assert(head[i] == shot || rest.contains(head[i]));
                if head[i] != shot {
                    let k = choose|k: int| 0 <= k < rest.len() && rest[k] == head[i];
                    assert(!due_before(pending[pending.len() - 1], pending[k]));
                }
            } else {
                assert(head[i] == after[i] && head[j] == after[j]);
            }
        }
        assert forall|i: int| 0 <= i < after.len() implies (#[trigger] after[i]) == shot
            || pending.contains(after[i]) by {
            if i < head.len() {
                assert(after[i] == head[i]);
                if head[i] != shot {
                    let k = choose|k: int| 0 <= k < rest.len() && rest[k] == head[i];
                    assert(pending[k] == after[i]);
                }
            } else {
                assert(pending[pending.len() - 1] == after[i]);
            }
        }
    }
}

/// The shot schedule of a simulation.
#[derive(Clone, Debug, PartialEq, Eq)]
pub struct Shots {
    /// Every shooter's memory, by its chassis id.
    pub logs: BTreeMap<u32, ShooterLog>,
    /// Queued shots, in the order they are due.
    pub pending: Vec<AimedShot>,
    /// Results of queued shots that were not yet taken.
    pub completed: Vec<ShotResult>,
    /// Accepted shots, oldest first.
    pub records: Vec<FireRecord>,
}

/// What a shot schedule is.
pub ghost struct ShotsModel {
    pub logs: Map<u32, LogModel>,
    pub pending: Seq<AimedShot>,
    pub completed: Seq<ShotResult>,
    pub records: Seq<FireRecord>,
}

impl View for Shots {
    type V = ShotsModel;

    open spec fn view(&self) -> ShotsModel {
        ShotsModel {
            logs: self.logs@.map_values(|log: ShooterLog| log@),
            pending: self.pending@,
            completed: self.completed@,
            records: self.records@,
        }
    }
}

/// How many results a shooter has in a list.
pub open spec fn results_of(list: Seq<ShotResult>, shooter: u32) -> nat
    decreases list.len(),
{
    if list.len() == 0 {
        0
    } else {
        results_of(list.drop_last(), shooter) + (if list.last().shooter == shooter {
            1nat
        } else {
            0
        })
    }
}

/// A list without a shooter's first result.
pub open spec fn without_first(list: Seq<ShotResult>, shooter: u32) -> Seq<ShotResult>
    decreases list.len(),
{
    if list.len() == 0 {
        list
    } else if list[0].shooter == shooter {
        list.subrange(1, list.len() as int)
    } else {
        seq![list[0]] + without_first(list.subrange(1, list.len() as int), shooter)
    }
}

/// The speed in the first record of a projectile.
pub open spec fn recorded_speed(records: Seq<FireRecord>, projectile: u64) -> Option<u64>
    decreases records.len(),
{
    if records.len() == 0 {
        None
    } else if records[0].projectile_id == projectile {
        Some(records[0].launch_speed_m_s)
    } else {
        recorded_speed(records.subrange(1, records.len() as int), projectile)
    }
}

/// The first result of a shot.
pub open spec fn result_in(results: Seq<ShotResult>, shot_id: u64) -> Option<ShotResult>
    decreases results.len(),
{
    if results.len() == 0 {
        None
    } else if results[0].shot_id == shot_id {
        Some(results[0])
    } else {
        result_in(results.subrange(1, results.len() as int), shot_id)
    }
}

/// The newer of two ids.
pub open spec fn newest(last: Option<u64>, shot_id: u64) -> u64 {
    match last {
        Some(id) if id > shot_id => id,
        _ => shot_id,
    }
}

/// A queued shot with a shooter's id.
pub open spec fn is_shot(shot: AimedShot, shooter: u32, shot_id: u64) -> bool {
    shot.shooter == shooter && shot.shot_id == shot_id
}

/// The first queued shot with a shooter's id.
pub open spec fn pending_shot(pending: Seq<AimedShot>, shooter: u32, shot_id: u64) -> Option<
    AimedShot,
>
    decreases pending.len(),
{
    if pending.len() == 0 {
        None
    } else if is_shot(pending[0], shooter, shot_id) {
        Some(pending[0])
    } else {
        pending_shot(pending.subrange(1, pending.len() as int), shooter, shot_id)
    }
}

impl ShotsModel {
    /// Memories within their limits, a queue in order with at most so many
    /// shots per shooter, and a bounded journal.
    pub open spec fn wf(self) -> bool {
        &&& forall|id: u32| #[trigger]
            self.logs.contains_key(id) ==> self.logs[id].results.len() <= RESULT_MEMORY
        &&& in_order(self.pending)
        &&& forall|shooter: u32| #[trigger]
            count_of(self.pending, shooter) <= SCHEDULE_LIMIT
        &&& forall|shooter: u32| #[trigger]
            results_of(self.completed, shooter) <= RESULT_MEMORY
        &&& self.records.len() <= RECORD_MEMORY
    }

    /// A shooter's memory.
    pub open spec fn log(self, shooter: u32) -> LogModel {
        log_of(self.logs, shooter)
    }

    /// The entry for a shot's result at a time.
    pub open spec fn entry(
        self,
        shooter: u32,
        shot_id: u64,
        result: Result<u64, ShotRefusal>,
        now_ns: u64,
    ) -> ShotResult {
        ShotResult {
            launch_speed_m_s: match result {
                Ok(projectile) => recorded_speed(self.records, projectile),
                Err(_) => None,
            },
            executed_time_ns: match result {
                Ok(_) => Some(now_ns),
                Err(_) => None,
            },
            shooter,
            shot_id,
            result,
        }
    }

    /// The schedule that remembers a shot's result; a queued shot's result is
    /// also kept for the host.
    pub open spec fn remembered(
        self,
        shooter: u32,
        shot_id: u64,
        result: Result<u64, ShotRefusal>,
        now_ns: u64,
        notify: bool,
    ) -> ShotsModel {
        let log = self.log(shooter);
        let entry = self.entry(shooter, shot_id, result, now_ns);
        let room = if results_of(self.completed, shooter) >= RESULT_MEMORY {
            without_first(self.completed, shooter)
        } else {
            self.completed
        };
        ShotsModel {
            logs: self.logs.insert(
                shooter,
                LogModel {
                    last_shot_id: Some(newest(log.last_shot_id, shot_id)),
                    results: remembering(log.results, entry, RESULT_MEMORY as nat),
                    ..log
                },
            ),
            completed: if notify {
                room.push(entry)
            } else {
                self.completed
            },
            ..self
        }
    }

    /// Why a shot is not admitted now, if it is not.
    pub open spec fn shot_refusal(
        self,
        shot: AimedShot,
        facts: ShooterFacts,
        paused: bool,
        input_epoch: u64,
        now_ns: u64,
    ) -> Option<ShotRefusal> {
        let last = self.log(shot.shooter).last_shot_id;
        if shot.shot_id == 0 || (last is Some && shot.shot_id <= last->0.saturating_sub(
            STALE_IDS,
        )) {
            Some(ShotRefusal::Stale)
        } else {
            match facts.revision {
                None => Some(ShotRefusal::NoChassis),
                Some(revision) => if paused || facts.defeated != Some(false)
                    || shot.input.input_epoch != input_epoch || shot.input.placement_revision
                    != revision || !shot.input.command.finite() || shot.input.sequence == 0
                    || now_ns - shot.input.sampled_time_ns > LATE_NS || shot.input.sampled_time_ns
                    > now_ns.saturating_add(EARLY_NS) {
                    Some(ShotRefusal::Expired)
                } else {
                    None
                },
            }
        }
    }
}

impl Shots {
    /// The schedule's invariant.
    pub open spec fn wf(self) -> bool {
        self@.wf()
    }

    /// An empty schedule.
    pub fn new() -> (r: Shots)
        ensures
            r@ == (ShotsModel {
                logs: Map::empty(),
                pending: Seq::empty(),
                completed: Seq::empty(),
                records: Seq::empty(),
            }),
            r.wf(),
    {
        let r = Shots {
            logs: BTreeMap::new(),
            pending: Vec::new(),
            completed: Vec::new(),
            records: Vec::new(),
        };
        proof {
            assert(r@.logs =~= Map::empty());
        }
        r
    }

    /// Take a shooter's memory out, a blank one if it has none.
    fn take_log(&mut self, shooter: u32) -> (r: ShooterLog)
        ensures
            final(self)@ == (ShotsModel { logs: old(self)@.logs.remove(shooter), ..old(self)@ }),
            r@ == old(self)@.log(shooter),
    {
        let taken = self.logs.remove(&shooter);
        proof {
            assert(self@.logs =~= old(self)@.logs.remove(shooter));
        }
        match taken {
            Some(log) => log,
            None => ShooterLog { last_shot_id: None, results: Vec::new(), fired_ns: Vec::new() },
        }
    }

    /// Put a shooter's memory in.
    fn put_log(&mut self, shooter: u32, log: ShooterLog)
        ensures
            final(self)@ == (ShotsModel {
                logs: old(self)@.logs.insert(shooter, log@),
                ..old(self)@
            }),
    {
        let _ = self.logs.insert(shooter, log);
        proof {
            assert(self@.logs =~= old(self)@.logs.insert(shooter, log@));
        }
    }

    /// The speed in the first record of a projectile.
    fn find_speed(&self, projectile: u64) -> (r: Option<u64>)
        ensures
            r == recorded_speed(self.records@, projectile),
    {
        let mut i: usize = 0;
        proof {
            assert(self.records@.subrange(0, self.records@.len() as int) =~= self.records@);
        }
        while i < self.records.len()
            invariant
                i <= self.records@.len(),
                recorded_speed(self.records@, projectile) == recorded_speed(
                    self.records@.subrange(i as int, self.records@.len() as int),
                    projectile,
                ),
            decreases self.records@.len() - i,
        {
            let ghost rest = self.records@.subrange(i as int, self.records@.len() as int);
            proof {
                assert(rest[0] == self.records@[i as int]);
                assert(rest.subrange(1, rest.len() as int) =~= self.records@.subrange(
                    i + 1,
                    self.records@.len() as int,
                ));
            }
            if self.records[i].projectile_id == projectile {
                return Some(self.records[i].launch_speed_m_s);
            }
            i += 1;
        }
        None
    }

    /// How many untaken results a shooter has.
    fn count_completed(&self, shooter: u32) -> (r: usize)
        ensures
            r == results_of(self.completed@, shooter),
    {
        let mut n: usize = 0;
        let mut i: usize = 0;
        while i < self.completed.len()
            invariant
                i <= self.completed@.len(),
                n <= i,
                n == results_of(self.completed@.subrange(0, i as int), shooter),
            decreases self.completed@.len() - i,
        {
            proof {
                assert(self.completed@.subrange(0, i + 1).drop_last()
                    =~= self.completed@.subrange(0, i as int));
            }
            if self.completed[i].shooter == shooter {
                n += 1;
            }
            i += 1;
        }
        proof {
            assert(self.completed@.subrange(0, i as int) =~= self.completed@);
        }
        n
    }

    /// Forget a shooter's first untaken result.
    fn drop_completed(&mut self, shooter: u32)
        ensures
            final(self)@ == (ShotsModel {
                completed: without_first(old(self)@.completed, shooter),
                ..old(self)@
            }),
    {
        let ghost list = self.completed@;
        let mut i: usize = 0;
        while i < self.completed.len()
            invariant
                i <= self.completed@.len(),
                *self == *old(self),
                list == self.completed@,
                forall|k: int| 0 <= k < i ==> (#[trigger] list[k]).shooter != shooter,
            decreases self.completed@.len() - i,
        {
            if self.completed[i].shooter == shooter {
                proof {
                    first_removed(list, shooter, i as int);
                }
                let _ = self.completed.remove(i);
                return;
            }
            i += 1;
        }
        proof {
            none_removed(list, shooter);
        }
    }

    /// Remember a shot's result; a queued shot's result is also kept for the
    /// host.
    fn remember_shot(
        &mut self,
        shooter: u32,
        shot_id: u64,
        result: Result<u64, ShotRefusal>,
        now_ns: u64,
        notify: bool,
    )
        requires
            old(self).wf(),
        ensures
            final(self)@ == old(self)@.remembered(shooter, shot_id, result, now_ns, notify),
            final(self).wf(),
    {
        let ghost start = self@;
        let launch_speed_m_s = match result {
            Ok(projectile) => self.find_speed(projectile),
            Err(_) => None,
        };
        let executed_time_ns = match result {
            Ok(_) => Some(now_ns),
            Err(_) => None,
        };
        let entry = ShotResult { launch_speed_m_s, executed_time_ns, shooter, shot_id, result };
        let mut log = self.take_log(shooter);
        let ghost was = log@;
        let last: u64 = match log.last_shot_id {
            Some(id) => if id > shot_id {
                id
            } else {
                shot_id
            },
            None => shot_id,
        };
        log.last_shot_id = Some(last);
        if log.results.len() >= RESULT_MEMORY {
            let _ = log.results.remove(0);
        }
        log.results.push(entry);
        let ghost set = LogModel {
            last_shot_id: Some(newest(was.last_shot_id, shot_id)),
            results: remembering(was.results, entry, RESULT_MEMORY as nat),
            ..was
        };
        proof {
            assert(log@.results =~= set.results);
        }
        self.put_log(shooter, log);
        proof {
            assert(self@.logs =~= start.logs.insert(shooter, set));
            assert(set.results.len() <= RESULT_MEMORY);
        }
        if notify {
            let ghost list = self.completed@;
            if self.count_completed(shooter) >= RESULT_MEMORY {
                self.drop_completed(shooter);
            }
            let ghost room = self.completed@;
            self.completed.push(entry);
            proof {
                assert forall|other: u32| #[trigger]
                    results_of(self.completed@, other) <= RESULT_MEMORY by {
                    assert(self.completed@.drop_last() =~= room);
                    count_without_first(list, shooter, other);
                    assert(results_of(list, other) <= RESULT_MEMORY);
                    assert(results_of(list, shooter) <= RESULT_MEMORY);
                }
            }
        }
    }

    /// The recorded result of one shot, while the shooter's last results still
    /// hold it.
    pub fn shot_result(&self, shooter: u32, shot_id: u64) -> (r: Option<ShotResult>)
        requires
            self.wf(),
        ensures
            r == result_in(self@.log(shooter).results, shot_id),
    {
        let results = match self.logs.get(&shooter) {
            Some(log) => &log.results,
            None => {
                return None;
            },
        };
        proof {
            assert(self.logs@.contains_key(shooter));
            assert(self@.logs.contains_key(shooter));
        }
        let mut i: usize = 0;
        proof {
            assert(results@.subrange(0, results@.len() as int) =~= results@);
        }
        while i < results.len()
            invariant
                i <= results@.len(),
                results@ == self@.log(shooter).results,
                result_in(results@, shot_id) == result_in(
                    results@.subrange(i as int, results@.len() as int),
                    shot_id,
                ),
            decreases results@.len() - i,
        {
            let ghost rest = results@.subrange(i as int, results@.len() as int);
            proof {
                assert(rest[0] == results@[i as int]);
                assert(rest.subrange(1, rest.len() as int) =~= results@.subrange(
                    i + 1,
                    results@.len() as int,
                ));
            }
            if results[i].shot_id == shot_id {
                return Some(results[i]);
            }
            i += 1;
        }
        None
    }

    /// Why a shot is not admitted now, if it is not.
    pub fn validate_shot(
        &self,
        shot: &AimedShot,
        facts: ShooterFacts,
        paused: bool,
        input_epoch: u64,
        now_ns: u64,
    ) -> (r: Option<ShotRefusal>)
        requires
            self.wf(),
        ensures
            r == self@.shot_refusal(*shot, facts, paused, input_epoch, now_ns),
    {
        let last = match self.logs.get(&shot.shooter) {
            Some(log) => log.last_shot_id,
            None => None,
        };
        proof {
            assert(self@.logs.contains_key(shot.shooter) == self.logs@.contains_key(shot.shooter));
        }
        let behind = match last {
            Some(id) => shot.shot_id <= id.saturating_sub(STALE_IDS),
            None => false,
        };
        if shot.shot_id == 0 || behind {
            return Some(ShotRefusal::Stale);
        }
        let revision: u64 = match facts.revision {
            Some(revision) => revision,
            None => {
                return Some(ShotRefusal::NoChassis);
            },
        };
        let in_play = match facts.defeated {
            Some(down) => !down,
            None => false,
        };
        let input = &shot.input;
        if paused || !in_play || input.input_epoch != input_epoch || input.placement_revision
            != revision || !input.command.is_finite() || input.sequence == 0
            || now_ns.saturating_sub(input.sampled_time_ns) > LATE_NS || input.sampled_time_ns
            > now_ns.saturating_add(EARLY_NS) {
            return Some(ShotRefusal::Expired);
        }
        None
    }

    /// The queued shot with a shooter's id.
    fn find_pending(&self, shooter: u32, shot_id: u64) -> (r: Option<AimedShot>)
        ensures
            r == pending_shot(self.pending@, shooter, shot_id),
    {
        let mut i: usize = 0;
        proof {
            assert(self.pending@.subrange(0, self.pending@.len() as int) =~= self.pending@);
        }
        while i < self.pending.len()
            invariant
                i <= self.pending@.len(),
                pending_shot(self.pending@, shooter, shot_id) == pending_shot(
                    self.pending@.subrange(i as int, self.pending@.len() as int),
                    shooter,
                    shot_id,
                ),
            decreases self.pending@.len() - i,
        {
            let ghost rest = self.pending@.subrange(i as int, self.pending@.len() as int);
            proof {
                assert(rest[0] == self.pending@[i as int]);
                assert(rest.subrange(1, rest.len() as int) =~= self.pending@.subrange(
                    i + 1,
                    self.pending@.len() as int,
                ));
            }
            if self.pending[i].shooter == shooter && self.pending[i].shot_id == shot_id {
                return Some(self.pending[i]);
            }
            i += 1;
        }
        None
    }

    /// The intended simulation time of a still-queued shot with that id and
    /// shooter.
    pub fn scheduled_shot(&self, shooter: u32, shot_id: u64) -> (r: Option<u64>)
        ensures
            r == (match pending_shot(self@.pending, shooter, shot_id) {
                Some(shot) => Some(shot.input.sampled_time_ns),
                None => None,
            }),
    {
        match self.find_pending(shooter, shot_id) {
            Some(shot) => Some(shot.input.sampled_time_ns),
            None => None,
        }
    }

    /// How many shots a shooter has queued.
    fn count_pending(&self, shooter: u32) -> (r: usize)
        ensures
            r == count_of(self.pending@, shooter),
    {
        let mut n: usize = 0;
        let mut i: usize = 0;
        while i < self.pending.len()
            invariant
                i <= self.pending@.len(),
                n <= i,
                n == count_of(self.pending@.subrange(0, i as int), shooter),
            decreases self.pending@.len() - i,
        {
            proof {
                assert(self.pending@.subrange(0, i + 1).drop_last() =~= self.pending@.subrange(
                    0,
                    i as int,
                ));
            }
            if self.pending[i].shooter == shooter {
                n += 1;
            }
            i += 1;
        }
        proof {
            assert(self.pending@.subrange(0, i as int) =~= self.pending@);
        }
        n
    }

    /// Queue a shot in its place.
    fn enqueue(&mut self, shot: AimedShot)
        requires
            old(self).wf(),
            count_of(old(self)@.pending, shot.shooter) < SCHEDULE_LIMIT,
        ensures
            final(self)@ == (ShotsModel {
                pending: queued(old(self)@.pending, shot),
                ..old(self)@
            }),
            final(self).wf(),
    {
        let ghost start = self@;
        let mut i: usize = self.pending.len();
        while i > 0 && is_due_before(&shot, &self.pending[i - 1])
            invariant
                i <= self.pending@.len(),
                *self == *old(self),
                forall|k: int|
                    i <= k < self.pending@.len() ==> due_before(shot, #[trigger] self.pending@[k]),
            decreases i,
        {
            i -= 1;
        }
        proof {
            queued_at(start.pending, shot, i as int);
            queueing_keeps_order(start.pending, shot);
            assert forall|shooter: u32| #[trigger]
                count_of(queued(start.pending, shot), shooter) <= SCHEDULE_LIMIT by {
                assert(count_of(start.pending, shooter) <= SCHEDULE_LIMIT);
            }
        }
        self.pending.insert(i, shot);
    }

    /// Deal with a shot intent that arrives: a shot whose result is known is
    /// answered again, one that is queued is accepted again unless its
    /// contents changed, one that is not valid is refused and remembered, one
    /// ahead of its time is queued, and any other fires now.
    pub fn take_in(
        &mut self,
        shot: AimedShot,
        facts: ShooterFacts,
        paused: bool,
        input_epoch: u64,
        now_ns: u64,
    ) -> (r: Admission)
        requires
            old(self).wf(),
        ensures
            (final(self)@, r) == old(self)@.admitted(shot, facts, paused, input_epoch, now_ns),
            final(self).wf(),
    {
        if let Some(previous) = self.shot_result(shot.shooter, shot.shot_id) {
            return Admission::Known(
                match previous.result {
                    Ok(_) => Ok(()),
                    Err(reason) => Err(reason),
                },
            );
        }
        if let Some(previous) = self.find_pending(shot.shooter, shot.shot_id) {
            return if same_shot(&previous, &shot) {
                Admission::Scheduled
            } else {
                Admission::Changed
            };
        }
        if let Some(reason) = self.validate_shot(&shot, facts, paused, input_epoch, now_ns) {
            self.remember_shot(shot.shooter, shot.shot_id, Err(reason), now_ns, false);
            return Admission::Refused(reason);
        }
        if shot.input.sampled_time_ns > now_ns {
            if self.count_pending(shot.shooter) >= SCHEDULE_LIMIT {
                let reason = ShotRefusal::ScheduleFull;
                self.remember_shot(shot.shooter, shot.shot_id, Err(reason), now_ns, false);
                return Admission::Refused(reason);
            }
            self.enqueue(shot);
            return Admission::Scheduled;
        }
        Admission::Fire
    }

    /// Remember what became of an admitted shot that fired now.
    pub fn settle(&mut self, shot: &AimedShot, result: Result<u64, ShotRefusal>, now_ns: u64)
        requires
            old(self).wf(),
        ensures
            final(self)@ == old(self)@.remembered(
                shot.shooter,
                shot.shot_id,
                result,
                now_ns,
                false,
            ),
            final(self).wf(),
    {
        self.remember_shot(shot.shooter, shot.shot_id, result, now_ns, false);
    }

    /// What to do with the queued shot at `index`: one that is no longer valid
    /// is dropped, one that is due fires, any other waits. `facts` are those
    /// of its shooter.
    pub fn due(
        &self,
        index: usize,
        facts: ShooterFacts,
        paused: bool,
        input_epoch: u64,
        now_ns: u64,
    ) -> (r: Due)
        requires
            self.wf(),
        ensures
            r == self@.due_action(index as int, facts, paused, input_epoch, now_ns),
    {
        if index >= self.pending.len() {
            return Due::End;
        }
        let shot = self.pending[index];
        match self.validate_shot(&shot, facts, paused, input_epoch, now_ns) {
            Some(reason) => Due::Drop(reason),
            None => if shot.input.sampled_time_ns <= now_ns {
                Due::Fire(shot)
            } else {
                Due::Wait
            },
        }
    }

    /// Take the queued shot at `index` and remember what became of it.
    pub fn finish(&mut self, index: usize, result: Result<u64, ShotRefusal>, now_ns: u64)
        requires
            old(self).wf(),
            index < old(self)@.pending.len(),
        ensures
            final(self)@ == old(self)@.finished(index as int, result, now_ns),
            final(self).wf(),
    {
        let ghost start = self@;
        let shot = self.pending.remove(index);
        proof {
            assert forall|shooter: u32| #[trigger]
                results_of(self@.completed, shooter) <= RESULT_MEMORY by {
                assert(results_of(start.completed, shooter) <= RESULT_MEMORY);
            }
            removal_keeps_order(start.pending, index as int);
            assert forall|shooter: u32| #[trigger]
                count_of(self@.pending, shooter) <= SCHEDULE_LIMIT by {
                count_without(start.pending, index as int, shooter);
                assert(count_of(start.pending, shooter) <= SCHEDULE_LIMIT);
            }
        }
        self.remember_shot(shot.shooter, shot.shot_id, result, now_ns, true);
    }

    /// Cancel every queued shot, or one shooter's.
    pub fn cancel_pending_shots(
        &mut self,
        shooter: Option<u32>,
        reason: ShotRefusal,
        now_ns: u64,
    )
        requires
            old(self).wf(),
        ensures
            final(self)@ == old(self)@.cancelled(shooter, reason, now_ns),
            final(self).wf(),
    {
        let ghost start = self@;
        let mut i: usize = 0;
        proof {
            assert(start.pending.subrange(0, start.pending.len() as int) =~= start.pending);
        }
        while i < self.pending.len()
            invariant
                i <= self.pending@.len(),
                self.wf(),
                self@.cancelled_from(i as nat, shooter, reason, now_ns) == start.cancelled(
                    shooter,
                    reason,
                    now_ns,
                ),
            decreases self.pending@.len() - i,
        {
            let mine = match shooter {
                Some(id) => id == self.pending[i].shooter,
                None => true,
            };
            if mine {
                self.finish(i, Err(reason), now_ns);
            } else {
                i += 1;
            }
        }
    }

    /// Whether a gun may fire for an intended time: no shot that it fired was
    /// intended within one interval of it.
    pub fn may_fire(&self, shooter: u32, intended_ns: u64, interval_ns: u64) -> (r: bool)
        requires
            self.wf(),
        ensures
            r == spaced(self@.log(shooter).fired_ns, intended_ns, interval_ns),
    {
        proof {
            assert(self@.logs.contains_key(shooter) == self.logs@.contains_key(shooter));
        }
        let fired = match self.logs.get(&shooter) {
            Some(log) => &log.fired_ns,
            None => {
                return true;
            },
        };
        let mut i: usize = 0;
        while i < fired.len()
            invariant
                i <= fired@.len(),
                fired@ == self@.log(shooter).fired_ns,
                forall|k: int|
                    0 <= k < i ==> apart(#[trigger] fired@[k], intended_ns) >= interval_ns,
            decreases fired@.len() - i,
        {
            let gap: u64 = if fired[i] > intended_ns {
                fired[i] - intended_ns
            } else {
                intended_ns - fired[i]
            };
            if gap < interval_ns {
                proof {
                    assert(apart(fired@[i as int], intended_ns) < interval_ns);
                }
                return false;
            }
            i += 1;
        }
        true
    }

    /// Note a shot that the field accepted, with its intended time.
    pub fn note_fired(&mut self, record: FireRecord, intended_ns: u64)
        requires
            old(self).wf(),
        ensures
            final(self)@ == old(self)@.noted(record, intended_ns),
            final(self).wf(),
    {
        let ghost start = self@;
        if self.records.len() >= RECORD_MEMORY {
            let _ = self.records.remove(0);
        }
        self.records.push(record);
        proof {
            assert(self@.records =~= remembering(
                start.records,
                record,
                RECORD_MEMORY as nat,
            ));
            assert forall|shooter: u32| #[trigger]
                results_of(self@.completed, shooter) <= RESULT_MEMORY by {
                assert(results_of(start.completed, shooter) <= RESULT_MEMORY);
            }
            assert forall|shooter: u32| #[trigger]
                count_of(self@.pending, shooter) <= SCHEDULE_LIMIT by {
                assert(count_of(start.pending, shooter) <= SCHEDULE_LIMIT);
            }
        }
        let mut log = self.take_log(record.shooter);
        let ghost was = log@;
        log.fired_ns.push(intended_ns);
        self.put_log(record.shooter, log);
        proof {
            let set = LogModel { fired_ns: was.fired_ns.push(intended_ns), ..was };
            assert(self@.logs =~= start.logs.insert(record.shooter, set));
            assert(set.results.len() <= RESULT_MEMORY);
        }
    }

    /// Remove and return the results completed since the last call, in
    /// completion order.
    pub fn take_completed_shots(&mut self) -> (r: Vec<ShotResult>)
        requires
            old(self).wf(),
        ensures
            r@ == old(self)@.completed,
            final(self)@ == (ShotsModel { completed: Seq::empty(), ..old(self)@ }),
            final(self).wf(),
    {
        let mut out: Vec<ShotResult> = Vec::new();
        out.append(&mut self.completed);
        proof {
            assert(out@ =~= old(self)@.completed);
            assert forall|shooter: u32| #[trigger]
                count_of(self@.pending, shooter) <= SCHEDULE_LIMIT by {
                assert(count_of(old(self)@.pending, shooter) <= SCHEDULE_LIMIT);
            }
        }
        out
    }

    /// Forget a shooter that leaves: its queued shots are cancelled, its
    /// memory goes.
    pub fn forget(&mut self, shooter: u32, now_ns: u64)
        requires
            old(self).wf(),
        ensures
            final(self)@ == old(self)@.forgotten(shooter, now_ns),
            final(self).wf(),
    {
        self.cancel_pending_shots(Some(shooter), ShotRefusal::Disconnected, now_ns);
        let ghost cancelled = self@;
        let _ = self.logs.remove(&shooter);
        proof {
            assert(self@.logs =~= cancelled.logs.remove(shooter));
            assert forall|id: u32| #[trigger]
                self@.logs.contains_key(id) implies self@.logs[id].results.len()
                <= RESULT_MEMORY by {
                assert(cancelled.logs.contains_key(id));
            }
            assert forall|other: u32| #[trigger]
                results_of(self@.completed, other) <= RESULT_MEMORY by {
                assert(results_of(cancelled.completed, other) <= RESULT_MEMORY);
            }
            assert forall|other: u32| #[trigger]
                count_of(self@.pending, other) <= SCHEDULE_LIMIT by {
                assert(count_of(cancelled.pending, other) <= SCHEDULE_LIMIT);
            }
        }
    }

    /// Each shooter's newest results, newest first, by ascending shooter.
    pub fn published_results(&self) -> (r: Vec<ShotResult>)
        ensures
            exists|ids: Seq<u32>|
                ids.to_set() == self@.logs.dom() && rising(ids) && r@ == #[trigger] published(
                    self@.logs,
                    ids,
                ),
    {
        let mut out: Vec<ShotResult> = Vec::new();
        let keys = self.logs.keys();
        let ghost all = keys.remaining();
        proof {
            assert(self@.logs.dom() =~= self.logs@.dom());
            increasing_is_rising(all);
            assert(all.unref().take(0) =~= Seq::empty());
        }
        for id in it: keys
            invariant
                it.seq() == all,
                all.unref().to_set() == self.logs@.dom(),
                out@ == published(self@.logs, all.unref().take(it.index@ as int)),
        {
            let ghost seen = all.unref().take(it.index@ as int);
            let ghost more = all.unref().take(it.index@ + 1);
            proof {
                assert(more.drop_last() =~= seen);
                assert(more.last() == *id);
                assert(all.unref()[it.index@ as int] == *id);
                assert(all.unref().to_set().contains(*id));
                assert(self@.logs.contains_key(*id));
            }
            if let Some(log) = self.logs.get(id) {
                append_newest(&mut out, &log.results);
            }
        }
        proof {
            assert(all.unref().take(all.len() as int) =~= all.unref());
        }
        out
    }
}

/// Append a shooter's newest results, newest first.
fn append_newest(out: &mut Vec<ShotResult>, results: &Vec<ShotResult>)
    ensures
        final(out)@ == old(out)@ + newest_first(results@),
{
    let ghost head = out@;
    let n: usize = if results.len() < PUBLISHED_RESULTS {
        results.len()
    } else {
        PUBLISHED_RESULTS
    };
    let mut k: usize = 0;
    proof {
        assert(out@ =~= head + Seq::new(0, |j: int| results@[results@.len() - 1 - j]));
    }
    while k < n
        invariant
            k <= n <= results@.len(),
            out@ == head + Seq::new(k as nat, |j: int| results@[results@.len() - 1 - j]),
        decreases n - k,
    {
        out.push(results[results.len() - 1 - k]);
        k += 1;
        proof {
            assert(out@ =~= head + Seq::new(k as nat, |j: int| results@[results@.len() - 1 - j]));
        }
    }
    proof {
        assert(Seq::new(k as nat, |j: int| results@[results@.len() - 1 - j]) =~= newest_first(
            results@,
        ));
    }
}

/// Ids in ascending order, each once.
pub open spec fn rising(ids: Seq<u32>) -> bool {
    forall|i: int, j: int| 0 <= i < j < ids.len() ==> #[trigger] ids[i] < #[trigger] ids[j]
}

/// Ids in increasing order, each below those after it.
pub(super) proof fn increasing_is_rising(ids: Seq<&u32>)
    requires
        vstd::std_specs::btree::increasing_seq(ids),
    ensures
        rising(ids.unref()),
{
    assert(vstd::laws_cmp::obeys_cmp::<&u32>());
    assert forall|i: int, j: int| 0 <= i < j < ids.len() implies *ids[i] < *ids[j] by {
        assert(OrdSpec::cmp_spec(&ids[i], &ids[j]) is Less);
    }
}

/// A shooter's newest results, newest first.
pub open spec fn newest_first(results: Seq<ShotResult>) -> Seq<ShotResult> {
    Seq::new(
        if results.len() < PUBLISHED_RESULTS {
            results.len()
        } else {
            PUBLISHED_RESULTS as nat
        },
        |j: int| results[results.len() - 1 - j],
    )
}

/// The newest results of shooters, one after the other.
pub open spec fn published(logs: Map<u32, LogModel>, ids: Seq<u32>) -> Seq<ShotResult>
    decreases ids.len(),
{
    if ids.len() == 0 {
        Seq::empty()
    } else {
        published(logs, ids.drop_last()) + newest_first(log_of(logs, ids.last()).results)
    }
}

/// How far two times are apart.
pub open spec fn apart(a: u64, b: u64) -> int {
    if a > b {
        a - b
    } else {
        b - a
    }
}

/// A time is at least an interval from each of some others.
pub open spec fn spaced(fired_ns: Seq<u64>, intended_ns: u64, interval_ns: u64) -> bool {
    forall|i: int|
        0 <= i < fired_ns.len() ==> apart(#[trigger] fired_ns[i], intended_ns) >= interval_ns
}

impl ShotsModel {
    /// The schedule that noted an accepted shot.
    pub open spec fn noted(self, record: FireRecord, intended_ns: u64) -> ShotsModel {
        let log = self.log(record.shooter);
        ShotsModel {
            records: remembering(self.records, record, RECORD_MEMORY as nat),
            logs: self.logs.insert(
                record.shooter,
                LogModel { fired_ns: log.fired_ns.push(intended_ns), ..log },
            ),
            ..self
        }
    }

    /// The schedule without a shooter that left.
    pub open spec fn forgotten(self, shooter: u32, now_ns: u64) -> ShotsModel {
        let cancelled = self.cancelled(Some(shooter), ShotRefusal::Disconnected, now_ns);
        ShotsModel { logs: cancelled.logs.remove(shooter), ..cancelled }
    }
}

/// What comes of a shot intent that arrives.
#[derive(Clone, Copy, Debug, PartialEq, Eq)]
pub enum Admission {
    /// Its result is known already.
    Known(Result<(), ShotRefusal>),
    /// It is queued.
    Scheduled,
    /// A queued shot has its id and other contents.
    Changed,
    /// It is refused.
    Refused(ShotRefusal),
    /// It fires now.
    Fire,
}

/// What to do with a queued shot.
#[derive(Clone, Copy, Debug, PartialEq, Eq)]
pub enum Due {
    /// There is none.
    End,
    /// Leave it queued.
    Wait,
    /// Drop it.
    Drop(ShotRefusal),
    /// Fire it.
    Fire(AimedShot),
}

impl ShotsModel {
    /// What a shot intent does and is answered.
    pub open spec fn admitted(
        self,
        shot: AimedShot,
        facts: ShooterFacts,
        paused: bool,
        input_epoch: u64,
        now_ns: u64,
    ) -> (ShotsModel, Admission) {
        match result_in(self.log(shot.shooter).results, shot.shot_id) {
            Some(previous) => (
                self,
                Admission::Known(
                    match previous.result {
                        Ok(_) => Ok(()),
                        Err(reason) => Err(reason),
                    },
                ),
            ),
            None => match pending_shot(self.pending, shot.shooter, shot.shot_id) {
                Some(previous) => (
                    self,
                    if previous.same(shot) {
                        Admission::Scheduled
                    } else {
                        Admission::Changed
                    },
                ),
                None => match self.shot_refusal(shot, facts, paused, input_epoch, now_ns) {
                    Some(reason) => (
                        self.remembered(shot.shooter, shot.shot_id, Err(reason), now_ns, false),
                        Admission::Refused(reason),
                    ),
                    None => if shot.input.sampled_time_ns > now_ns {
                        if count_of(self.pending, shot.shooter) >= SCHEDULE_LIMIT {
                            let reason = ShotRefusal::ScheduleFull;
                            (
                                self.remembered(
                                    shot.shooter,
                                    shot.shot_id,
                                    Err(reason),
                                    now_ns,
                                    false,
                                ),
                                Admission::Refused(reason),
                            )
                        } else {
                            (
                                ShotsModel { pending: queued(self.pending, shot), ..self },
                                Admission::Scheduled,
                            )
                        }
                    } else {
                        (self, Admission::Fire)
                    },
                },
            },
        }
    }

    /// What to do with a queued shot.
    pub open spec fn due_action(
        self,
        index: int,
        facts: ShooterFacts,
        paused: bool,
        input_epoch: u64,
        now_ns: u64,
    ) -> Due {
        if index >= self.pending.len() {
            Due::End
        } else {
            let shot = self.pending[index];
            match self.shot_refusal(shot, facts, paused, input_epoch, now_ns) {
                Some(reason) => Due::Drop(reason),
                None => if shot.input.sampled_time_ns <= now_ns {
                    Due::Fire(shot)
                } else {
                    Due::Wait
                },
            }
        }
    }

    /// The schedule without a queued shot, whose result it remembers.
    pub open spec fn finished(self, index: int, result: Result<u64, ShotRefusal>, now_ns: u64) -> ShotsModel {
        let shot = self.pending[index];
        (ShotsModel { pending: self.pending.remove(index), ..self }).remembered(
            shot.shooter,
            shot.shot_id,
            result,
            now_ns,
            true,
        )
    }

    /// The schedule with queued shots from `from` on cancelled, in order.
    pub open spec fn cancelled_from(
        self,
        from: nat,
        shooter: Option<u32>,
        reason: ShotRefusal,
        now_ns: u64,
    ) -> ShotsModel
        decreases self.pending.len() - from,
    {
        if from >= self.pending.len() {
            self
        } else if shooter is None || shooter->0 == self.pending[from as int].shooter {
            self.finished(from as int, Err(reason), now_ns).cancelled_from(
                from,
                shooter,
                reason,
                now_ns,
            )
        } else {
            self.cancelled_from(from + 1, shooter, reason, now_ns)
        }
    }

    /// The schedule with every queued shot cancelled, or one shooter's.
    pub open spec fn cancelled(
        self,
        shooter: Option<u32>,
        reason: ShotRefusal,
        now_ns: u64,
    ) -> ShotsModel {
        self.cancelled_from(0, shooter, reason, now_ns)
    }
}

/// Whether a shot is due before another.
fn is_due_before(a: &AimedShot, b: &AimedShot) -> (r: bool)
    ensures
        r == due_before(*a, *b),
{
    let x: u64 = a.input.sampled_time_ns;
    let y: u64 = b.input.sampled_time_ns;
    x < y || (x == y && (a.shooter < b.shooter || (a.shooter == b.shooter && a.shot_id
        < b.shot_id)))
}

/// Two poses that may be missing are the same.
pub open spec fn same_view(a: Option<Pose>, b: Option<Pose>) -> bool {
    match (a, b) {
        (None, None) => true,
        (Some(x), Some(y)) => x.same(y),
        _ => false,
    }
}

/// Whether two poses that may be missing are the same.
fn is_same_view(a: &Option<Pose>, b: &Option<Pose>) -> (r: bool)
    ensures
        r == same_view(*a, *b),
{
    match (a, b) {
        (None, None) => true,
        (Some(x), Some(y)) => x.is_same(y),
        _ => false,
    }
}

impl FireTiming {
    /// The same stamps, and poses that are the same.
    pub open spec fn same(self, other: FireTiming) -> bool {
        &&& self.client_elapsed_ns == other.client_elapsed_ns
        &&& self.estimated_simulation_time_ns == other.estimated_simulation_time_ns
        &&& self.observed_snapshot_time_ns == other.observed_snapshot_time_ns
        &&& same_view(self.observed_chassis_pose, other.observed_chassis_pose)
        &&& same_view(self.observed_muzzle_pose, other.observed_muzzle_pose)
    }
}

impl AimedShot {
    /// The same contents: real numbers are compared as numbers.
    pub open spec fn same(self, other: AimedShot) -> bool {
        &&& self.shooter == other.shooter
        &&& self.shot_id == other.shot_id
        &&& self.input.same(other.input)
        &&& match (self.timing, other.timing) {
            (None, None) => true,
            (Some(x), Some(y)) => x.same(y),
            _ => false,
        }
    }
}

/// Whether two shots have the same contents.
fn same_shot(a: &AimedShot, b: &AimedShot) -> (r: bool)
    ensures
        r == a.same(*b),
{
    if a.shooter != b.shooter || a.shot_id != b.shot_id || !a.input.is_same(&b.input) {
        return false;
    }
    match (&a.timing, &b.timing) {
        (None, None) => true,
        (Some(x), Some(y)) => x.client_elapsed_ns == y.client_elapsed_ns
            && x.estimated_simulation_time_ns == y.estimated_simulation_time_ns && match (
            x.observed_snapshot_time_ns,
            y.observed_snapshot_time_ns,
        ) {
            (None, None) => true,
            (Some(s), Some(t)) => s == t,
            _ => false,
        } && is_same_view(&x.observed_chassis_pose, &y.observed_chassis_pose) && is_same_view(
            &x.observed_muzzle_pose,
            &y.observed_muzzle_pose,
        ),
        _ => false,
    }
}

/// A shot put before those it is due before is in its place.
proof fn queued_at(pending: Seq<AimedShot>, shot: AimedShot, i: int)
    requires
        0 <= i <= pending.len(),
        forall|k: int| i <= k < pending.len() ==> due_before(shot, #[trigger] pending[k]),
        i > 0 ==> !due_before(shot, pending[i - 1]),
    ensures
        queued(pending, shot) == pending.insert(i, shot),
    decreases pending.len(),
{
    if i == pending.len() {
        assert(queued(pending, shot) =~= pending.insert(i, shot));
    } else {
        assert(pending.last() == pending[pending.len() - 1]);
        queued_at(pending.drop_last(), shot, i);
        assert(queued(pending, shot) =~= pending.insert(i, shot));
    }
}

/// A queue without one shot is still in order.
proof fn removal_keeps_order(pending: Seq<AimedShot>, index: int)
    requires
        in_order(pending),
        0 <= index < pending.len(),
    ensures
        in_order(pending.remove(index)),
{
    let after = pending.remove(index);
    assert forall|i: int, j: int| 0 <= i < j < after.len() implies !due_before(
        #[trigger] after[j],
        #[trigger] after[i],
    ) by {
        let a = if i < index {
            i
        } else {
            i + 1
        };
        let b = if j < index {
            j
        } else {
            j + 1
        };
        assert(!due_before(pending[b], pending[a]));
    }
}

/// A queue without one shot holds no more of anybody's.
proof fn count_without(pending: Seq<AimedShot>, index: int, shooter: u32)
    requires
        0 <= index < pending.len(),
    ensures
        count_of(pending.remove(index), shooter) <= count_of(pending, shooter),
    decreases pending.len(),
{
    let after = pending.remove(index);
    if index == pending.len() - 1 {
        assert(after =~= pending.drop_last());
    } else {
        count_without(pending.drop_last(), index, shooter);
        assert(after.drop_last() =~= pending.drop_last().remove(index));
        assert(after.last() == pending.last());
    }
}

/// The list without a shooter's first result is the list without that place.
proof fn first_removed(list: Seq<ShotResult>, shooter: u32, i: int)
    requires
        0 <= i < list.len(),
        list[i].shooter == shooter,
        forall|k: int| 0 <= k < i ==> (#[trigger] list[k]).shooter != shooter,
    ensures
        without_first(list, shooter) == list.remove(i),
    decreases list.len(),
{
    if i == 0 {
        assert(without_first(list, shooter) =~= list.remove(0));
    } else {
        let rest = list.subrange(1, list.len() as int);
        first_removed(rest, shooter, i - 1);
        assert(without_first(list, shooter) =~= list.remove(i));
    }
}

/// A list without any result of a shooter stays.
proof fn none_removed(list: Seq<ShotResult>, shooter: u32)
    requires
        forall|k: int| 0 <= k < list.len() ==> (#[trigger] list[k]).shooter != shooter,
    ensures
        without_first(list, shooter) == list,
    decreases list.len(),
{
    if list.len() > 0 {
        none_removed(list.subrange(1, list.len() as int), shooter);
        assert(without_first(list, shooter) =~= list);
    }
}

/// Results counted from the front are counted the same.
proof fn results_from_front(list: Seq<ShotResult>, shooter: u32)
    requires
        list.len() > 0,
    ensures
        results_of(list, shooter) == results_of(list.subrange(1, list.len() as int), shooter) + (
        if list[0].shooter == shooter {
            1nat
        } else {
            0
        }),
    decreases list.len(),
{
    let rest = list.subrange(1, list.len() as int);
    reveal_with_fuel(results_of, 2);
    if list.len() > 1 {
        results_from_front(list.drop_last(), shooter);
        assert(rest.drop_last() =~= list.drop_last().subrange(1, list.len() - 1));
    } else {
        assert(list.drop_last() =~= Seq::empty());
    }
}

/// Taking a shooter's first result takes one of its results, if it has any,
/// and none of another's.
proof fn count_without_first(list: Seq<ShotResult>, shooter: u32, other: u32)
    ensures
        results_of(without_first(list, shooter), other) == (if other == shooter && results_of(
            list,
            shooter,
        ) > 0 {
            (results_of(list, other) - 1) as nat
        } else {
            results_of(list, other)
        }),
    decreases list.len(),
{
    if list.len() > 0 {
        let rest = list.subrange(1, list.len() as int);
        results_from_front(list, other);
        results_from_front(list, shooter);
        if list[0].shooter != shooter {
            count_without_first(rest, shooter, other);
            let after = without_first(list, shooter);
            results_from_front(after, other);
            assert(after.subrange(1, after.len() as int) =~= without_first(rest, shooter));
        }
    }
}

} // verus!

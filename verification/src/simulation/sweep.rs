//! The queued shots of one tick: those that are no longer valid are dropped,
//! those that are due fire one by one, the others wait.
use super::shots::{AimedShot, Due, ShooterFacts, ShotRefusal, Shots, ShotsModel};
use vstd::prelude::*;

verus! {

/// What a tick knows of the shooters and of itself.
#[derive(Clone, Debug, PartialEq, Eq)]
pub struct Moment {
    /// What the field knows of each shooter with a queued shot.
    pub shooters: Vec<(u32, ShooterFacts)>,
    /// The host is paused.
    pub paused: bool,
    /// The current input epoch.
    pub input_epoch: u64,
    /// The field's time.
    pub now_ns: u64,
}

/// What is known of a chassis that is not on the field.
pub open spec fn unknown() -> ShooterFacts {
    ShooterFacts { revision: None, defeated: None }
}

/// What is known of a shooter.
pub open spec fn facts_of(shooters: Seq<(u32, ShooterFacts)>, shooter: u32) -> ShooterFacts
    decreases shooters.len(),
{
    if shooters.len() == 0 {
        unknown()
    } else if shooters[0].0 == shooter {
        shooters[0].1
    } else {
        facts_of(shooters.subrange(1, shooters.len() as int), shooter)
    }
}

impl Moment {
    /// What is known of a shooter.
    fn facts(&self, shooter: u32) -> (r: ShooterFacts)
        ensures
            r == facts_of(self.shooters@, shooter),
    {
        let mut i: usize = 0;
        proof {
            assert(self.shooters@.subrange(0, self.shooters@.len() as int) =~= self.shooters@);
        }
        while i < self.shooters.len()
            invariant
                i <= self.shooters@.len(),
                facts_of(self.shooters@, shooter) == facts_of(
                    self.shooters@.subrange(i as int, self.shooters@.len() as int),
                    shooter,
                ),
            decreases self.shooters@.len() - i,
        {
            let ghost rest = self.shooters@.subrange(i as int, self.shooters@.len() as int);
            proof {
                assert(rest[0] == self.shooters@[i as int]);
                assert(rest.subrange(1, rest.len() as int) =~= self.shooters@.subrange(
                    i + 1,
                    self.shooters@.len() as int,
                ));
            }
            let known = self.shooters[i];
            if known.0 == shooter {
                return known.1;
            }
            i += 1;
        }
        ShooterFacts { revision: None, defeated: None }
    }
}

/// A sweep as far as the next shot that fires.
pub ghost struct Swept {
    pub shots: ShotsModel,
    pub index: nat,
    pub fires: Option<AimedShot>,
}

impl ShotsModel {
    /// What a tick does with the queued shot at a place.
    pub open spec fn due_at(self, index: nat, moment: Moment) -> Due {
        self.due_action(
            index as int,
            facts_of(moment.shooters@, self.pending[index as int].shooter),
            moment.paused,
            moment.input_epoch,
            moment.now_ns,
        )
    }

    /// The queued shots from a place on, as far as the next that fires.
    pub open spec fn swept(self, index: nat, moment: Moment) -> Swept
        decreases self.pending.len() - index,
    {
        if index >= self.pending.len() {
            Swept { shots: self, index, fires: None }
        } else {
            match self.due_at(index, moment) {
                Due::Drop(reason) => self.finished(
                    index as int,
                    Err(reason),
                    moment.now_ns,
                ).swept(index, moment),
                Due::Fire(shot) => Swept { shots: self, index, fires: Some(shot) },
                _ => self.swept(index + 1, moment),
            }
        }
    }

    /// Every queued shot before a place lies in the future.
    pub open spec fn ahead_before(self, index: nat, now_ns: u64) -> bool {
        forall|i: int|
            0 <= i < index && i < self.pending.len() ==> (
            #[trigger] self.pending[i]).input.sampled_time_ns > now_ns
    }

    /// A sweep leaves only shots of the future behind it: once it has come to
    /// the end, nothing that is due is still queued.
    pub proof fn sweeps_leave_the_future(self, index: nat, moment: Moment)
        requires
            self.ahead_before(index, moment.now_ns),
        ensures
            ({
                let after = self.swept(index, moment);
                &&& after.shots.ahead_before(after.index, moment.now_ns)
                &&& after.fires is None ==> after.shots.ahead_before(
                    after.shots.pending.len(),
                    moment.now_ns,
                )
                &&& after.fires is Some ==> after.index < after.shots.pending.len()
                    && after.shots.pending[after.index as int] == after.fires->0
            }),
        decreases self.pending.len() - index,
    {
        if index < self.pending.len() {
            match self.due_at(index, moment) {
                Due::Drop(reason) => {
                    let next = self.finished(index as int, Err(reason), moment.now_ns);
                    assert(next.pending == self.pending.remove(index as int));
                    next.sweeps_leave_the_future(index, moment);
                },
                Due::Fire(shot) => {},
                _ => {
                    self.sweeps_leave_the_future(index + 1, moment);
                },
            }
        }
    }

    /// Taking a fired shot out keeps everything before it in the future, so the
    /// sweep goes on from the same place.
    pub proof fn firing_keeps_the_future(
        self,
        index: nat,
        result: Result<u64, ShotRefusal>,
        now_ns: u64,
    )
        requires
            index < self.pending.len(),
            self.ahead_before(index, now_ns),
        ensures
            self.finished(index as int, result, now_ns).ahead_before(index, now_ns),
            self.finished(index as int, result, now_ns).pending.len() == self.pending.len() - 1,
    {
        let next = self.finished(index as int, result, now_ns);
        assert(next.pending == self.pending.remove(index as int));
    }
}

impl Shots {
    /// Go on with the queued shots from a place, as far as the next that
    /// fires: the place it stands at and the shot. What became of it is told
    /// to [`Shots::finish`], and the sweep goes on from the same place.
    pub fn execute_pending_shots(&mut self, index: usize, moment: &Moment) -> (r: (
        usize,
        Option<AimedShot>,
    ))
        requires
            old(self).wf(),
        ensures
            final(self).wf(),
            (Swept { shots: final(self)@, index: r.0 as nat, fires: r.1 }) == old(self)@.swept(
                index as nat,
                *moment,
            ),
            r.1 is Some ==> r.0 < final(self)@.pending.len(),
    {
        let mut at: usize = index;
        while at < self.pending.len()
            invariant
                self.wf(),
                self@.swept(at as nat, *moment) == old(self)@.swept(index as nat, *moment),
            decreases self.pending@.len() - at,
        {
            let facts = moment.facts(self.pending[at].shooter);
            match self.due(at, facts, moment.paused, moment.input_epoch, moment.now_ns) {
                Due::Drop(reason) => {
                    self.finish(at, Err(reason), moment.now_ns);
                },
                Due::Fire(shot) => {
                    return (at, Some(shot));
                },
                _ => {
                    at += 1;
                },
            }
        }
        (at, None)
    }
}

} // verus!

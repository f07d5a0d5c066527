//! The Small Rune: one lit target at a time, five targets in sequence.
use super::stream::{
    all_blades, count_marked, lemma_extremes, marked, no_blades, pick_blade, picked,
    picked_is_candidate, picked_rng, seeded, unhit, with_blade, Rng,
};
use super::wheel::Wheel;
use super::{
    HitOutcome, RuneError, RuneKind, RuneSnapshot, RuneState, ACTIVATED_HOLD_NS, RESET_PERIOD_NS,
};
use crate::binary::{Pose, FIVE, ONE, ONE_POINT_SIX};
use vstd::prelude::*;

verus! {

/// Where a Small Rune's activation stands. Its clock is the field clock; the
/// rune never reads host time.
#[derive(Clone, Copy, Debug, PartialEq, Eq)]
pub struct SmallActivation {
    /// Field time of the rune.
    pub time_ns: u64,
    /// When the lit target was lit, or the rune was completed or went dark.
    pub stage_started_ns: u64,
    /// When the current state began.
    pub state_since_ns: u64,
    /// When the wheel took up its constant speed.
    pub epoch_ns: u64,
    /// Inactive, Activating or Activated.
    pub state: RuneState,
    /// The lit blade.
    pub active_blade: Option<u32>,
    /// Blades already hit in the current attempt.
    pub activated: [bool; 5],
    /// Restart activation one second after completion (training policy).
    pub auto_restart: bool,
    /// The stream that chooses targets; the lowest unhit blade without one.
    pub rng: Option<Rng>,
}

impl SmallActivation {
    /// The clock has passed every recorded instant, and a blade is lit, not
    /// yet hit, exactly while the rune is Activating. An Inactive rune holds
    /// no hits, an Activated rune holds all five.
    pub open spec fn wf(self) -> bool {
        &&& self.stage_started_ns <= self.time_ns
        &&& self.state_since_ns <= self.time_ns
        &&& self.epoch_ns <= self.time_ns
        &&& match self.state {
            RuneState::Inactive => self.active_blade is None && self.activated == no_blades(),
            RuneState::Activating => match self.active_blade {
                Some(blade) => blade < 5 && !self.activated[blade as int],
                None => false,
            },
            RuneState::Activated => self.active_blade is None && self.activated == all_blades(),
        }
    }

    /// A fresh attempt from `at`, without progress.
    pub open spec fn reset(self, at: u64) -> SmallActivation {
        SmallActivation {
            stage_started_ns: at,
            state_since_ns: if self.state == RuneState::Activating {
                self.state_since_ns
            } else {
                at
            },
            state: RuneState::Activating,
            activated: no_blades(),
            active_blade: picked(all_blades(), self.rng),
            rng: picked_rng(all_blades(), self.rng),
            ..self
        }
    }

    /// After `n` hit windows ran out, one after the other. Each starts a fresh
    /// attempt and draws its target.
    pub open spec fn lapsed(self, n: nat) -> SmallActivation
        decreases n,
    {
        if n == 0 {
            self
        } else {
            let before = self.lapsed((n - 1) as nat);
            before.reset((before.stage_started_ns + RESET_PERIOD_NS) as u64)
        }
    }

    /// The automatic restart of a completed rune, when it is due by `t`.
    pub open spec fn restarted(self, t: u64) -> SmallActivation {
        if self.state == RuneState::Activated && self.auto_restart && t - self.stage_started_ns
            >= ACTIVATED_HOLD_NS {
            self.reset((self.stage_started_ns + ACTIVATED_HOLD_NS) as u64)
        } else {
            self
        }
    }

    /// Hit windows that ran out by `t`.
    pub open spec fn windows(self, t: u64) -> nat {
        if self.state == RuneState::Activating {
            ((t - self.stage_started_ns) / RESET_PERIOD_NS as int) as nat
        } else {
            0
        }
    }

    /// The activation at `t`, when nothing hits the rune before.
    pub open spec fn advanced(self, t: u64) -> SmallActivation {
        let ready = self.restarted(t);
        SmallActivation { time_ns: t, ..ready.lapsed(ready.windows(t)) }
    }

    /// What a hit on `blade` does at the current time.
    pub open spec fn struck(self, blade: u32) -> SmallActivation {
        match self.active_blade {
            None => self,
            Some(expected) => if blade != expected {
                self.reset(self.time_ns)
            } else {
                let activated = with_blade(self.activated, blade as int);
                let next = picked(unhit(activated), self.rng);
                SmallActivation {
                    activated,
                    stage_started_ns: self.time_ns,
                    active_blade: next,
                    rng: picked_rng(unhit(activated), self.rng),
                    state: if next is None { RuneState::Activated } else { self.state },
                    state_since_ns: if next is None {
                        self.time_ns
                    } else {
                        self.state_since_ns
                    },
                    ..self
                }
            },
        }
    }

    /// What a hit on `blade` is answered at the current time.
    pub open spec fn outcome(self, blade: u32) -> HitOutcome {
        match self.active_blade {
            None => HitOutcome::Inactive,
            Some(expected) => if blade != expected {
                HitOutcome::WrongBlade { blade, expected }
            } else {
                match self.struck(blade).active_blade {
                    Some(next_blade) => HitOutcome::Accepted { blade, next_blade },
                    None => HitOutcome::Activated { blade },
                }
            },
        }
    }

    /// The rune goes dark now.
    pub open spec fn darkened(self) -> SmallActivation {
        SmallActivation {
            stage_started_ns: self.time_ns,
            state_since_ns: self.time_ns,
            state: RuneState::Inactive,
            active_blade: None,
            activated: no_blades(),
            ..self
        }
    }

    /// A dark rune starts now; any other is left alone.
    pub open spec fn triggered(self) -> SmallActivation {
        if self.state == RuneState::Inactive {
            self.reset(self.time_ns)
        } else {
            self
        }
    }

    /// The training start: Activating at time zero with blade 0 lit.
    pub open spec fn training() -> SmallActivation {
        SmallActivation {
            time_ns: 0,
            stage_started_ns: 0,
            state_since_ns: 0,
            epoch_ns: 0,
            state: RuneState::Activating,
            active_blade: Some(0),
            activated: no_blades(),
            auto_restart: true,
            rng: None,
        }
    }

    /// A fresh attempt lights a blade that is not hit.
    proof fn reset_lights_a_blade(self, at: u64)
        ensures
            match self.reset(at).active_blade {
                Some(blade) => blade < 5,
                None => false,
            },
    {
        picked_is_candidate(all_blades(), self.rng);
        assert(all_blades()[0]);
    }

    /// Lapsed windows move the stage on by whole windows and keep the rest.
    pub(super) proof fn lapses_keep_shape(self, n: nat, t: u64)
        requires
            self.wf(),
            self.state == RuneState::Activating,
            self.stage_started_ns + n * RESET_PERIOD_NS <= t,
        ensures
            self.lapsed(n).stage_started_ns == self.stage_started_ns + n * RESET_PERIOD_NS,
            self.lapsed(n).state == RuneState::Activating,
            self.lapsed(n).state_since_ns == self.state_since_ns,
            self.lapsed(n).time_ns == self.time_ns,
            self.lapsed(n).epoch_ns == self.epoch_ns,
            self.lapsed(n).auto_restart == self.auto_restart,
            match self.lapsed(n).active_blade {
                Some(blade) => blade < 5 && !self.lapsed(n).activated[blade as int],
                None => false,
            },
        decreases n,
    {
        if n > 0 {
            assert((n - 1) * RESET_PERIOD_NS + RESET_PERIOD_NS == n * RESET_PERIOD_NS)
                by (nonlinear_arith);
            self.lapses_keep_shape((n - 1) as nat, t);
            let before = self.lapsed((n - 1) as nat);
            before.reset_lights_a_blade((before.stage_started_ns + RESET_PERIOD_NS) as u64);
        }
    }

    /// Windows lapse one after the other, and the clock has no part in it.
    proof fn lapses_compose(self, clock: u64, a: nat, b: nat)
        ensures
            (SmallActivation { time_ns: clock, ..self.lapsed(a) }).lapsed(b) == (
            SmallActivation { time_ns: clock, ..self.lapsed(a + b) }),
        decreases b,
    {
        if b > 0 {
            self.lapses_compose(clock, a, (b - 1) as nat);
            assert((a + b - 1) as nat == a + (b - 1) as nat);
        }
    }

    /// Windows that ran out by `t`, and what is left of the last.
    pub(super) proof fn windows_fit(self, t: u64)
        requires
            self.stage_started_ns <= t,
        ensures
            self.stage_started_ns + self.windows(t) * RESET_PERIOD_NS <= t,
            self.state == RuneState::Activating ==> t < self.stage_started_ns + self.windows(t)
                * RESET_PERIOD_NS + RESET_PERIOD_NS,
    {
        let d = t - self.stage_started_ns;
        assert(0 <= d ==> (d / 2_500_000_001) * 2_500_000_001 <= d < (d / 2_500_000_001)
            * 2_500_000_001 + 2_500_000_001) by (nonlinear_arith);
    }

    /// Windows that run out change no policy.
    proof fn lapses_keep_the_policy(self, n: nat)
        ensures
            self.lapsed(n).auto_restart == self.auto_restart,
        decreases n,
    {
        if n > 0 {
            self.lapses_keep_the_policy((n - 1) as nat);
        }
    }

    /// Advancing keeps the invariant and the policy.
    pub proof fn advancing_is_wf(self, t: u64)
        requires
            self.wf(),
            self.time_ns <= t,
        ensures
            self.advanced(t).wf(),
            self.advanced(t).epoch_ns == self.epoch_ns,
            self.advanced(t).auto_restart == self.auto_restart,
    {
        let ready = self.restarted(t);
        ready.lapses_keep_the_policy(ready.windows(t));
        if ready.state == RuneState::Activating {
            if self.state != RuneState::Activating {
                self.reset_lights_a_blade((self.stage_started_ns + ACTIVATED_HOLD_NS) as u64);
            }
            ready.windows_fit(t);
            let at_t = SmallActivation { time_ns: t, ..ready };
            assert(at_t.wf());
            at_t.lapses_keep_shape(ready.windows(t), t);
            ready.lapses_compose(t, 0, ready.windows(t));
        }
    }

    /// Skipped intervals give the same result as stepping through them: the
    /// activation at `later` does not depend on a stop at `sooner`.
    pub proof fn advancing_in_steps(self, sooner: u64, later: u64)
        requires
            self.wf(),
            self.time_ns <= sooner <= later,
        ensures
            self.advanced(sooner).advanced(later) == self.advanced(later),
    {
        self.advancing_is_wf(sooner);
        let step = self.advanced(sooner);
        let ready = self.restarted(sooner);
        if ready.state == RuneState::Activating {
            if self.state != RuneState::Activating {
                self.reset_lights_a_blade((self.stage_started_ns + ACTIVATED_HOLD_NS) as u64);
            }
            assert(self.restarted(later) == ready);
            let a = ready.windows(sooner);
            let c = ready.windows(later);
            ready.windows_fit(sooner);
            ready.windows_fit(later);
            let at_sooner = SmallActivation { time_ns: sooner, ..ready };
            at_sooner.lapses_keep_shape(a, sooner);
            ready.lapses_compose(sooner, 0, a);
            assert(step == at_sooner.lapsed(a));
            let b = step.windows(later);
            step.windows_fit(later);
            assert(a + b == c) by {
                let s = ready.stage_started_ns as int;
                let p = RESET_PERIOD_NS as int;
                assert(s + a * p + b * p <= later < s + a * p + b * p + p);
                assert(s + c * p <= later < s + c * p + p);
                assert(a * p + b * p == (a + b) * p) by (nonlinear_arith);
                assert(a + b == c) by (nonlinear_arith)
                    requires
                        (a + b) * p < c * p + p,
                        c * p < (a + b) * p + p,
                        p == 2_500_000_001,
                ;
            }
            ready.lapses_compose(sooner, a, b);
            assert(step.restarted(later) == step);
        } else {
            assert(step == (SmallActivation { time_ns: sooner, ..self }));
            let late = self.restarted(later);
            assert(step.restarted(later) == (SmallActivation { time_ns: sooner, ..late }));
            late.lapses_compose(sooner, 0, late.windows(later));
        }
    }
}

impl SmallActivation {
    /// The training start.
    pub(crate) fn start() -> (r: SmallActivation)
        ensures
            r == SmallActivation::training(),
            r.wf(),
    {
        SmallActivation {
            time_ns: 0,
            stage_started_ns: 0,
            state_since_ns: 0,
            epoch_ns: 0,
            state: RuneState::Activating,
            active_blade: Some(0),
            activated: [false, false, false, false, false],
            auto_restart: true,
            rng: None,
        }
    }

    /// Start a fresh attempt.
    fn reset_at(&mut self, time_ns: u64)
        ensures
            *final(self) == old(self).reset(time_ns),
    {
        self.stage_started_ns = time_ns;
        if self.state != RuneState::Activating {
            self.state_since_ns = time_ns;
        }
        self.state = RuneState::Activating;
        self.activated = [false, false, false, false, false];
        self.active_blade = pick_blade(&[true, true, true, true, true], &mut self.rng);
    }

    /// Advance to an absolute simulation timestamp.
    fn advance_to(&mut self, time_ns: u64) -> (r: Result<(), RuneError>)
        requires
            old(self).wf(),
        ensures
            r == (if time_ns < old(self).time_ns {
                Err(RuneError::TimeReversal)
            } else {
                Ok(())
            }),
            *final(self) == (if time_ns < old(self).time_ns {
                *old(self)
            } else {
                old(self).advanced(time_ns)
            }),
            final(self).wf(),
    {
        if time_ns < self.time_ns {
            return Err(RuneError::TimeReversal);
        }
        let ghost start = *self;
        proof {
            start.advancing_is_wf(time_ns);
        }
        match self.state {
            RuneState::Inactive => {
                self.time_ns = time_ns;
                return Ok(());
            },
            RuneState::Activated => {
                if !self.auto_restart || time_ns - self.stage_started_ns < ACTIVATED_HOLD_NS {
                    self.time_ns = time_ns;
                    return Ok(());
                }
                self.reset_at(self.stage_started_ns + ACTIVATED_HOLD_NS);
            },
            RuneState::Activating => {},
        }
        let ghost ready = *self;
        let periods: u64 = (time_ns - self.stage_started_ns) / RESET_PERIOD_NS;
        proof {
            assert(ready == start.restarted(time_ns));
            ready.windows_fit(time_ns);
            if start.state != RuneState::Activating {
                start.reset_lights_a_blade(
                    (start.stage_started_ns + ACTIVATED_HOLD_NS) as u64,
                );
            }
        }
        let ghost at_t = SmallActivation { time_ns, ..ready };
        let mut done: u64 = 0;
        while done < periods
            invariant
                done <= periods,
                periods == ready.windows(time_ns),
                at_t == (SmallActivation { time_ns, ..ready }),
                at_t.wf(),
                ready.state == RuneState::Activating,
                ready.stage_started_ns + periods * RESET_PERIOD_NS <= time_ns,
                *self == ready.lapsed(done as nat),
            decreases periods - done,
        {
            proof {
                assert(done * RESET_PERIOD_NS + RESET_PERIOD_NS <= periods * RESET_PERIOD_NS)
                    by (nonlinear_arith)
                    requires
                        done < periods,
                ;
                at_t.lapses_keep_shape(done as nat, time_ns);
                ready.lapses_compose(time_ns, 0, done as nat);
                assert(ready.lapsed((done + 1) as nat) == ready.lapsed(done as nat).reset(
                    (ready.lapsed(done as nat).stage_started_ns + RESET_PERIOD_NS) as u64,
                ));
            }
            self.reset_at(self.stage_started_ns + RESET_PERIOD_NS);
            done += 1;
        }
        self.time_ns = time_ns;
        Ok(())
    }

    /// Score a hit on `blade` at `time_ns`.
    fn hit(&mut self, time_ns: u64, blade: u32) -> (r: Result<HitOutcome, RuneError>)
        requires
            old(self).wf(),
        ensures
            r == (if blade >= 5 {
                Err(RuneError::Blade)
            } else if time_ns < old(self).time_ns {
                Err(RuneError::TimeReversal)
            } else {
                Ok(old(self).advanced(time_ns).outcome(blade))
            }),
            *final(self) == (if blade >= 5 || time_ns < old(self).time_ns {
                *old(self)
            } else {
                old(self).advanced(time_ns).struck(blade)
            }),
            final(self).wf(),
    {
        if blade >= 5 {
            return Err(RuneError::Blade);
        }
        match self.advance_to(time_ns) {
            Err(error) => {
                return Err(error);
            },
            Ok(()) => {},
        }
        let ghost now = *self;
        match self.active_blade {
            None => Ok(HitOutcome::Inactive),
            Some(expected) => {
                if blade != expected {
                    self.reset_at(time_ns);
                    proof {
                        now.reset_lights_a_blade(time_ns);
                    }
                    return Ok(HitOutcome::WrongBlade { blade, expected });
                }
                self.activated[blade as usize] = true;
                self.stage_started_ns = time_ns;
                let left: [bool; 5] = [
                    !self.activated[0],
                    !self.activated[1],
                    !self.activated[2],
                    !self.activated[3],
                    !self.activated[4],
                ];
                self.active_blade = pick_blade(&left, &mut self.rng);
                proof {
                    assert(self.activated =~= with_blade(now.activated, blade as int));
                    assert(left =~= unhit(self.activated));
                }
                match self.active_blade {
                    Some(next_blade) => Ok(HitOutcome::Accepted { blade, next_blade }),
                    None => {
                        self.state = RuneState::Activated;
                        self.state_since_ns = time_ns;
                        proof {
                            assert(!left[0] && !left[1] && !left[2] && !left[3] && !left[4]);
                            assert(self.activated =~= all_blades());
                        }
                        Ok(HitOutcome::Activated { blade })
                    },
                }
            },
        }
    }

    /// Start a dark rune.
    fn activate(&mut self, time_ns: u64) -> (r: Result<(), RuneError>)
        requires
            old(self).wf(),
        ensures
            r == (if time_ns < old(self).time_ns {
                Err(RuneError::TimeReversal)
            } else {
                Ok(())
            }),
            *final(self) == (if time_ns < old(self).time_ns {
                *old(self)
            } else {
                old(self).advanced(time_ns).triggered()
            }),
            final(self).wf(),
    {
        let result = self.advance_to(time_ns);
        if result.is_ok() && self.state == RuneState::Inactive {
            let ghost dark = *self;
            self.reset_at(time_ns);
            proof {
                dark.reset_lights_a_blade(time_ns);
            }
        }
        result
    }

    /// Darken the rune.
    fn deactivate(&mut self, time_ns: u64) -> (r: Result<(), RuneError>)
        requires
            old(self).wf(),
        ensures
            r == (if time_ns < old(self).time_ns {
                Err(RuneError::TimeReversal)
            } else {
                Ok(())
            }),
            *final(self) == (if time_ns < old(self).time_ns {
                *old(self)
            } else {
                old(self).advanced(time_ns).darkened()
            }),
            final(self).wf(),
    {
        let result = self.advance_to(time_ns);
        if result.is_ok() {
            self.stage_started_ns = time_ns;
            self.state_since_ns = time_ns;
            self.state = RuneState::Inactive;
            self.active_blade = None;
            self.activated = [false, false, false, false, false];
        }
        result
    }
}

/// A correct hit adds the struck blade to the progress and nothing else, and
/// the fifth correct hit, no other, completes the rune.
pub proof fn five_hits_activate(rune: SmallActivation, blade: u32)
    requires
        rune.wf(),
        rune.active_blade == Some(blade),
    ensures
        rune.struck(blade).activated == with_blade(rune.activated, blade as int),
        marked(rune.struck(blade).activated) == marked(rune.activated) + 1,
        rune.struck(blade).state == RuneState::Activated <==> marked(rune.activated) == 4,
        rune.outcome(blade) == (HitOutcome::Activated { blade }) <==> marked(rune.activated) == 4,
{
    let left = unhit(with_blade(rune.activated, blade as int));
    picked_is_candidate(left, rune.rng);
    if picked(left, rune.rng) is None {
        assert(!left[0] && !left[1] && !left[2] && !left[3] && !left[4]);
    }
}

/// A Small Rune: its wheel and where its activation stands.
#[derive(Clone, Debug, PartialEq, Eq)]
pub struct SmallRune {
    /// Where the rune hangs and how it has turned.
    pub wheel: Wheel,
    /// Where its activation stands.
    pub activation: SmallActivation,
}

impl Default for SmallRune {
    /// A Small Rune in training at 5 m ahead and 1.6 m up.
    fn default() -> (r: SmallRune)
        ensures
            r.wf(),
            r.activation == SmallActivation::training(),
            exists|hub: Pose| #[trigger]
                r.wheel.is_new(hub, false) && hub.translation_m@ == seq![FIVE, 0u64, ONE_POINT_SIX]
                    && hub.rotation_wxyz@ == seq![ONE, 0u64, 0u64, 0u64],
    {
        let hub = Pose {
            translation_m: [FIVE, 0, ONE_POINT_SIX],
            rotation_wxyz: [ONE, 0, 0, 0],
        };
        SmallRune::new(hub, true).unwrap()
    }
}

impl SmallRune {
    /// The wheel's and the activation's invariants.
    pub open spec fn wf(self) -> bool {
        self.wheel.wf() && self.activation.wf()
    }

    /// A Small Rune at `hub` on the nominal orbit, in the training policy:
    /// Activating with blade 0 lit and restarting one second after completion.
    /// A hub that is not finite, or whose rotation could not be normalised, is
    /// refused.
    pub fn new(hub: Pose, unit_rotation: bool) -> (r: Result<SmallRune, RuneError>)
        ensures
            r is Ok <==> hub.finite() && unit_rotation,
            r is Err ==> r->Err_0 == RuneError::Pose,
            r is Ok ==> {
                let rune = r->Ok_0;
                &&& rune.wf()
                &&& rune.activation == SmallActivation::training()
                &&& rune.wheel.is_new(hub, false)
            },
    {
        match Wheel::new(hub, unit_rotation, false) {
            Ok(wheel) => Ok(SmallRune { wheel, activation: SmallActivation::start() }),
            Err(error) => Err(error),
        }
    }

    /// The same on the measured CAD orbit; rule timing is unchanged.
    pub fn from_cad(hub: Pose, unit_rotation: bool) -> (r: Result<SmallRune, RuneError>)
        ensures
            r is Ok <==> hub.finite() && unit_rotation,
            r is Err ==> r->Err_0 == RuneError::Pose,
            r is Ok ==> {
                let rune = r->Ok_0;
                &&& rune.wf()
                &&& rune.activation == SmallActivation::training()
                &&& rune.wheel.is_new(hub, true)
            },
    {
        match Wheel::new(hub, unit_rotation, true) {
            Ok(wheel) => Ok(SmallRune { wheel, activation: SmallActivation::start() }),
            Err(error) => Err(error),
        }
    }

    /// Whether the invariants hold, for a rune that no constructor made.
    pub fn is_consistent(&self) -> (r: bool)
        ensures
            r == self.wf(),
    {
        let a = &self.activation;
        if !self.wheel.is_consistent() || a.stage_started_ns > a.time_ns || a.state_since_ns
            > a.time_ns || a.epoch_ns > a.time_ns {
            return false;
        }
        let struck: u32 = count_marked(&a.activated);
        proof {
            lemma_extremes(a.activated);
        }
        match a.state {
            RuneState::Inactive => a.active_blade.is_none() && struck == 0,
            RuneState::Activating => match a.active_blade {
                Some(blade) => blade < 5 && !a.activated[blade as usize],
                None => false,
            },
            RuneState::Activated => a.active_blade.is_none() && struck == 5,
        }
    }

    /// Whether the rune is Inactive, Activating or Activated.
    pub fn state(&self) -> (r: RuneState)
        ensures
            r == self.activation.state,
    {
        self.activation.state
    }

    /// Advance the rule state to an absolute simulation timestamp; never uses
    /// host time. A time before the rune's own is refused.
    pub fn advance_to(&mut self, time_ns: u64) -> (r: Result<(), RuneError>)
        requires
            old(self).wf(),
        ensures
            r == (if time_ns < old(self).activation.time_ns {
                Err(RuneError::TimeReversal)
            } else {
                Ok(())
            }),
            r is Err ==> *final(self) == *old(self),
            r is Ok ==> final(self).activation == old(self).activation.advanced(time_ns),
            final(self).wheel == old(self).wheel,
            final(self).wf(),
    {
        self.activation.advance_to(time_ns)
    }

    /// Score an externally established armor intersection. Invalid blade
    /// indices and backwards timestamps leave the rune unchanged.
    pub fn hit(&mut self, time_ns: u64, blade: u32) -> (r: Result<HitOutcome, RuneError>)
        requires
            old(self).wf(),
        ensures
            r == (if blade >= 5 {
                Err(RuneError::Blade)
            } else if time_ns < old(self).activation.time_ns {
                Err(RuneError::TimeReversal)
            } else {
                Ok(old(self).activation.advanced(time_ns).outcome(blade))
            }),
            r is Err ==> *final(self) == *old(self),
            r is Ok ==> final(self).activation == old(self).activation.advanced(time_ns).struck(
                blade,
            ),
            final(self).wheel == old(self).wheel,
            final(self).wf(),
    {
        self.activation.hit(time_ns, blade)
    }

    /// Referee trigger: an Inactive rune starts Activating with fresh
    /// progress. Any other state is left alone.
    pub fn activate(&mut self, time_ns: u64) -> (r: Result<(), RuneError>)
        requires
            old(self).wf(),
        ensures
            r == (if time_ns < old(self).activation.time_ns {
                Err(RuneError::TimeReversal)
            } else {
                Ok(())
            }),
            r is Err ==> *final(self) == *old(self),
            r is Ok ==> final(self).activation == old(self).activation.advanced(
                time_ns,
            ).triggered(),
            final(self).wheel == old(self).wheel,
            final(self).wf(),
    {
        self.activation.activate(time_ns)
    }

    /// Referee reset: the rune goes dark and ignores hits until activated.
    pub fn deactivate(&mut self, time_ns: u64) -> (r: Result<(), RuneError>)
        requires
            old(self).wf(),
        ensures
            r == (if time_ns < old(self).activation.time_ns {
                Err(RuneError::TimeReversal)
            } else {
                Ok(())
            }),
            r is Err ==> *final(self) == *old(self),
            r is Ok ==> final(self).activation == old(self).activation.advanced(
                time_ns,
            ).darkened(),
            final(self).wheel == old(self).wheel,
            final(self).wf(),
    {
        self.activation.deactivate(time_ns)
    }

    /// Restart activation one second after completion (the training default),
    /// or hold Activated until a referee changes it.
    pub fn set_auto_restart(&mut self, auto_restart: bool)
        ensures
            final(self).activation == (SmallActivation { auto_restart, ..old(self).activation }),
            final(self).wheel == old(self).wheel,
            old(self).wf() ==> final(self).wf(),
    {
        self.activation.auto_restart = auto_restart;
    }

    /// Choose targets from a seeded stream instead of the lowest unhit blade.
    pub fn set_seed(&mut self, seed: u64)
        ensures
            final(self).activation == (SmallActivation {
                rng: Some(seeded(seed)),
                ..old(self).activation
            }),
            final(self).wheel == old(self).wheel,
            old(self).wf() ==> final(self).wf(),
    {
        self.activation.rng = Some(Rng::new(seed));
    }

    /// Back to the training policy: the lowest unhit blade.
    pub fn clear_seed(&mut self)
        ensures
            final(self).activation == (SmallActivation { rng: None, ..old(self).activation }),
            final(self).wheel == old(self).wheel,
            old(self).wf() ==> final(self).wf(),
    {
        self.activation.rng = None;
    }

    /// The frame that [`SmallRune::snapshot`] takes.
    pub open spec fn frame(&self) -> RuneSnapshot {
        let lit = match self.activation.active_blade {
            Some(blade) => with_blade(no_blades(), blade as int),
            None => no_blades(),
        };
        RuneSnapshot {
            motion: None,
            epoch_ns: self.activation.epoch_ns,
            kind: RuneKind::Small,
            active_blades: lit,
            completed_groups: marked(self.activation.activated) as u32,
            time_ns: self.activation.time_ns,
            hub_pose: self.wheel.hub,
            target_radius_um: self.wheel.target_radius_um,
            state: self.activation.state,
            active_blade: self.activation.active_blade,
            activated: self.activation.activated,
            state_since_ns: self.activation.state_since_ns,
        }
    }

    /// The rune's frame at its current time: lit targets and progress.
    pub fn snapshot(&self) -> (r: RuneSnapshot)
        ensures
            r == self.frame(),
    {
        let lit: [bool; 5] = match self.activation.active_blade {
            Some(blade) => [blade == 0, blade == 1, blade == 2, blade == 3, blade == 4],
            None => [false, false, false, false, false],
        };
        RuneSnapshot {
            motion: None,
            epoch_ns: self.activation.epoch_ns,
            kind: RuneKind::Small,
            active_blades: lit,
            completed_groups: count_marked(&self.activation.activated),
            time_ns: self.activation.time_ns,
            hub_pose: self.wheel.hub,
            target_radius_um: self.wheel.target_radius_um,
            state: self.activation.state,
            active_blade: self.activation.active_blade,
            activated: self.activation.activated,
            state_since_ns: self.activation.state_since_ns,
        }
    }
}

} // verus!

//! The Big Rune: five groups of two lit targets. The first hit of a group is
//! required, the second is an optional bonus.
use super::stream::{
    all_blades, count_marked, lemma_extremes, marked, no_blades, seeded, with_blade, Rng,
};
use super::wheel::{BigRuneMotion, Turn, Wheel};
use super::{HitOutcome, RuneError, RuneKind, RuneSnapshot, RuneState, ACTIVATED_HOLD_NS, RESET_PERIOD_NS};
use crate::binary::Pose;
use vstd::prelude::*;

verus! {

/// Groups that complete a Big Rune.
pub const GROUP_COUNT: u32 = 5;

/// A bonus hit exactly one second after the first still belongs to its group;
/// the group closes one nanosecond later.
pub const BONUS_CLOSE_NS: u64 = 1_000_000_001;

/// Where a Big Rune's activation stands, and how its wheel moves.
#[derive(Clone, Copy, Debug, PartialEq, Eq)]
pub struct BigActivation {
    /// The speed function of an activation.
    pub motion: BigRuneMotion,
    /// Field time of the rune.
    pub time_ns: u64,
    /// When the wheel took up its present motion.
    pub epoch_ns: u64,
    /// When the lit pair was lit, or the rune was completed or went dark.
    pub stage_started_ns: u64,
    /// When the current state began.
    pub state_since_ns: u64,
    /// When the lit pair was first hit.
    pub first_hit_ns: Option<u64>,
    /// Inactive, Activating or Activated.
    pub state: RuneState,
    /// Groups completed in the current attempt.
    pub completed_groups: u32,
    /// Blades that are lit.
    pub active: [bool; 5],
    /// Blades hit in the current group.
    pub hit: [bool; 5],
    /// Restart activation one second after completion (training policy).
    pub auto_restart: bool,
    /// The stream that chooses pairs; the lowest pair without one.
    pub rng: Option<Rng>,
}

/// The first blade of the next pair.
pub open spec fn first_of_pair(groups: u32, rng: Option<Rng>) -> int {
    match rng {
        Some(stream) => stream.drawn() as int % 5,
        None => (groups * 2) % 5,
    }
}

/// The second blade of the next pair.
pub open spec fn second_of_pair(groups: u32, rng: Option<Rng>) -> int {
    match rng {
        Some(stream) => (first_of_pair(groups, rng) + 1 + stream.stepped().drawn() as int % 4) % 5,
        None => (groups * 2 + 2) % 5,
    }
}

/// The lowest lit blade, if any.
pub open spec fn lowest(active: [bool; 5]) -> Option<u32> {
    if active[0] {
        Some(0u32)
    } else if active[1] {
        Some(1u32)
    } else if active[2] {
        Some(2u32)
    } else if active[3] {
        Some(3u32)
    } else if active[4] {
        Some(4u32)
    } else {
        None
    }
}

/// A time after `span`, or the last representable one.
pub open spec fn later_by(at: u64, span: u64) -> u64 {
    at.saturating_add(span)
}

impl BigActivation {
    /// The clock has passed every recorded instant. An Inactive rune is dark
    /// and holds no progress; an Activating one has groups to go and either
    /// two lit blades or a first hit; an Activated one holds all five groups.
    /// The speed function lies within the rule bounds.
    pub open spec fn wf(self) -> bool {
        &&& self.motion.wf()
        &&& self.stage_started_ns <= self.time_ns
        &&& self.state_since_ns <= self.time_ns
        &&& self.epoch_ns <= self.time_ns
        &&& match self.state {
            RuneState::Inactive => {
                &&& self.first_hit_ns is None
                &&& self.completed_groups == 0
                &&& self.active == no_blades()
                &&& self.hit == no_blades()
            },
            RuneState::Activating => {
                &&& self.completed_groups < GROUP_COUNT
                &&& match self.first_hit_ns {
                    None => marked(self.active) == 2 && self.hit == no_blades(),
                    Some(first) => {
                        &&& self.stage_started_ns <= first <= self.time_ns
                        &&& marked(self.active) + marked(self.hit) == 2
                        &&& marked(self.hit) >= 1
                        &&& forall|b: int|
                            0 <= b < 5 ==> !(#[trigger] self.active[b] && self.hit[b])
                    },
                }
            },
            RuneState::Activated => {
                &&& self.first_hit_ns is None
                &&& self.completed_groups == GROUP_COUNT
                &&& self.active == no_blades()
                &&& self.hit == all_blades()
            },
        }
    }

    /// The next pair is lit from `at` on.
    pub open spec fn paired(self, at: u64) -> BigActivation {
        BigActivation {
            active: with_blade(
                with_blade(no_blades(), first_of_pair(self.completed_groups, self.rng)),
                second_of_pair(self.completed_groups, self.rng),
            ),
            hit: no_blades(),
            first_hit_ns: None,
            stage_started_ns: at,
            rng: match self.rng {
                Some(stream) => Some(stream.stepped().stepped()),
                None => None,
            },
            ..self
        }
    }

    /// A fresh attempt from `at`, without progress.
    pub open spec fn reset(self, at: u64) -> BigActivation {
        (BigActivation { completed_groups: 0, ..self }).paired(at)
    }

    /// The wheel changes to the motion of `state` at `at`.
    pub open spec fn moved(self, at: u64, state: RuneState) -> BigActivation {
        BigActivation {
            epoch_ns: at,
            state_since_ns: if self.state != state {
                at
            } else {
                self.state_since_ns
            },
            state,
            ..self
        }
    }

    /// Back to the training policy: no stream and the training motion. A
    /// sinusoid under way ends now, and the training one begins where it left
    /// the wheel.
    pub open spec fn unseeded(self) -> BigActivation {
        BigActivation {
            rng: None,
            motion: BigRuneMotion::training(),
            epoch_ns: if self.motion_changes() {
                self.time_ns
            } else {
                self.epoch_ns
            },
            ..self
        }
    }

    /// A sinusoid other than the training one is under way.
    pub open spec fn motion_changes(self) -> bool {
        self.state == RuneState::Activating && self.motion != BigRuneMotion::training()
    }

    /// The motion that going back to the training policy ends.
    pub open spec fn unseeding_turns(self) -> Seq<Turn> {
        if self.motion_changes() {
            seq![self.turn(self.time_ns)]
        } else {
            Seq::empty()
        }
    }

    /// The group under way closes when its bonus second is over by `t`.
    pub open spec fn group_closed(self, t: u64) -> BigActivation {
        match self.first_hit_ns {
            Some(first) if t >= later_by(first, BONUS_CLOSE_NS) => {
                let end = later_by(first, BONUS_CLOSE_NS);
                let groups = (self.completed_groups + 1) as u32;
                if groups == GROUP_COUNT {
                    let done = self.moved(end, RuneState::Activated);
                    BigActivation {
                        first_hit_ns: None,
                        completed_groups: groups,
                        stage_started_ns: end,
                        active: no_blades(),
                        hit: all_blades(),
                        ..done
                    }
                } else {
                    (BigActivation { completed_groups: groups, ..self }).paired(end)
                }
            },
            _ => self,
        }
    }

    /// The automatic restart of a completed rune, when it is due by `t`.
    pub open spec fn restarted(self, t: u64) -> BigActivation {
        let end = later_by(self.stage_started_ns, ACTIVATED_HOLD_NS);
        if self.state == RuneState::Activated && self.auto_restart && t >= end {
            self.moved(end, RuneState::Activating).reset(end)
        } else {
            self
        }
    }

    /// After `n` hit windows ran out, one after the other. Each starts a fresh
    /// attempt and draws its pair.
    pub open spec fn lapsed(self, n: nat) -> BigActivation
        decreases n,
    {
        if n == 0 {
            self
        } else {
            let before = self.lapsed((n - 1) as nat);
            before.reset((before.stage_started_ns + RESET_PERIOD_NS) as u64)
        }
    }

    /// Hit windows that ran out by `t`.
    pub open spec fn windows(self, t: u64) -> nat {
        if self.state == RuneState::Activating && self.first_hit_ns is None {
            ((t - self.stage_started_ns) / RESET_PERIOD_NS as int) as nat
        } else {
            0
        }
    }

    /// The activation at `t`, when nothing hits the rune before.
    pub open spec fn advanced(self, t: u64) -> BigActivation {
        let ready = self.group_closed(t).restarted(t);
        BigActivation { time_ns: t, ..ready.lapsed(ready.windows(t)) }
    }

    /// The motion under way, to be recorded when it ends at `at`.
    pub open spec fn turn(self, at: u64) -> Turn {
        Turn {
            from_ns: self.epoch_ns,
            to_ns: at,
            motion: if self.state == RuneState::Activating {
                Some(self.motion)
            } else {
                None
            },
        }
    }

    /// The motions that end by `t`, when nothing hits the rune before: the
    /// sinusoid when the last group closes, the constant speed when the rune
    /// restarts.
    pub open spec fn turns(self, t: u64) -> Seq<Turn> {
        let closed = self.group_closed(t);
        let ready = closed.restarted(t);
        let first = if closed.state != self.state {
            seq![self.turn(closed.epoch_ns)]
        } else {
            Seq::empty()
        };
        let second = if ready.state != closed.state {
            seq![closed.turn(ready.epoch_ns)]
        } else {
            Seq::empty()
        };
        first + second
    }

    /// What a hit on `blade` does at the current time.
    pub open spec fn struck(self, blade: u32) -> BigActivation {
        if self.state != RuneState::Activating {
            self
        } else if !self.active[blade as int] {
            self.reset(self.time_ns)
        } else {
            BigActivation {
                first_hit_ns: match self.first_hit_ns {
                    Some(first) => Some(first),
                    None => Some(self.time_ns),
                },
                active: without_blade(self.active, blade as int),
                hit: with_blade(self.hit, blade as int),
                ..self
            }
        }
    }

    /// What a hit on `blade` is answered at the current time.
    pub open spec fn outcome(self, blade: u32) -> HitOutcome {
        if self.state != RuneState::Activating {
            HitOutcome::Inactive
        } else if !self.active[blade as int] {
            HitOutcome::WrongBlade {
                blade,
                expected: match lowest(self.active) {
                    Some(lit) => lit,
                    None => 0,
                },
            }
        } else {
            HitOutcome::GroupHit {
                blade,
                group: self.completed_groups,
                bonus: self.first_hit_ns is Some,
            }
        }
    }

    /// A dark rune starts now, its speed function drawn from the stream; any
    /// other is left alone.
    pub open spec fn triggered(self) -> BigActivation {
        if self.state == RuneState::Inactive {
            let drawn = match self.rng {
                Some(stream) => BigActivation {
                    motion: BigRuneMotion::from_stream(stream),
                    rng: Some(stream.stepped().stepped()),
                    ..self
                },
                None => self,
            };
            drawn.moved(self.time_ns, RuneState::Activating).reset(self.time_ns)
        } else {
            self
        }
    }

    /// The rune goes dark now.
    pub open spec fn darkened(self) -> BigActivation {
        let moved = self.moved(self.time_ns, RuneState::Inactive);
        BigActivation {
            stage_started_ns: self.time_ns,
            first_hit_ns: None,
            completed_groups: 0,
            active: no_blades(),
            hit: no_blades(),
            ..moved
        }
    }

    /// The motion that a trigger ends now: the constant speed of a dark rune.
    pub open spec fn trigger_turns(self) -> Seq<Turn> {
        if self.state == RuneState::Inactive {
            seq![self.turn(self.time_ns)]
        } else {
            Seq::empty()
        }
    }

    /// The training start: Activating at time zero with the lowest pair lit.
    pub open spec fn training(motion: BigRuneMotion) -> BigActivation {
        (BigActivation {
            motion,
            time_ns: 0,
            epoch_ns: 0,
            stage_started_ns: 0,
            state_since_ns: 0,
            first_hit_ns: None,
            state: RuneState::Activating,
            completed_groups: 0,
            active: no_blades(),
            hit: no_blades(),
            auto_restart: true,
            rng: None,
        }).paired(0)
    }

    /// A pair is two distinct blades.
    pub(super) proof fn pairs_are_distinct(self, at: u64)
        ensures
            0 <= first_of_pair(self.completed_groups, self.rng) < 5,
            0 <= second_of_pair(self.completed_groups, self.rng) < 5,
            first_of_pair(self.completed_groups, self.rng) != second_of_pair(
                self.completed_groups,
                self.rng,
            ),
            marked(self.paired(at).active) == 2,
    {
        match self.rng {
            Some(stream) => {
                let second = stream.stepped().drawn() as int % 4;
                assert(0 <= second < 4);
            },
            None => {},
        }
    }

    /// Lapsed windows move the stage on by whole windows and keep the rest.
    pub(super) proof fn lapses_keep_shape(self, n: nat, t: u64)
        requires
            self.wf(),
            self.state == RuneState::Activating,
            self.first_hit_ns is None,
            self.stage_started_ns + n * RESET_PERIOD_NS <= t,
        ensures
            self.lapsed(n).stage_started_ns == self.stage_started_ns + n * RESET_PERIOD_NS,
            self.lapsed(n).state == RuneState::Activating,
            self.lapsed(n).state_since_ns == self.state_since_ns,
            self.lapsed(n).epoch_ns == self.epoch_ns,
            self.lapsed(n).motion == self.motion,
            self.lapsed(n).time_ns == self.time_ns,
            self.lapsed(n).auto_restart == self.auto_restart,
            self.lapsed(n).first_hit_ns is None,
            self.lapsed(n).completed_groups < GROUP_COUNT,
            self.lapsed(n).hit == no_blades(),
            marked(self.lapsed(n).active) == 2,
        decreases n,
    {
        if n > 0 {
            assert((n - 1) * RESET_PERIOD_NS + RESET_PERIOD_NS == n * RESET_PERIOD_NS)
                by (nonlinear_arith);
            self.lapses_keep_shape((n - 1) as nat, t);
            let before = self.lapsed((n - 1) as nat);
            (BigActivation { completed_groups: 0, ..before }).pairs_are_distinct(
                (before.stage_started_ns + RESET_PERIOD_NS) as u64,
            );
        }
    }

    /// Windows lapse one after the other, and the clock has no part in it.
    proof fn lapses_compose(self, clock: u64, a: nat, b: nat)
        ensures
            (BigActivation { time_ns: clock, ..self.lapsed(a) }).lapsed(b) == (
            BigActivation { time_ns: clock, ..self.lapsed(a + b) }),
        decreases b,
    {
        if b > 0 {
            self.lapses_compose(clock, a, (b - 1) as nat);
            assert((a + b - 1) as nat == a + (b - 1) as nat);
        }
    }

    /// Windows that ran out by `t`, and what is left of the last.
    pub(super) proof fn windows_fit(self, t: u64)
        requires
            self.stage_started_ns <= t,
        ensures
            self.stage_started_ns + self.windows(t) * RESET_PERIOD_NS <= t,
            self.state == RuneState::Activating && self.first_hit_ns is None ==> t
                < self.stage_started_ns + self.windows(t) * RESET_PERIOD_NS + RESET_PERIOD_NS,
    {
        let d = t - self.stage_started_ns;
        assert(0 <= d ==> (d / 2_500_000_001) * 2_500_000_001 <= d < (d / 2_500_000_001)
            * 2_500_000_001 + 2_500_000_001) by (nonlinear_arith);
    }

    /// What is due before the hit windows keeps the invariant.
    pub(super) proof fn ready_is_wf(self, t: u64)
        requires
            self.wf(),
            self.time_ns <= t,
        ensures
            (BigActivation { time_ns: t, ..self.group_closed(t) }).wf(),
            (BigActivation { time_ns: t, ..self.group_closed(t).restarted(t) }).wf(),
    {
        let closed = self.group_closed(t);
        if self.first_hit_ns is Some {
            let end = later_by(self.first_hit_ns->0, BONUS_CLOSE_NS);
            let more = BigActivation {
                completed_groups: (self.completed_groups + 1) as u32,
                ..self
            };
            more.pairs_are_distinct(end);
        }
        let end = later_by(closed.stage_started_ns, ACTIVATED_HOLD_NS);
        let moved = closed.moved(end, RuneState::Activating);
        (BigActivation { completed_groups: 0, ..moved }).pairs_are_distinct(end);
    }

    /// Advancing keeps the invariant.
    pub proof fn advancing_is_wf(self, t: u64)
        requires
            self.wf(),
            self.time_ns <= t,
        ensures
            self.advanced(t).wf(),
    {
        self.ready_is_wf(t);
        let ready = self.group_closed(t).restarted(t);
        let at_t = BigActivation { time_ns: t, ..ready };
        ready.windows_fit(t);
        if ready.windows(t) > 0 {
            at_t.lapses_keep_shape(ready.windows(t), t);
        }
        ready.lapses_compose(t, 0, ready.windows(t));
    }

    /// Skipped intervals complete the same groups and draw the same seeded
    /// pairs as stepping through them: neither the activation at `later` nor
    /// the motions of the wheel until then depend on a stop at `sooner`.
    pub proof fn advancing_in_steps(self, sooner: u64, later: u64)
        requires
            self.wf(),
            self.time_ns <= sooner <= later,
        ensures
            self.advanced(sooner).advanced(later) == self.advanced(later),
            self.turns(sooner) + self.advanced(sooner).turns(later) == self.turns(later),
    {
        self.ready_is_wf(sooner);
        self.ready_is_wf(later);
        let step = self.advanced(sooner);
        let ready = self.group_closed(sooner).restarted(sooner);
        let at_sooner = BigActivation { time_ns: sooner, ..ready };
        let a = ready.windows(sooner);
        ready.windows_fit(sooner);
        ready.lapses_compose(sooner, 0, a);
        assert(step == at_sooner.lapsed(a));
        if ready.state == RuneState::Activating && ready.first_hit_ns is None {
            assert(self.group_closed(later).restarted(later) == ready);
            let c = ready.windows(later);
            ready.windows_fit(later);
            at_sooner.lapses_keep_shape(a, sooner);
            let b = step.windows(later);
            step.windows_fit(later);
            assert(a + b == c) by {
                let s = ready.stage_started_ns as int;
                let p = RESET_PERIOD_NS as int;
                assert(s + a * p + b * p <= later < s + a * p + b * p + p);
                assert(s + c * p <= later < s + c * p + p);
                assert(a * p + b * p == (a + b) * p) by (nonlinear_arith);
                assert(a + b == c) by (nonlinear_arith)
                    requires
                        (a + b) * p < c * p + p,
                        c * p < (a + b) * p + p,
                        p == 2_500_000_001,
                ;
            }
            ready.lapses_compose(sooner, a, b);
            assert(step.group_closed(later).restarted(later) == step);
            assert(self.turns(sooner) + step.turns(later) =~= self.turns(later));
        } else {
            assert(a == 0);
            assert(step == at_sooner);
            let late = self.group_closed(later).restarted(later);
            assert(step.group_closed(later).restarted(later) == (BigActivation {
                time_ns: sooner,
                ..late
            }));
            late.lapses_compose(sooner, 0, late.windows(later));
            assert(self.turns(sooner) + step.turns(later) =~= self.turns(later));
        }
    }
}

/// The mask with one blade fewer.
pub open spec fn without_blade(mask: [bool; 5], blade: int) -> [bool; 5] {
    [
        mask[0] && blade != 0,
        mask[1] && blade != 1,
        mask[2] && blade != 2,
        mask[3] && blade != 3,
        mask[4] && blade != 4,
    ]
}

/// A Big Rune: its wheel and where its activation stands.
#[derive(Clone, Debug, PartialEq, Eq)]
pub struct BigRune {
    /// Where the rune hangs and how it has turned.
    pub wheel: Wheel,
    /// Where its activation stands.
    pub activation: BigActivation,
}

/// The lowest lit blade, if any.
pub fn lowest_blade(active: &[bool; 5]) -> (r: Option<u32>)
    ensures
        r == lowest(*active),
{
    let mut blade: u32 = 0;
    while blade < 5
        invariant
            blade <= 5,
            forall|b: int| 0 <= b < blade ==> !#[trigger] active[b],
        decreases 5 - blade,
    {
        if active[blade as usize] {
            return Some(blade);
        }
        blade += 1;
    }
    None
}

impl BigRune {
    /// The wheel's and the activation's invariants.
    pub open spec fn wf(self) -> bool {
        self.wheel.wf() && self.activation.wf()
    }

    /// A Big Rune at `hub`, on the measured orbit when `cad` is set, with the
    /// given speed function. It starts in the training policy: Activating, the
    /// lowest pair lit, restarting one second after completion. A hub that is
    /// not finite, or whose rotation could not be normalised, is refused, and
    /// so is a speed function outside the rule bounds.
    pub fn new(hub: Pose, unit_rotation: bool, cad: bool, motion: BigRuneMotion) -> (r: Result<
        BigRune,
        RuneError,
    >)
        ensures
            r is Ok <==> hub.finite() && unit_rotation && motion.wf(),
            r is Err ==> r->Err_0 == (if hub.finite() && unit_rotation {
                RuneError::Motion
            } else {
                RuneError::Pose
            }),
            r is Ok ==> {
                let rune = r->Ok_0;
                &&& rune.wf()
                &&& rune.activation == BigActivation::training(motion)
                &&& rune.wheel.is_new(hub, cad)
            },
    {
        let wheel = match Wheel::new(hub, unit_rotation, cad) {
            Ok(wheel) => wheel,
            Err(error) => {
                return Err(error);
            },
        };
        if !motion.is_valid() {
            return Err(RuneError::Motion);
        }
        let mut rune = BigRune {
            wheel,
            activation: BigActivation {
                motion,
                time_ns: 0,
                epoch_ns: 0,
                stage_started_ns: 0,
                state_since_ns: 0,
                first_hit_ns: None,
                state: RuneState::Activating,
                completed_groups: 0,
                active: [false, false, false, false, false],
                hit: [false, false, false, false, false],
                auto_restart: true,
                rng: None,
            },
        };
        let ghost blank = rune.activation;
        rune.select_pair(0);
        proof {
            blank.pairs_are_distinct(0);
        }
        Ok(rune)
    }

    /// Whether the invariants hold, for a rune that no constructor made.
    pub fn is_consistent(&self) -> (r: bool)
        ensures
            r == self.wf(),
    {
        let a = &self.activation;
        if !self.wheel.is_consistent() || !a.motion.is_valid() || a.stage_started_ns > a.time_ns
            || a.state_since_ns > a.time_ns || a.epoch_ns > a.time_ns {
            return false;
        }
        let lit: u32 = count_marked(&a.active);
        let struck: u32 = count_marked(&a.hit);
        proof {
            lemma_extremes(a.active);
            lemma_extremes(a.hit);
        }
        match a.state {
            RuneState::Inactive => a.first_hit_ns.is_none() && a.completed_groups == 0 && lit == 0
                && struck == 0,
            RuneState::Activating => {
                if a.completed_groups >= GROUP_COUNT {
                    return false;
                }
                match a.first_hit_ns {
                    None => lit == 2 && struck == 0,
                    Some(first) => {
                        let apart = !(a.active[0] && a.hit[0]) && !(a.active[1] && a.hit[1]) && !(
                        a.active[2] && a.hit[2]) && !(a.active[3] && a.hit[3]) && !(a.active[4]
                            && a.hit[4]);
                        a.stage_started_ns <= first && first <= a.time_ns && lit + struck == 2
                            && struck >= 1 && apart
                    },
                }
            },
            RuneState::Activated => a.first_hit_ns.is_none() && a.completed_groups == GROUP_COUNT
                && lit == 0 && struck == 5,
        }
    }

    /// Whether the rune is Inactive, Activating or Activated.
    pub fn state(&self) -> (r: RuneState)
        ensures
            r == self.activation.state,
    {
        self.activation.state
    }

    /// End the motion under way and take up that of `state`.
    fn change_motion(&mut self, time_ns: u64, state: RuneState)
        ensures
            final(self).activation == old(self).activation.moved(time_ns, state),
            old(self).wheel.turned(final(self).wheel, seq![old(self).activation.turn(time_ns)]),
    {
        let motion = if self.activation.state == RuneState::Activating {
            Some(self.activation.motion)
        } else {
            None
        };
        self.wheel.turns.push(Turn { from_ns: self.activation.epoch_ns, to_ns: time_ns, motion });
        proof {
            assert(self.wheel.turns@ =~= old(self).wheel.turns@ + seq![
                old(self).activation.turn(time_ns),
            ]);
        }
        self.activation.epoch_ns = time_ns;
        if self.activation.state != state {
            self.activation.state_since_ns = time_ns;
        }
        self.activation.state = state;
    }

    /// Light the next pair.
    pub(crate) fn select_pair(&mut self, time_ns: u64)
        requires
            old(self).activation.completed_groups <= GROUP_COUNT,
        ensures
            final(self).activation == old(self).activation.paired(time_ns),
            final(self).wheel == old(self).wheel,
    {
        let groups: u32 = self.activation.completed_groups;
        let first: u32;
        let second: u32;
        match self.activation.rng {
            Some(stream) => {
                let mut rng = stream;
                first = rng.below(5) as u32;
                second = (first + 1 + rng.below(4) as u32) % 5;
                self.activation.rng = Some(rng);
            },
            None => {
                first = (groups * 2) % 5;
                second = (groups * 2 + 2) % 5;
            },
        }
        self.activation.active = [
            first == 0 || second == 0,
            first == 1 || second == 1,
            first == 2 || second == 2,
            first == 3 || second == 3,
            first == 4 || second == 4,
        ];
        self.activation.hit = [false, false, false, false, false];
        self.activation.first_hit_ns = None;
        self.activation.stage_started_ns = time_ns;
    }

    /// Start a fresh attempt.
    fn reset_progress(&mut self, time_ns: u64)
        ensures
            final(self).activation == old(self).activation.reset(time_ns),
            final(self).wheel == old(self).wheel,
    {
        self.activation.completed_groups = 0;
        self.select_pair(time_ns);
    }

    /// Advance the rule state to an absolute simulation timestamp. A time
    /// before the rune's own is refused.
    pub fn advance_to(&mut self, time_ns: u64) -> (r: Result<(), RuneError>)
        requires
            old(self).wf(),
        ensures
            r == (if time_ns < old(self).activation.time_ns {
                Err(RuneError::TimeReversal)
            } else {
                Ok(())
            }),
            r is Err ==> *final(self) == *old(self),
            r is Ok ==> {
                &&& final(self).activation == old(self).activation.advanced(time_ns)
                &&& old(self).wheel.turned(
                    final(self).wheel,
                    old(self).activation.turns(time_ns),
                )
            },
            final(self).wf(),
    {
        if time_ns < self.activation.time_ns {
            return Err(RuneError::TimeReversal);
        }
        let ghost start = self.activation;
        proof {
            start.advancing_is_wf(time_ns);
            start.ready_is_wf(time_ns);
        }
        if self.activation.state == RuneState::Inactive {
            self.activation.time_ns = time_ns;
            proof {
                assert(self.wheel.turns@ =~= old(self).wheel.turns@ + start.turns(time_ns));
            }
            return Ok(());
        }
        if let Some(first) = self.activation.first_hit_ns {
            let end: u64 = first.saturating_add(BONUS_CLOSE_NS);
            if time_ns >= end {
                self.activation.completed_groups = self.activation.completed_groups + 1;
                self.activation.first_hit_ns = None;
                if self.activation.completed_groups == GROUP_COUNT {
                    self.change_motion(end, RuneState::Activated);
                    self.activation.stage_started_ns = end;
                    self.activation.active = [false, false, false, false, false];
                    self.activation.hit = [true, true, true, true, true];
                } else {
                    self.select_pair(end);
                }
            }
        }
        let ghost closed = self.activation;
        let ghost closed_turns = self.wheel.turns@;
        proof {
            assert(closed == start.group_closed(time_ns));
            assert(closed_turns =~= old(self).wheel.turns@ + (if closed.state != start.state {
                seq![start.turn(closed.epoch_ns)]
            } else {
                Seq::empty()
            }));
        }
        if self.activation.state == RuneState::Activated && self.activation.auto_restart {
            let end: u64 = self.activation.stage_started_ns.saturating_add(ACTIVATED_HOLD_NS);
            if time_ns >= end {
                self.change_motion(end, RuneState::Activating);
                self.reset_progress(end);
            }
        }
        let ghost ready = self.activation;
        proof {
            assert(ready == closed.restarted(time_ns));
            assert(self.wheel.turns@ =~= closed_turns + (if ready.state != closed.state {
                seq![closed.turn(ready.epoch_ns)]
            } else {
                Seq::empty()
            }));
            assert(self.wheel.turns@ =~= old(self).wheel.turns@ + start.turns(time_ns));
        }
        if self.activation.state == RuneState::Activating
            && self.activation.first_hit_ns.is_none() {
            let periods: u64 = (time_ns - self.activation.stage_started_ns) / RESET_PERIOD_NS;
            let ghost wheel = self.wheel;
            let ghost at_t = BigActivation { time_ns, ..ready };
            let mut done: u64 = 0;
            proof {
                ready.windows_fit(time_ns);
            }
            while done < periods
                invariant
                    done <= periods,
                    periods == ready.windows(time_ns),
                    at_t == (BigActivation { time_ns, ..ready }),
                    at_t.wf(),
                    ready.state == RuneState::Activating,
                    ready.first_hit_ns is None,
                    ready.stage_started_ns + periods * RESET_PERIOD_NS <= time_ns,
                    self.activation == ready.lapsed(done as nat),
                    self.wheel == wheel,
                decreases periods - done,
            {
                proof {
                    assert(done * RESET_PERIOD_NS + RESET_PERIOD_NS <= periods * RESET_PERIOD_NS)
                        by (nonlinear_arith)
                        requires
                            done < periods,
                    ;
                    at_t.lapses_keep_shape(done as nat, time_ns);
                    ready.lapses_compose(time_ns, 0, done as nat);
                    assert(ready.lapsed((done + 1) as nat) == ready.lapsed(done as nat).reset(
                        (ready.lapsed(done as nat).stage_started_ns + RESET_PERIOD_NS) as u64,
                    ));
                }
                self.reset_progress(self.activation.stage_started_ns + RESET_PERIOD_NS);
                done += 1;
            }
        }
        self.activation.time_ns = time_ns;
        Ok(())
    }

    /// Score a hit on `blade` at `time_ns`. A lit target is accepted; anything
    /// else resets the attempt and reports the blade that was expected. An
    /// invalid blade or a backwards timestamp leaves the rune unchanged.
    pub fn hit(&mut self, time_ns: u64, blade: u32) -> (r: Result<HitOutcome, RuneError>)
        requires
            old(self).wf(),
        ensures
            r == (if blade >= 5 {
                Err(RuneError::Blade)
            } else if time_ns < old(self).activation.time_ns {
                Err(RuneError::TimeReversal)
            } else {
                Ok(old(self).activation.advanced(time_ns).outcome(blade))
            }),
            r is Err ==> *final(self) == *old(self),
            r is Ok ==> {
                &&& final(self).activation == old(self).activation.advanced(time_ns).struck(blade)
                &&& old(self).wheel.turned(
                    final(self).wheel,
                    old(self).activation.turns(time_ns),
                )
            },
            final(self).wf(),
    {
        if blade >= 5 {
            return Err(RuneError::Blade);
        }
        match self.advance_to(time_ns) {
            Err(error) => {
                return Err(error);
            },
            Ok(()) => {},
        }
        let ghost now = self.activation;
        if self.activation.state != RuneState::Activating {
            return Ok(HitOutcome::Inactive);
        }
        if !self.activation.active[blade as usize] {
            let expected: u32 = match lowest_blade(&self.activation.active) {
                Some(lit) => lit,
                None => 0,
            };
            self.reset_progress(time_ns);
            proof {
                (BigActivation { completed_groups: 0, ..now }).pairs_are_distinct(time_ns);
            }
            return Ok(HitOutcome::WrongBlade { blade, expected });
        }
        let bonus = self.activation.first_hit_ns.is_some();
        if !bonus {
            self.activation.first_hit_ns = Some(time_ns);
        }
        self.activation.active[blade as usize] = false;
        self.activation.hit[blade as usize] = true;
        proof {
            assert(self.activation.active =~= without_blade(now.active, blade as int));
            assert(self.activation.hit =~= with_blade(now.hit, blade as int));
            assert(!now.hit[blade as int]);
        }
        Ok(HitOutcome::GroupHit { blade, group: self.activation.completed_groups, bonus })
    }

    /// Referee trigger: an Inactive rune starts Activating with fresh
    /// progress, and the speed function restarts with parameters drawn from
    /// the seeded stream. Any other state is left alone.
    pub fn activate(&mut self, time_ns: u64) -> (r: Result<(), RuneError>)
        requires
            old(self).wf(),
        ensures
            r == (if time_ns < old(self).activation.time_ns {
                Err(RuneError::TimeReversal)
            } else {
                Ok(())
            }),
            r is Err ==> *final(self) == *old(self),
            r is Ok ==> {
                let now = old(self).activation.advanced(time_ns);
                &&& final(self).activation == now.triggered()
                &&& old(self).wheel.turned(
                    final(self).wheel,
                    old(self).activation.turns(time_ns) + now.trigger_turns(),
                )
            },
            final(self).wf(),
    {
        match self.advance_to(time_ns) {
            Err(error) => {
                return Err(error);
            },
            Ok(()) => {},
        }
        let ghost now = self.activation;
        let ghost turns = self.wheel.turns@;
        if self.activation.state == RuneState::Inactive {
            // The wheel was at its constant speed, whatever the new parameters are.
            let ghost turn = now.turn(time_ns);
            if let Some(stream) = self.activation.rng {
                let mut rng = stream;
                self.activation.motion = BigRuneMotion::drawn(&mut rng);
                self.activation.rng = Some(rng);
            }
            self.change_motion(time_ns, RuneState::Activating);
            let ghost moved = self.activation;
            self.reset_progress(time_ns);
            proof {
                (BigActivation { completed_groups: 0, ..moved }).pairs_are_distinct(time_ns);
                assert(self.wheel.turns@ =~= turns + seq![turn]);
            }
        }
        proof {
            assert(self.wheel.turns@ =~= old(self).wheel.turns@ + (old(self).activation.turns(
                time_ns,
            ) + now.trigger_turns()));
        }
        Ok(())
    }

    /// Referee reset: dark, constant speed, hits ignored.
    pub fn deactivate(&mut self, time_ns: u64) -> (r: Result<(), RuneError>)
        requires
            old(self).wf(),
        ensures
            r == (if time_ns < old(self).activation.time_ns {
                Err(RuneError::TimeReversal)
            } else {
                Ok(())
            }),
            r is Err ==> *final(self) == *old(self),
            r is Ok ==> {
                let now = old(self).activation.advanced(time_ns);
                &&& final(self).activation == now.darkened()
                &&& old(self).wheel.turned(
                    final(self).wheel,
                    old(self).activation.turns(time_ns) + seq![now.turn(time_ns)],
                )
            },
            final(self).wf(),
    {
        match self.advance_to(time_ns) {
            Err(error) => {
                return Err(error);
            },
            Ok(()) => {},
        }
        let ghost now = self.activation;
        self.change_motion(time_ns, RuneState::Inactive);
        self.activation.stage_started_ns = time_ns;
        self.activation.first_hit_ns = None;
        self.activation.completed_groups = 0;
        self.activation.active = [false, false, false, false, false];
        self.activation.hit = [false, false, false, false, false];
        proof {
            assert(self.wheel.turns@ =~= old(self).wheel.turns@ + (old(self).activation.turns(
                time_ns,
            ) + seq![now.turn(time_ns)]));
        }
        Ok(())
    }

    /// Restart activation one second after completion (the training default),
    /// or hold Activated until a referee changes it.
    pub fn set_auto_restart(&mut self, auto_restart: bool)
        ensures
            final(self).activation == (BigActivation { auto_restart, ..old(self).activation }),
            final(self).wheel == old(self).wheel,
            old(self).wf() ==> final(self).wf(),
    {
        self.activation.auto_restart = auto_restart;
    }

    /// Choose target pairs and draw the speed parameters from a seeded stream
    /// instead of the training policy.
    pub fn set_seed(&mut self, seed: u64)
        ensures
            final(self).activation == (BigActivation {
                rng: Some(seeded(seed)),
                ..old(self).activation
            }),
            final(self).wheel == old(self).wheel,
            old(self).wf() ==> final(self).wf(),
    {
        self.activation.rng = Some(Rng::new(seed));
    }

    /// Back to the training policy: the lowest pair and the default motion. A
    /// sinusoid under way ends now, so the wheel keeps its angle.
    pub fn clear_seed(&mut self)
        ensures
            final(self).activation == old(self).activation.unseeded(),
            final(self).activation.motion == BigRuneMotion::training(),
            final(self).activation.rng is None,
            old(self).wheel.turned(final(self).wheel, old(self).activation.unseeding_turns()),
            old(self).wf() ==> final(self).wf(),
    {
        let training = BigRuneMotion::default();
        if self.activation.state == RuneState::Activating && self.activation.motion != training {
            self.wheel.turns.push(
                Turn {
                    from_ns: self.activation.epoch_ns,
                    to_ns: self.activation.time_ns,
                    motion: Some(self.activation.motion),
                },
            );
            self.activation.epoch_ns = self.activation.time_ns;
        }
        self.activation.motion = training;
        self.activation.rng = None;
        proof {
            assert(self.wheel.turns@ =~= old(self).wheel.turns@
                + old(self).activation.unseeding_turns());
        }
    }

    /// The rune's frame at its current time, with the speed function attached
    /// while it is Activating.
    pub fn snapshot(&self) -> (r: RuneSnapshot)
        ensures
            r == self.frame(),
    {
        RuneSnapshot {
            motion: if self.activation.state == RuneState::Activating {
                Some((self.activation.motion, self.activation.epoch_ns))
            } else {
                None
            },
            epoch_ns: self.activation.epoch_ns,
            kind: RuneKind::Big,
            active_blades: self.activation.active,
            completed_groups: self.activation.completed_groups,
            time_ns: self.activation.time_ns,
            hub_pose: self.wheel.hub,
            target_radius_um: self.wheel.target_radius_um,
            state: self.activation.state,
            active_blade: lowest_blade(&self.activation.active),
            activated: self.activation.hit,
            state_since_ns: self.activation.state_since_ns,
        }
    }

    /// The frame that [`BigRune::snapshot`] takes.
    pub open spec fn frame(&self) -> RuneSnapshot {
        RuneSnapshot {
            motion: if self.activation.state == RuneState::Activating {
                Some((self.activation.motion, self.activation.epoch_ns))
            } else {
                None
            },
            epoch_ns: self.activation.epoch_ns,
            kind: RuneKind::Big,
            active_blades: self.activation.active,
            completed_groups: self.activation.completed_groups,
            time_ns: self.activation.time_ns,
            hub_pose: self.wheel.hub,
            target_radius_um: self.wheel.target_radius_um,
            state: self.activation.state,
            active_blade: lowest(self.activation.active),
            activated: self.activation.hit,
            state_since_ns: self.activation.state_since_ns,
        }
    }
}

/// A group takes one required hit: hitting a lit blade opens the bonus second
/// or uses it, closing it completes exactly one group, and the fifth group, no
/// other, completes the rune.
pub proof fn five_groups_activate(rune: BigActivation, t: u64)
    requires
        rune.wf(),
        rune.state == RuneState::Activating,
        rune.first_hit_ns is Some,
        later_by(rune.first_hit_ns->0, BONUS_CLOSE_NS) <= t,
    ensures
        rune.group_closed(t).completed_groups == rune.completed_groups + 1,
        rune.group_closed(t).state == RuneState::Activated <==> rune.completed_groups + 1
            == GROUP_COUNT,
{
}

} // verus!

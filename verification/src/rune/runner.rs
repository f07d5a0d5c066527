//! The rune interface common to both modes.
use super::big::{BigActivation, BigRune};
use super::small::{SmallActivation, SmallRune};
use super::stream::{no_blades, seeded, Rng};
use super::wheel::{BigRuneMotion, Turn, Wheel};
use super::{HitOutcome, RuneError, RuneKind, RuneSnapshot, RuneState};
use crate::binary::Pose;
use vstd::prelude::*;

verus! {

/// Common runner interface; each mode owns its activation state machine.
#[derive(Clone, Debug, PartialEq, Eq)]
pub enum Rune {
    /// A Small Rune: five single targets in sequence.
    Small(SmallRune),
    /// A Big Rune: five pairs of targets, the second optionally a bonus.
    Big(BigRune),
}

/// The activation of a rune of either kind.
pub ghost enum Activation {
    Small(SmallActivation),
    Big(BigActivation),
}

/// What a rune is: where it hangs, how it has turned and where its activation
/// stands.
pub ghost struct RuneModel {
    pub hub: Pose,
    pub target_radius_um: u32,
    pub turns: Seq<Turn>,
    pub activation: Activation,
}

impl View for Rune {
    type V = RuneModel;

    open spec fn view(&self) -> RuneModel {
        match self {
            Rune::Small(r) => RuneModel {
                hub: r.wheel.hub,
                target_radius_um: r.wheel.target_radius_um,
                turns: r.wheel.turns@,
                activation: Activation::Small(r.activation),
            },
            Rune::Big(r) => RuneModel {
                hub: r.wheel.hub,
                target_radius_um: r.wheel.target_radius_um,
                turns: r.wheel.turns@,
                activation: Activation::Big(r.activation),
            },
        }
    }
}

/// A fresh Small Rune that a referee takes over at `t`: it has lit a target
/// since time zero and lapsed ever since.
pub open spec fn taken_over(t: u64, rng: Option<Rng>) -> SmallActivation {
    SmallActivation {
        time_ns: t,
        epoch_ns: t,
        auto_restart: false,
        rng,
        ..SmallActivation::training()
    }
}

/// A dark Big Rune under a referee from `t` on, its first pair drawn and not
/// lit.
pub open spec fn dark_big(t: u64, rng: Option<Rng>) -> BigActivation {
    let drawn = (BigActivation {
        motion: BigRuneMotion::training(),
        time_ns: t,
        epoch_ns: t,
        stage_started_ns: t,
        state_since_ns: t,
        first_hit_ns: None,
        state: RuneState::Inactive,
        completed_groups: 0,
        active: no_blades(),
        hit: no_blades(),
        auto_restart: false,
        rng,
    }).paired(t);
    BigActivation { active: no_blades(), ..drawn }
}

impl RuneModel {
    /// The rune's invariant.
    pub open spec fn wf(self) -> bool {
        &&& self.hub.finite()
        &&& self.target_radius_um > 0
        &&& match self.activation {
            Activation::Small(a) => a.wf(),
            Activation::Big(a) => a.wf(),
        }
    }

    /// Field time of the rune.
    pub open spec fn time_ns(self) -> u64 {
        match self.activation {
            Activation::Small(a) => a.time_ns,
            Activation::Big(a) => a.time_ns,
        }
    }

    /// Inactive, Activating or Activated.
    pub open spec fn state(self) -> RuneState {
        match self.activation {
            Activation::Small(a) => a.state,
            Activation::Big(a) => a.state,
        }
    }

    /// Which mode the rune is in.
    pub open spec fn kind(self) -> RuneKind {
        match self.activation {
            Activation::Small(_) => RuneKind::Small,
            Activation::Big(_) => RuneKind::Big,
        }
    }

    /// Progress of the attempt: blades hit, or groups completed.
    pub open spec fn progress(self) -> int {
        match self.activation {
            Activation::Small(a) => super::stream::marked(a.activated),
            Activation::Big(a) => a.completed_groups as int,
        }
    }

    /// The rune at `t`, when nothing hits it before.
    #[verifier::opaque]
    pub open spec fn advanced(self, t: u64) -> RuneModel {
        match self.activation {
            Activation::Small(a) => RuneModel {
                activation: Activation::Small(a.advanced(t)),
                ..self
            },
            Activation::Big(a) => RuneModel {
                activation: Activation::Big(a.advanced(t)),
                turns: self.turns + a.turns(t),
                ..self
            },
        }
    }

    /// The rune after a hit on `blade` at its time.
    #[verifier::opaque]
    pub open spec fn struck(self, blade: u32) -> RuneModel {
        match self.activation {
            Activation::Small(a) => RuneModel {
                activation: Activation::Small(a.struck(blade)),
                ..self
            },
            Activation::Big(a) => RuneModel {
                activation: Activation::Big(a.struck(blade)),
                ..self
            },
        }
    }

    /// What a hit on `blade` is answered at the rune's time.
    #[verifier::opaque]
    pub open spec fn outcome(self, blade: u32) -> HitOutcome {
        match self.activation {
            Activation::Small(a) => a.outcome(blade),
            Activation::Big(a) => a.outcome(blade),
        }
    }

    /// The rune after a referee trigger at its time.
    #[verifier::opaque]
    pub open spec fn triggered(self) -> RuneModel {
        match self.activation {
            Activation::Small(a) => RuneModel {
                activation: Activation::Small(a.triggered()),
                ..self
            },
            Activation::Big(a) => RuneModel {
                activation: Activation::Big(a.triggered()),
                turns: self.turns + a.trigger_turns(),
                ..self
            },
        }
    }

    /// The rune after a referee reset at its time.
    #[verifier::opaque]
    pub open spec fn darkened(self) -> RuneModel {
        match self.activation {
            Activation::Small(a) => RuneModel {
                activation: Activation::Small(a.darkened()),
                ..self
            },
            Activation::Big(a) => RuneModel {
                activation: Activation::Big(a.darkened()),
                turns: self.turns.push(a.turn(a.time_ns)),
                ..self
            },
        }
    }

    /// The rune with its restart policy set.
    pub open spec fn restarting(self, auto_restart: bool) -> RuneModel {
        match self.activation {
            Activation::Small(a) => RuneModel {
                activation: Activation::Small(SmallActivation { auto_restart, ..a }),
                ..self
            },
            Activation::Big(a) => RuneModel {
                activation: Activation::Big(BigActivation { auto_restart, ..a }),
                ..self
            },
        }
    }

    /// The rune with a target stream.
    pub open spec fn streaming(self, rng: Rng) -> RuneModel {
        match self.activation {
            Activation::Small(a) => RuneModel {
                activation: Activation::Small(SmallActivation { rng: Some(rng), ..a }),
                ..self
            },
            Activation::Big(a) => RuneModel {
                activation: Activation::Big(BigActivation { rng: Some(rng), ..a }),
                ..self
            },
        }
    }

    /// The rune without a target stream, and a Big Rune back at the training
    /// motion.
    pub open spec fn unseeded(self) -> RuneModel {
        match self.activation {
            Activation::Small(a) => RuneModel {
                activation: Activation::Small(SmallActivation { rng: None, ..a }),
                ..self
            },
            Activation::Big(a) => RuneModel {
                turns: self.turns + a.unseeding_turns(),
                activation: Activation::Big(a.unseeded()),
                ..self
            },
        }
    }

    /// The rune as one of another kind at its time, dark and held by a
    /// referee: same hub, same orbit, and the motion under way ended where the new one begins.
    #[verifier::opaque]
    pub open spec fn converted(self, kind: RuneKind) -> RuneModel {
        match (self.activation, kind) {
            (Activation::Small(a), RuneKind::Big) => RuneModel {
                turns: self.turns.push(
                    Turn { from_ns: a.epoch_ns, to_ns: a.time_ns, motion: None },
                ),
                activation: Activation::Big(dark_big(a.time_ns, a.rng)),
                ..self
            },
            (Activation::Big(a), RuneKind::Small) => RuneModel {
                turns: self.turns.push(a.turn(a.time_ns)),
                activation: Activation::Small(
                    taken_over(a.time_ns, a.rng).advanced(a.time_ns).darkened(),
                ),
                ..self
            },
            _ => self,
        }
    }

    /// The rune as one of `kind` at `t`; one that is of that kind already is
    /// left alone.
    pub open spec fn as_kind(self, kind: RuneKind, t: u64) -> RuneModel {
        if kind == self.kind() {
            self
        } else {
            self.advanced(t).converted(kind)
        }
    }

    /// Either kind gives the same result whether the clock jumps or steps.
    pub proof fn advancing_in_steps(self, sooner: u64, later: u64)
        requires
            self.wf(),
            self.time_ns() <= sooner <= later,
        ensures
            self.advanced(sooner).advanced(later) == self.advanced(later),
    {
        reveal(RuneModel::advanced);
        match self.activation {
            Activation::Small(a) => a.advancing_in_steps(sooner, later),
            Activation::Big(a) => {
                a.advancing_in_steps(sooner, later);
                let t = self.turns;
                assert(t + a.turns(sooner) + a.advanced(sooner).turns(later) =~= t + (a.turns(
                    sooner,
                ) + a.advanced(sooner).turns(later)));
            },
        }
    }
}

impl Rune {
    /// The rune's invariant.
    pub open spec fn wf(self) -> bool {
        self@.wf()
    }

    /// A copy of the rune.
    pub fn copied(&self) -> (r: Rune)
        ensures
            r@ == self@,
    {
        match self {
            Rune::Small(r) => Rune::Small(
                SmallRune { wheel: r.wheel.copied(), activation: r.activation },
            ),
            Rune::Big(r) => Rune::Big(
                BigRune { wheel: r.wheel.copied(), activation: r.activation },
            ),
        }
    }

    /// Which mode this rune is in.
    pub fn kind(&self) -> (r: RuneKind)
        ensures
            r == self@.kind(),
    {
        match self {
            Rune::Small(_) => RuneKind::Small,
            Rune::Big(_) => RuneKind::Big,
        }
    }

    /// Field time of the rune.
    pub fn time_ns(&self) -> (r: u64)
        ensures
            r == self@.time_ns(),
    {
        match self {
            Rune::Small(r) => r.activation.time_ns,
            Rune::Big(r) => r.activation.time_ns,
        }
    }

    /// Re-check what the constructors enforce: the wheel, and the bounds of a
    /// Big Rune's speed function. A rune that came back from a decoder never
    /// went through them. `unit_rotation` says whether the hub rotation has
    /// unit length.
    pub fn validate(&self, unit_rotation: bool) -> (r: Result<(), RuneError>)
        ensures
            r == (if !unit_rotation || !self@.hub.finite() || self@.target_radius_um == 0 {
                Err(RuneError::Pose)
            } else {
                match self@.activation {
                    Activation::Big(a) if !a.motion.wf() || a.time_ns < a.epoch_ns => Err(
                        RuneError::Motion,
                    ),
                    _ => Ok(()),
                }
            }),
    {
        let wheel = match self {
            Rune::Small(r) => &r.wheel,
            Rune::Big(r) => &r.wheel,
        };
        if !unit_rotation || !wheel.is_consistent() {
            return Err(RuneError::Pose);
        }
        if let Rune::Big(r) = self {
            if !r.activation.motion.is_valid() || r.activation.time_ns < r.activation.epoch_ns {
                return Err(RuneError::Motion);
            }
        }
        Ok(())
    }

    /// Whether the invariant holds, for a rune that no constructor made.
    pub fn is_consistent(&self) -> (r: bool)
        ensures
            r == self.wf(),
    {
        match self {
            Rune::Small(r) => r.is_consistent(),
            Rune::Big(r) => r.is_consistent(),
        }
    }

    /// Whether the rune is Inactive, Activating or Activated.
    pub fn state(&self) -> (r: RuneState)
        ensures
            r == self@.state(),
    {
        match self {
            Rune::Small(r) => r.activation.state,
            Rune::Big(r) => r.activation.state,
        }
    }

    /// Progress of the attempt: blades hit on a Small Rune, groups completed
    /// on a Big Rune.
    pub fn completed_groups(&self) -> (r: u32)
        ensures
            r == self@.progress(),
    {
        match self {
            Rune::Small(r) => super::stream::count_marked(&r.activation.activated),
            Rune::Big(r) => r.activation.completed_groups,
        }
    }

    /// The rune's frame at its current time, in either mode.
    pub fn snapshot(&self) -> (r: RuneSnapshot)
        ensures
            r == (match *self {
                Rune::Small(rune) => rune.frame(),
                Rune::Big(rune) => rune.frame(),
            }),
    {
        match self {
            Rune::Small(r) => r.snapshot(),
            Rune::Big(r) => r.snapshot(),
        }
    }

    /// Hand out the stretches of rotation that ended since the last call.
    pub fn take_turns(&mut self) -> (r: Vec<Turn>)
        ensures
            r@ == old(self)@.turns,
            final(self)@ == (RuneModel { turns: Seq::empty(), ..old(self)@ }),
            old(self).wf() ==> final(self).wf(),
    {
        match self {
            Rune::Small(r) => r.wheel.take_turns(),
            Rune::Big(r) => r.wheel.take_turns(),
        }
    }

    /// Advance the rune to an absolute simulation timestamp. A time before the
    /// rune's own is refused.
    pub fn advance_to(&mut self, time_ns: u64) -> (r: Result<(), RuneError>)
        requires
            old(self).wf(),
        ensures
            r == (if time_ns < old(self)@.time_ns() {
                Err(RuneError::TimeReversal)
            } else {
                Ok(())
            }),
            final(self)@ == (if r is Err {
                old(self)@
            } else {
                old(self)@.advanced(time_ns)
            }),
            r is Ok ==> final(self)@.time_ns() == time_ns,
            final(self)@.kind() == old(self)@.kind(),
            final(self).wf(),
    {
        proof {
            reveal(RuneModel::advanced);
        }
        match self {
            Rune::Small(r) => r.advance_to(time_ns),
            Rune::Big(r) => r.advance_to(time_ns),
        }
    }

    /// Score a hit on `blade` at `time_ns` and report what the rune did with
    /// it. Invalid blade indices and backwards timestamps are refused and
    /// leave the rune unchanged.
    pub fn hit(&mut self, time_ns: u64, blade: u32) -> (r: Result<HitOutcome, RuneError>)
        requires
            old(self).wf(),
        ensures
            r == (if blade >= 5 {
                Err(RuneError::Blade)
            } else if time_ns < old(self)@.time_ns() {
                Err(RuneError::TimeReversal)
            } else {
                Ok(old(self)@.advanced(time_ns).outcome(blade))
            }),
            final(self)@ == (if r is Err {
                old(self)@
            } else {
                old(self)@.advanced(time_ns).struck(blade)
            }),
            r is Ok ==> final(self)@.time_ns() == time_ns,
            final(self)@.kind() == old(self)@.kind(),
            final(self).wf(),
    {
        proof {
            reveal(RuneModel::advanced);
            reveal(RuneModel::struck);
            reveal(RuneModel::outcome);
        }
        match self {
            Rune::Small(r) => r.hit(time_ns, blade),
            Rune::Big(r) => r.hit(time_ns, blade),
        }
    }

    /// Referee trigger: an Inactive rune starts Activating with fresh
    /// progress. A rune that is already Activating or Activated is left alone.
    pub fn activate(&mut self, time_ns: u64) -> (r: Result<(), RuneError>)
        requires
            old(self).wf(),
        ensures
            r == (if time_ns < old(self)@.time_ns() {
                Err(RuneError::TimeReversal)
            } else {
                Ok(())
            }),
            final(self)@ == (if r is Err {
                old(self)@
            } else {
                old(self)@.advanced(time_ns).triggered()
            }),
            r is Ok ==> final(self)@.time_ns() == time_ns,
            final(self)@.kind() == old(self)@.kind(),
            final(self).wf(),
    {
        proof {
            reveal(RuneModel::advanced);
            reveal(RuneModel::triggered);
        }
        let r = match self {
            Rune::Small(r) => r.activate(time_ns),
            Rune::Big(r) => r.activate(time_ns),
        };
        proof {
            if r is Ok {
                assert(self@.turns =~= old(self)@.advanced(time_ns).triggered().turns);
            }
        }
        r
    }

    /// Referee reset: the rune goes dark and ignores hits until activated.
    pub fn deactivate(&mut self, time_ns: u64) -> (r: Result<(), RuneError>)
        requires
            old(self).wf(),
        ensures
            r == (if time_ns < old(self)@.time_ns() {
                Err(RuneError::TimeReversal)
            } else {
                Ok(())
            }),
            final(self)@ == (if r is Err {
                old(self)@
            } else {
                old(self)@.advanced(time_ns).darkened()
            }),
            r is Ok ==> final(self)@.time_ns() == time_ns,
            final(self)@.kind() == old(self)@.kind(),
            final(self)@.state() == (if r is Ok { RuneState::Inactive } else { old(self)@.state() }),
            final(self).wf(),
    {
        proof {
            reveal(RuneModel::advanced);
            reveal(RuneModel::darkened);
        }
        let r = match self {
            Rune::Small(r) => r.deactivate(time_ns),
            Rune::Big(r) => r.deactivate(time_ns),
        };
        proof {
            if r is Ok {
                assert(self@.turns =~= old(self)@.advanced(time_ns).darkened().turns);
            }
        }
        r
    }

    /// Restart activation one second after completion, or hold Activated until
    /// a referee changes it.
    pub fn set_auto_restart(&mut self, auto_restart: bool)
        ensures
            final(self)@ == old(self)@.restarting(auto_restart),
            old(self).wf() ==> final(self).wf(),
    {
        match self {
            Rune::Small(r) => r.set_auto_restart(auto_restart),
            Rune::Big(r) => r.set_auto_restart(auto_restart),
        }
    }

    /// Choose targets, and for a Big Rune the speed parameters, from a seeded
    /// stream so every peer sees the same sequence.
    pub fn set_seed(&mut self, seed: u64)
        ensures
            final(self)@ == old(self)@.streaming(seeded(seed)),
            old(self).wf() ==> final(self).wf(),
    {
        match self {
            Rune::Small(r) => r.set_seed(seed),
            Rune::Big(r) => r.set_seed(seed),
        }
    }

    /// Back to the training policy: the lowest unhit blade, or the lowest pair
    /// and the default motion.
    pub fn clear_seed(&mut self)
        ensures
            final(self)@ == old(self)@.unseeded(),
            match final(self)@.activation {
                Activation::Small(a) => a.rng is None,
                Activation::Big(a) => a.rng is None && a.motion == BigRuneMotion::training(),
            },
            final(self)@.time_ns() == old(self)@.time_ns(),
            old(self).wf() ==> final(self).wf(),
    {
        match self {
            Rune::Small(r) => r.clear_seed(),
            Rune::Big(r) => r.clear_seed(),
        }
    }

    /// Replace the rune with one of another kind at the same hub, orbit and
    /// current angle, Inactive and referee controlled. Same kind: no change.
    pub fn convert(&mut self, kind: RuneKind, time_ns: u64) -> (r: Result<(), RuneError>)
        requires
            old(self).wf(),
        ensures
            r == (if kind != old(self)@.kind() && time_ns < old(self)@.time_ns() {
                Err(RuneError::TimeReversal)
            } else {
                Ok(())
            }),
            final(self)@ == (if r is Err {
                old(self)@
            } else {
                old(self)@.as_kind(kind, time_ns)
            }),
            r is Ok ==> final(self)@.kind() == kind,
            final(self)@.time_ns() == (if r is Err || kind == old(self)@.kind() {
                old(self)@.time_ns()
            } else {
                time_ns
            }),
            final(self).wf(),
    {
        proof {
            reveal(RuneModel::advanced);
            reveal(RuneModel::converted);
        }
        if self.kind() == kind {
            return Ok(());
        }
        match self.advance_to(time_ns) {
            Err(error) => {
                return Err(error);
            },
            Ok(()) => {},
        }
        match self {
            Rune::Small(r) => {
                let mut turns = r.wheel.take_turns();
                turns.push(
                    Turn { from_ns: r.activation.epoch_ns, to_ns: time_ns, motion: None },
                );
                let mut big = BigRune {
                    wheel: Wheel {
                        hub: r.wheel.hub,
                        target_radius_um: r.wheel.target_radius_um,
                        turns,
                    },
                    activation: BigActivation {
                        motion: BigRuneMotion::default(),
                        time_ns,
                        epoch_ns: time_ns,
                        stage_started_ns: time_ns,
                        state_since_ns: time_ns,
                        first_hit_ns: None,
                        state: RuneState::Inactive,
                        completed_groups: 0,
                        active: [false, false, false, false, false],
                        hit: [false, false, false, false, false],
                        auto_restart: false,
                        rng: r.activation.rng,
                    },
                };
                big.select_pair(time_ns);
                big.activation.active = [false, false, false, false, false];
                *self = Rune::Big(big);
            },
            Rune::Big(r) => {
                let mut turns = r.wheel.take_turns();
                let motion = if r.activation.state == RuneState::Activating {
                    Some(r.activation.motion)
                } else {
                    None
                };
                turns.push(Turn { from_ns: r.activation.epoch_ns, to_ns: time_ns, motion });
                let mut small = SmallRune {
                    wheel: Wheel {
                        hub: r.wheel.hub,
                        target_radius_um: r.wheel.target_radius_um,
                        turns,
                    },
                    activation: SmallActivation::start(),
                };
                small.activation.time_ns = time_ns;
                small.activation.epoch_ns = time_ns;
                small.activation.auto_restart = false;
                small.activation.rng = r.activation.rng;
                let darkened = small.deactivate(time_ns);
                *self = Rune::Small(small);
                return darkened;
            },
        }
        Ok(())
    }
}

/// A conversion keeps the hub and the orbit, and the new motion begins where
/// the old one ends, so the wheel keeps its angle; the new rune is dark and
/// does not restart on its own.
pub proof fn conversion_keeps_the_angle(rune: RuneModel, kind: RuneKind)
    requires
        rune.wf(),
        kind != rune.kind(),
    ensures
        rune.converted(kind).kind() == kind,
        rune.converted(kind).state() == RuneState::Inactive,
        rune.converted(kind).time_ns() == rune.time_ns(),
        rune.converted(kind).hub == rune.hub,
        rune.converted(kind).target_radius_um == rune.target_radius_um,
        rune.converted(kind).turns.drop_last() == rune.turns,
        rune.converted(kind).turns.last().to_ns == rune.time_ns(),
        match rune.converted(kind).activation {
            Activation::Small(a) => a.epoch_ns == rune.time_ns() && !a.auto_restart,
            Activation::Big(a) => a.epoch_ns == rune.time_ns() && !a.auto_restart,
        },
{
    reveal(RuneModel::converted);
    match rune.activation {
        Activation::Big(a) => {
            taken_over(a.time_ns, a.rng).advancing_is_wf(a.time_ns);
        },
        Activation::Small(_) => {},
    }
    assert(rune.converted(kind).turns.drop_last() =~= rune.turns);
}

} // verus!

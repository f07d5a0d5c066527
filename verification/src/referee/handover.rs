//! Runes between training and a match.
use super::model::{controlled_rune, released_rune};
use crate::rune::laws::{
    a_rune_is_its_activation, referees_light_and_darken_big_runes,
    referees_light_and_darken_small_runes, small_runes_hold_their_state,
};
use crate::rune::runner::{conversion_keeps_the_angle, Activation, RuneModel};
use crate::rune::stream::{seeded, Rng};
use crate::rune::wheel::BigRuneMotion;
use crate::rune::{RuneKind, RuneState};
use vstd::prelude::*;

verus! {

/// The target stream of a rune.
pub open spec fn stream_of(rune: RuneModel) -> Option<Rng> {
    match rune.activation {
        Activation::Small(a) => a.rng,
        Activation::Big(a) => a.rng,
    }
}

/// Whether a rune restarts by itself.
pub open spec fn restarts(rune: RuneModel) -> bool {
    match rune.activation {
        Activation::Small(a) => a.auto_restart,
        Activation::Big(a) => a.auto_restart,
    }
}

/// The speed of a rune that has one of its own.
pub open spec fn speed_of(rune: RuneModel) -> Option<BigRuneMotion> {
    match rune.activation {
        Activation::Small(_) => None,
        Activation::Big(a) => Some(a.motion),
    }
}

/// Lapsing keeps the policy and the stream.
proof fn small_lapses_keep(a: crate::rune::small::SmallActivation, n: nat)
    ensures
        a.lapsed(n).auto_restart == a.auto_restart,
        a.lapsed(n).rng is Some <==> a.rng is Some,
    decreases n,
{
    if n > 0 {
        small_lapses_keep(a, (n - 1) as nat);
    }
}

/// Lapsing keeps the policy, the stream and the speed.
proof fn big_lapses_keep(a: crate::rune::big::BigActivation, n: nat)
    ensures
        a.lapsed(n).auto_restart == a.auto_restart,
        a.lapsed(n).rng is Some <==> a.rng is Some,
        a.lapsed(n).motion == a.motion,
    decreases n,
{
    if n > 0 {
        big_lapses_keep(a, (n - 1) as nat);
    }
}

/// Time takes neither a rune's policy nor its stream nor its speed.
pub proof fn time_keeps_the_policy(rune: RuneModel, t: u64)
    requires
        rune.wf(),
        rune.time_ns() <= t,
    ensures
        rune.advanced(t).wf(),
        rune.advanced(t).time_ns() == t,
        rune.advanced(t).kind() == rune.kind(),
        restarts(rune.advanced(t)) == restarts(rune),
        stream_of(rune.advanced(t)) is Some <==> stream_of(rune) is Some,
        speed_of(rune.advanced(t)) == speed_of(rune),
        rune.state() == RuneState::Inactive ==> rune.advanced(t).state() == RuneState::Inactive,
{
    reveal(RuneModel::advanced);
    match rune.activation {
        Activation::Small(a) => {
            a.advancing_is_wf(t);
            let ready = a.restarted(t);
            small_lapses_keep(ready, ready.windows(t));
            if a.state == RuneState::Inactive {
                small_runes_hold_their_state(a, t);
            }
        },
        Activation::Big(a) => {
            a.advancing_is_wf(t);
            let ready = a.group_closed(t).restarted(t);
            big_lapses_keep(ready, ready.windows(t));
        },
    }
}

/// A rune that is darkened is dark, and keeps its policy, stream and speed.
pub proof fn darkening_keeps_the_policy(rune: RuneModel)
    requires
        rune.wf(),
    ensures
        rune.darkened().wf(),
        rune.darkened().state() == RuneState::Inactive,
        rune.darkened().time_ns() == rune.time_ns(),
        rune.darkened().kind() == rune.kind(),
        restarts(rune.darkened()) == restarts(rune),
        stream_of(rune.darkened()) == stream_of(rune),
        speed_of(rune.darkened()) == speed_of(rune),
{
    a_rune_is_its_activation(rune, 0, 0);
    match rune.activation {
        Activation::Small(a) => referees_light_and_darken_small_runes(a),
        Activation::Big(a) => referees_light_and_darken_big_runes(a),
    }
}

/// A dark rune without a seed that is triggered is lit, and keeps its policy and
/// speed.
proof fn triggering_keeps_the_policy(rune: RuneModel)
    requires
        rune.wf(),
        rune.state() == RuneState::Inactive,
        stream_of(rune) is None,
    ensures
        rune.triggered().state() == RuneState::Activating,
        rune.triggered().time_ns() == rune.time_ns(),
        rune.triggered().kind() == rune.kind(),
        restarts(rune.triggered()) == restarts(rune),
        stream_of(rune.triggered()) is None,
        speed_of(rune.triggered()) == speed_of(rune),
{
    a_rune_is_its_activation(rune, 0, 0);
    match rune.activation {
        Activation::Small(a) => referees_light_and_darken_small_runes(a),
        Activation::Big(a) => referees_light_and_darken_big_runes(a),
    }
}

/// A rune made one of a kind is of that kind, its stream going along.
proof fn conversion_keeps_the_stream(rune: RuneModel, kind: RuneKind, now: u64)
    requires
        rune.wf(),
        rune.time_ns() <= now,
    ensures
        rune.as_kind(kind, now).wf(),
        rune.as_kind(kind, now).kind() == kind,
        rune.as_kind(kind, now).time_ns() <= now,
        stream_of(rune.as_kind(kind, now)) is Some <==> stream_of(rune) is Some,
        !restarts(rune) ==> !restarts(rune.as_kind(kind, now)),
{
    if kind != rune.kind() {
        time_keeps_the_policy(rune, now);
        let then = rune.advanced(now);
        conversion_keeps_the_angle(then, kind);
        reveal(RuneModel::converted);
        match then.activation {
            Activation::Small(a) => {
                let dark = crate::rune::runner::dark_big(a.time_ns, a.rng);
                assert(then.converted(kind).activation == Activation::Big(dark));
                assert(dark.wf());
            },
            Activation::Big(a) => {
                let fresh = crate::rune::runner::taken_over(a.time_ns, a.rng);
                assert(fresh.wf());
                fresh.advancing_is_wf(a.time_ns);
                let ready = fresh.restarted(a.time_ns);
                small_lapses_keep(ready, ready.windows(a.time_ns));
                referees_light_and_darken_small_runes(fresh.advanced(a.time_ns));
            },
        }
    }
}

/// A rune that a referee takes over is a dark Small Rune of its own stream that
/// does not restart by itself.
pub proof fn taken_runes_are_dark(rune: RuneModel, seed: u64, now: u64)
    requires
        rune.wf(),
        rune.time_ns() <= now,
    ensures
        ({
            let taken = controlled_rune(rune, seed, now);
            &&& taken.kind() == RuneKind::Small
            &&& taken.state() == RuneState::Inactive
            &&& taken.time_ns() == now
            &&& !restarts(taken)
            &&& stream_of(taken) is Some
        }),
{
    let a = rune.restarting(false).streaming(seeded(seed));
    conversion_keeps_the_stream(a, RuneKind::Small, now);
    let b = a.as_kind(RuneKind::Small, now);
    time_keeps_the_policy(b, now);
    darkening_keeps_the_policy(b.advanced(now));
}

/// A rune that goes back to training is of the kind it was made as, lit,
/// without a seed, and restarts by itself.
pub proof fn returned_runes_train(rune: RuneModel, kind: RuneKind, now: u64)
    requires
        rune.wf(),
        rune.time_ns() <= now,
    ensures
        ({
            let back = released_rune(rune, kind, now);
            &&& back.kind() == kind
            &&& back.state() == RuneState::Activating
            &&& back.time_ns() == now
            &&& restarts(back)
            &&& stream_of(back) is None
            &&& speed_of(back) == (if kind == RuneKind::Big {
                Some(BigRuneMotion::training())
            } else {
                None
            })
        }),
{
    conversion_keeps_the_stream(rune, kind, now);
    let a = rune.as_kind(kind, now).restarting(true).unseeded();
    time_keeps_the_policy(a, now);
    let b = a.advanced(now);
    darkening_keeps_the_policy(b);
    time_keeps_the_policy(b.darkened(), now);
    triggering_keeps_the_policy(b.darkened().advanced(now));
}

} // verus!

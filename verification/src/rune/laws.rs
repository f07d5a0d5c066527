//! What a rune does with time, hits and its referee.
use super::big::{BigActivation, BigRune};
use super::runner::{Activation, RuneModel};
use super::small::{SmallActivation, SmallRune};
use super::stream::{marked, picked, picked_is_candidate, picked_rng, seeded, Rng};
use super::wheel::{BigRuneMotion, Turn, Wheel};
use super::{HitOutcome, RuneKind, RuneState};
use crate::binary::Pose;
use vstd::prelude::*;

verus! {

/// No blade of five.
pub open spec fn none_of(mask: [bool; 5]) -> bool {
    !mask[0] && !mask[1] && !mask[2] && !mask[3] && !mask[4]
}

/// Every blade of five.
pub open spec fn all_of(mask: [bool; 5]) -> bool {
    mask[0] && mask[1] && mask[2] && mask[3] && mask[4]
}

/// A Small Rune's lit target waits two and a half seconds for its hit, to the
/// nanosecond. Until then nothing changes; after that the attempt starts over
/// with no blade hit, and the rune goes on Activating.
pub proof fn a_small_target_waits_two_and_a_half_seconds(rune: SmallActivation, t: u64)
    requires
        rune.wf(),
        rune.state == RuneState::Activating,
        rune.time_ns <= t,
    ensures
        t - rune.stage_started_ns <= 2_500_000_000 ==> rune.advanced(t) == (SmallActivation {
            time_ns: t,
            ..rune
        }),
        t - rune.stage_started_ns > 2_500_000_000 ==> {
            &&& rune.advanced(t).state == RuneState::Activating
            &&& none_of(rune.advanced(t).activated)
            &&& rune.advanced(t).active_blade is Some
            &&& rune.advanced(t).stage_started_ns > rune.stage_started_ns
            &&& t - rune.advanced(t).stage_started_ns <= 2_500_000_000
        },
        rune.advanced(t).time_ns == t,
        rune.advanced(t).state_since_ns == rune.state_since_ns,
{
    rune.windows_fit(t);
    let n = rune.windows(t);
    if t - rune.stage_started_ns <= 2_500_000_000 {
        assert(n == 0) by (nonlinear_arith)
            requires
                rune.stage_started_ns + n * 2_500_000_001 <= t,
                t - rune.stage_started_ns <= 2_500_000_000,
        ;
    } else {
        assert(n > 0) by (nonlinear_arith)
            requires
                t < rune.stage_started_ns + n * 2_500_000_001 + 2_500_000_001,
                t - rune.stage_started_ns > 2_500_000_000,
        ;
        rune.lapses_keep_shape(n, t);
        assert(n * 2_500_000_001 > 0) by (nonlinear_arith)
            requires
                n > 0,
        ;
        let before = rune.lapsed((n - 1) as nat);
        assert(rune.lapsed(n).activated == before.reset(
            (before.stage_started_ns + 2_500_000_001) as u64,
        ).activated);
    }
}

/// A dark rune stays dark whatever time passes. One that is Activated holds; in
/// training it starts over a second later, and under a referee it does not.
pub proof fn small_runes_hold_their_state(rune: SmallActivation, t: u64)
    requires
        rune.wf(),
        rune.time_ns <= t,
    ensures
        rune.state == RuneState::Inactive ==> rune.advanced(t) == (SmallActivation {
            time_ns: t,
            ..rune
        }),
        rune.state == RuneState::Activated && (!rune.auto_restart || t - rune.stage_started_ns
            < 1_000_000_000) ==> rune.advanced(t) == (SmallActivation { time_ns: t, ..rune }),
        rune.state == RuneState::Activated && rune.auto_restart && t - rune.stage_started_ns
            >= 1_000_000_000 ==> {
            &&& rune.advanced(t).state == RuneState::Activating
            &&& none_of(rune.advanced(t).activated)
            &&& rune.advanced(t).state_since_ns == rune.stage_started_ns + 1_000_000_000
        },
{
    if rune.state == RuneState::Activated && rune.auto_restart && t - rune.stage_started_ns
        >= 1_000_000_000 {
        let again = rune.restarted(t);
        let fresh = SmallActivation { time_ns: t, ..again };
        picked_is_candidate(super::stream::all_blades(), rune.rng);
        assert(super::stream::all_blades()[0]);
        assert(fresh.wf());
        a_small_target_waits_two_and_a_half_seconds(fresh, t);
        assert(fresh.windows(t) == again.windows(t));
        let n = again.windows(t);
        lapses_ignore_the_clock(again, t, n);
        assert(fresh.restarted(t) == fresh);
    }
}

/// Lapsing does not look at the clock.
proof fn lapses_ignore_the_clock(rune: SmallActivation, clock: u64, n: nat)
    ensures
        (SmallActivation { time_ns: clock, ..rune }).lapsed(n) == (SmallActivation {
            time_ns: clock,
            ..rune.lapsed(n)
        }),
    decreases n,
{
    if n > 0 {
        lapses_ignore_the_clock(rune, clock, (n - 1) as nat);
    }
}

/// A hit on the lit target marks that blade and no other, and lights another
/// that is not hit yet; the fifth hit leaves none and the rune is Activated. A
/// hit on another blade loses every mark, and where nothing is lit a hit does
/// nothing. The answer tells which it was.
pub proof fn small_hits_count(rune: SmallActivation, blade: u32)
    requires
        rune.wf(),
        blade < 5,
    ensures
        ({
            let after = rune.struck(blade);
            let answer = rune.outcome(blade);
            &&& rune.state != RuneState::Activating ==> after == rune && answer
                == HitOutcome::Inactive
            &&& rune.state == RuneState::Activating && rune.active_blade != Some(blade) ==> {
                &&& none_of(after.activated)
                &&& after.state == RuneState::Activating
                &&& after.active_blade is Some
                &&& after.stage_started_ns == rune.time_ns
                &&& answer == (HitOutcome::WrongBlade { blade, expected: rune.active_blade->0 })
            }
            &&& rune.state == RuneState::Activating && rune.active_blade == Some(blade) ==> {
                &&& after.activated[blade as int]
                &&& forall|b: int|
                    0 <= b < 5 && b != blade ==> #[trigger] after.activated[b]
                        == rune.activated[b]
                &&& after.stage_started_ns == rune.time_ns
                &&& !all_of(after.activated) ==> {
                    &&& after.state == RuneState::Activating
                    &&& after.active_blade is Some
                    &&& after.active_blade->0 < 5
                    &&& !after.activated[after.active_blade->0 as int]
                    &&& answer == (HitOutcome::Accepted {
                        blade,
                        next_blade: after.active_blade->0,
                    })
                }
                &&& all_of(after.activated) ==> {
                    &&& after.state == RuneState::Activated
                    &&& after.active_blade is None
                    &&& after.state_since_ns == rune.time_ns
                    &&& answer == (HitOutcome::Activated { blade })
                }
            }
            &&& after.time_ns == rune.time_ns
            &&& after.auto_restart == rune.auto_restart
            &&& after.epoch_ns == rune.epoch_ns
        }),
{
    let marked_now = super::stream::with_blade(rune.activated, blade as int);
    picked_is_candidate(super::stream::unhit(marked_now), rune.rng);
    picked_is_candidate(super::stream::all_blades(), rune.rng);
    assert(super::stream::all_blades()[0]);
}

/// Without a seed the lowest blade of those in question is lit.
pub proof fn unseeded_runes_light_the_lowest_blade(candidates: [bool; 5], blade: int)
    requires
        0 <= blade < 5,
        candidates[blade],
        forall|b: int| 0 <= b < blade ==> !#[trigger] candidates[b],
    ensures
        picked(candidates, None) == Some(blade as u32),
{
    reveal_with_fuel(super::stream::options, 6);
    assert(blade == 0 || !candidates[0]);
    assert(blade <= 1 || !candidates[1]);
    assert(blade <= 2 || !candidates[2]);
    assert(blade <= 3 || !candidates[3]);
}

/// A referee's trigger lights a dark rune and leaves any other alone; a reset
/// leaves any rune dark with nothing hit. Either takes effect at once.
pub proof fn referees_light_and_darken_small_runes(rune: SmallActivation)
    requires
        rune.wf(),
    ensures
        rune.state != RuneState::Inactive ==> rune.triggered() == rune,
        rune.state == RuneState::Inactive ==> {
            &&& rune.triggered().state == RuneState::Activating
            &&& rune.triggered().active_blade is Some
            &&& none_of(rune.triggered().activated)
            &&& rune.triggered().state_since_ns == rune.time_ns
            &&& rune.triggered().stage_started_ns == rune.time_ns
        },
        rune.darkened().state == RuneState::Inactive,
        rune.darkened().active_blade is None,
        none_of(rune.darkened().activated),
        rune.darkened().state_since_ns == rune.time_ns,
        rune.darkened().auto_restart == rune.auto_restart,
        rune.darkened().rng == rune.rng,
{
    picked_is_candidate(super::stream::all_blades(), rune.rng);
    assert(super::stream::all_blades()[0]);
}

/// A Big Rune's pair waits two and a half seconds for its first hit, to the
/// nanosecond; then every completed group is lost and another pair lit.
pub proof fn a_pair_waits_two_and_a_half_seconds(rune: BigActivation, t: u64)
    requires
        rune.wf(),
        rune.state == RuneState::Activating,
        rune.first_hit_ns is None,
        rune.time_ns <= t,
    ensures
        t - rune.stage_started_ns <= 2_500_000_000 ==> rune.advanced(t) == (BigActivation {
            time_ns: t,
            ..rune
        }),
        t - rune.stage_started_ns > 2_500_000_000 ==> {
            &&& rune.advanced(t).state == RuneState::Activating
            &&& rune.advanced(t).completed_groups == 0
            &&& none_of(rune.advanced(t).hit)
            &&& t - rune.advanced(t).stage_started_ns <= 2_500_000_000
        },
        rune.advanced(t).motion == rune.motion,
        rune.advanced(t).epoch_ns == rune.epoch_ns,
        rune.advanced(t).first_hit_ns is None,
{
    rune.windows_fit(t);
    let n = rune.windows(t);
    if t - rune.stage_started_ns <= 2_500_000_000 {
        assert(n == 0) by (nonlinear_arith)
            requires
                rune.stage_started_ns + n * 2_500_000_001 <= t,
                t - rune.stage_started_ns <= 2_500_000_000,
        ;
    } else {
        assert(n > 0) by (nonlinear_arith)
            requires
                t < rune.stage_started_ns + n * 2_500_000_001 + 2_500_000_001,
                t - rune.stage_started_ns > 2_500_000_000,
        ;
        rune.lapses_keep_shape(n, t);
        let before = rune.lapsed((n - 1) as nat);
        assert(rune.lapsed(n).completed_groups == before.reset(
            (before.stage_started_ns + 2_500_000_001) as u64,
        ).completed_groups);
    }
}

/// A pair that was hit once stays for a second, to the nanosecond, for its
/// bonus; then the group is complete. The fifth leaves the rune Activated with
/// every blade lit, any other is followed by a fresh pair at once.
pub proof fn a_group_closes_a_second_after_its_first_hit(rune: BigActivation, t: u64)
    requires
        rune.wf(),
        rune.state == RuneState::Activating,
        rune.first_hit_ns is Some,
        rune.time_ns <= t,
        rune.first_hit_ns->0 <= u64::MAX - 1_000_000_001,
    ensures
        ({
            let first = rune.first_hit_ns->0;
            let after = rune.advanced(t);
            &&& t - first <= 1_000_000_000 ==> after == (BigActivation { time_ns: t, ..rune })
            &&& 1_000_000_000 < t - first <= 3_500_000_001 && rune.completed_groups < 4 ==> {
                &&& after.completed_groups == rune.completed_groups + 1
                &&& after.state == RuneState::Activating
                &&& after.stage_started_ns == first + 1_000_000_001
                &&& after.first_hit_ns is None
                &&& none_of(after.hit)
                &&& marked(after.active) == 2
            }
            &&& 1_000_000_000 < t - first && rune.completed_groups == 4 && !rune.auto_restart ==> {
                &&& after.state == RuneState::Activated
                &&& after.completed_groups == 5
                &&& all_of(after.hit)
                &&& none_of(after.active)
                &&& after.state_since_ns == first + 1_000_000_001
            }
        }),
{
    let first = rune.first_hit_ns->0;
    let closed = rune.group_closed(t);
    rune.ready_is_wf(t);
    if 1_000_000_000 < t - first && rune.completed_groups < 4 {
        let end = (first + 1_000_000_001) as u64;
        assert(closed == (BigActivation {
            completed_groups: (rune.completed_groups + 1) as u32,
            ..rune
        }).paired(end));
        (BigActivation {
            completed_groups: (rune.completed_groups + 1) as u32,
            ..rune
        }).pairs_are_distinct(end);
        if t - first <= 3_500_000_001 {
            closed.windows_fit(t);
            let n = closed.windows(t);
            assert(n == 0) by (nonlinear_arith)
                requires
                    closed.stage_started_ns + n * 2_500_000_001 <= t,
                    t - closed.stage_started_ns <= 2_500_000_000,
            ;
        }
    }
}

/// A dark Big Rune stays dark, and one that is Activated under a referee holds;
/// in training it starts over a second later.
pub proof fn big_runes_hold_their_state(rune: BigActivation, t: u64)
    requires
        rune.wf(),
        rune.time_ns <= t,
        rune.stage_started_ns <= u64::MAX - 1_000_000_000,
    ensures
        rune.state == RuneState::Inactive ==> rune.advanced(t) == (BigActivation {
            time_ns: t,
            ..rune
        }),
        rune.state == RuneState::Activated && (!rune.auto_restart || t - rune.stage_started_ns
            < 1_000_000_000) ==> rune.advanced(t) == (BigActivation { time_ns: t, ..rune }),
        rune.state == RuneState::Activated && rune.auto_restart && t - rune.stage_started_ns
            >= 1_000_000_000 ==> {
            &&& rune.restarted(t).state == RuneState::Activating
            &&& rune.restarted(t).completed_groups == 0
            &&& rune.restarted(t).stage_started_ns == rune.stage_started_ns + 1_000_000_000
        },
{
}

/// A hit on a lit blade of the pair puts it out and marks it, the first of a
/// pair as such and the other as its bonus; a hit on any other blade loses every
/// group, and where the rune is not Activating a hit does nothing.
pub proof fn big_hits_count(rune: BigActivation, blade: u32)
    requires
        rune.wf(),
        blade < 5,
    ensures
        ({
            let after = rune.struck(blade);
            let answer = rune.outcome(blade);
            let lit = rune.active[blade as int];
            &&& rune.state != RuneState::Activating ==> after == rune && answer
                == HitOutcome::Inactive
            &&& rune.state == RuneState::Activating && !lit ==> {
                &&& after.completed_groups == 0
                &&& after.state == RuneState::Activating
                &&& after.first_hit_ns is None
                &&& none_of(after.hit)
                &&& after.stage_started_ns == rune.time_ns
                &&& answer is WrongBlade
                &&& answer->WrongBlade_blade == blade
                &&& !none_of(rune.active) ==> answer->WrongBlade_expected < 5
                    && rune.active[answer->WrongBlade_expected as int] && forall|b: int|
                    0 <= b < answer->WrongBlade_expected ==> !#[trigger] rune.active[b]
            }
            &&& rune.state == RuneState::Activating && lit ==> {
                &&& after.hit[blade as int]
                &&& !after.active[blade as int]
                &&& forall|b: int|
                    0 <= b < 5 && b != blade ==> #[trigger] after.hit[b] == rune.hit[b]
                        && after.active[b] == rune.active[b]
                &&& after.completed_groups == rune.completed_groups
                &&& after.state == RuneState::Activating
                &&& rune.first_hit_ns is None ==> after.first_hit_ns == Some(rune.time_ns)
                &&& rune.first_hit_ns is Some ==> after.first_hit_ns == rune.first_hit_ns
                &&& answer == (HitOutcome::GroupHit {
                    blade,
                    group: rune.completed_groups,
                    bonus: rune.first_hit_ns is Some,
                })
            }
            &&& after.time_ns == rune.time_ns
            &&& after.motion == rune.motion
            &&& after.epoch_ns == rune.epoch_ns
        }),
{
    assert(forall|b: int|
        0 <= b < 5 ==> (#[trigger] super::big::without_blade(rune.active, blade as int)[b] == (
        rune.active[b] && b != blade)));
}

/// Two blades of a pair are lit, never one twice. Without a seed they are two
/// apart, and each pair starts where the last one ended.
pub proof fn pairs_light_two_blades(rune: BigActivation, at: u64)
    requires
        rune.completed_groups <= 5,
    ensures
        marked(rune.paired(at).active) == 2,
        none_of(rune.paired(at).hit),
        rune.paired(at).stage_started_ns == at,
        rune.paired(at).first_hit_ns is None,
        rune.rng is None ==> rune.paired(at).active[(2 * rune.completed_groups) % 5]
            && rune.paired(at).active[(2 * rune.completed_groups + 2) % 5],
        rune.paired(at).completed_groups == rune.completed_groups,
{
    rune.pairs_are_distinct(at);
}

/// A referee's trigger lights the first pair of a dark Big Rune and, with a
/// seed, draws the speed it turns at while Activating; any other rune is left
/// alone. A reset leaves it dark, with nothing completed.
pub proof fn referees_light_and_darken_big_runes(rune: BigActivation)
    requires
        rune.wf(),
    ensures
        rune.state != RuneState::Inactive ==> rune.triggered() == rune,
        rune.state == RuneState::Inactive ==> {
            &&& rune.triggered().state == RuneState::Activating
            &&& rune.triggered().completed_groups == 0
            &&& rune.triggered().first_hit_ns is None
            &&& marked(rune.triggered().active) == 2
            &&& rune.triggered().state_since_ns == rune.time_ns
            &&& rune.triggered().epoch_ns == rune.time_ns
            &&& rune.triggered().stage_started_ns == rune.time_ns
            &&& rune.rng is None ==> rune.triggered().motion == rune.motion
            &&& rune.rng is Some ==> rune.triggered().motion is Drawn
        },
        rune.darkened().state == RuneState::Inactive,
        rune.darkened().completed_groups == 0,
        none_of(rune.darkened().active),
        none_of(rune.darkened().hit),
        rune.darkened().epoch_ns == rune.time_ns,
        rune.state != RuneState::Inactive ==> rune.darkened().state_since_ns == rune.time_ns,
        rune.darkened().auto_restart == rune.auto_restart,
        rune.darkened().rng == rune.rng,
{
    if rune.state == RuneState::Inactive {
        let drawn = match rune.rng {
            Some(stream) => BigActivation {
                motion: BigRuneMotion::from_stream(stream),
                rng: Some(stream.stepped().stepped()),
                ..rune
            },
            None => rune,
        };
        let moved = drawn.moved(rune.time_ns, RuneState::Activating);
        (BigActivation { completed_groups: 0, ..moved }).pairs_are_distinct(rune.time_ns);
    }
}

/// A Big Rune turns at its own speed while Activating and at the even speed
/// otherwise; what it has turned is kept from where its motion began, and its
/// parts join without a gap.
pub proof fn big_runes_keep_what_they_turned(rune: BigActivation, at: u64, t: u64)
    requires
        rune.wf(),
        rune.time_ns <= t,
    ensures
        rune.turn(at).from_ns == rune.epoch_ns,
        rune.turn(at).to_ns == at,
        rune.turn(at).motion is Some <==> rune.state == RuneState::Activating,
        rune.state == RuneState::Activating ==> rune.turn(at).motion == Some(rune.motion),
        rune.turns(t).len() == 0 ==> rune.advanced(t).epoch_ns == rune.epoch_ns,
        rune.turns(t).len() > 0 ==> {
            &&& rune.turns(t)[0].from_ns == rune.epoch_ns
            &&& rune.turns(t)[rune.turns(t).len() - 1].to_ns == rune.advanced(t).epoch_ns
        },
        rune.turns(t).len() == 2 ==> rune.turns(t)[0].to_ns == rune.turns(t)[1].from_ns,
{
    let ready = rune.group_closed(t).restarted(t);
    rune.ready_is_wf(t);
    let live = BigActivation { time_ns: t, ..ready };
    live.windows_fit(t);
    if ready.state == RuneState::Activating && ready.first_hit_ns is None {
        live.lapses_keep_shape(live.windows(t), t);
        big_lapses_ignore_the_clock(ready, t, live.windows(t));
    }
}

/// Lapsing does not look at the clock.
proof fn big_lapses_ignore_the_clock(rune: BigActivation, clock: u64, n: nat)
    ensures
        (BigActivation { time_ns: clock, ..rune }).lapsed(n) == (BigActivation {
            time_ns: clock,
            ..rune.lapsed(n)
        }),
    decreases n,
{
    if n > 0 {
        big_lapses_ignore_the_clock(rune, clock, (n - 1) as nat);
    }
}

/// A chosen speed function has an amplitude between 0.78 and 1.045 and a
/// frequency between 1.884 and 2; the training one has 0.9 and 1.94. What is
/// drawn is a fraction of each range in steps of two to the minus fifty-third.
pub proof fn speed_functions_keep_their_bounds(motion: BigRuneMotion)
    ensures
        motion is Chosen ==> (motion.wf() <==> {
            &&& 0x3fe8_f5c2_8f5c_28f6 <= motion->amplitude_bits <= 0x3ff0_b851_eb85_1eb8
            &&& 0x3ffe_24dd_2f1a_9fbe <= motion->frequency_bits <= 0x4000_0000_0000_0000
        }),
        motion is Drawn ==> (motion.wf() <==> motion->amplitude < 0x20_0000_0000_0000
            && motion->frequency < 0x20_0000_0000_0000),
        BigRuneMotion::training() == (BigRuneMotion::Chosen {
            amplitude_bits: 0x3fec_cccc_cccc_cccd,
            frequency_bits: 0x3fff_0a3d_70a3_d70a,
        }),
{
}

/// A drawn speed function takes the high bits of two draws, the amplitude's
/// first.
pub proof fn speeds_are_drawn_in_turn(rng: Rng)
    ensures
        ({
            let motion = BigRuneMotion::from_stream(rng);
            &&& motion is Drawn
            &&& motion->amplitude == rng.drawn() / 2048
            &&& motion->frequency == rng.stepped().drawn() / 2048
            &&& motion.wf()
        }),
{
}

/// Whatever happens to a rune, it hangs where it hung and its blades run on
/// their orbit, and its activation is what its own kind makes of it.
pub proof fn a_rune_is_its_activation(rune: RuneModel, t: u64, blade: u32)
    ensures
        ({
            let all = seq![
                rune.advanced(t),
                rune.struck(blade),
                rune.triggered(),
                rune.darkened(),
                rune.restarting(true),
                rune.unseeded(),
            ];
            forall|i: int|
                0 <= i < all.len() ==> (#[trigger] all[i]).hub == rune.hub
                    && all[i].target_radius_um == rune.target_radius_um && all[i].kind()
                    == rune.kind()
        }),
        match rune.activation {
            Activation::Small(a) => {
                &&& rune.advanced(t).activation == Activation::Small(a.advanced(t))
                &&& rune.struck(blade).activation == Activation::Small(a.struck(blade))
                &&& rune.outcome(blade) == a.outcome(blade)
                &&& rune.triggered().activation == Activation::Small(a.triggered())
                &&& rune.darkened().activation == Activation::Small(a.darkened())
                &&& rune.advanced(t).turns == rune.turns
                &&& rune.darkened().turns == rune.turns
                &&& rune.kind() == RuneKind::Small
            },
            Activation::Big(a) => {
                &&& rune.advanced(t).activation == Activation::Big(a.advanced(t))
                &&& rune.struck(blade).activation == Activation::Big(a.struck(blade))
                &&& rune.outcome(blade) == a.outcome(blade)
                &&& rune.triggered().activation == Activation::Big(a.triggered())
                &&& rune.darkened().activation == Activation::Big(a.darkened())
                &&& rune.advanced(t).turns == rune.turns + a.turns(t)
                &&& rune.struck(blade).turns == rune.turns
                &&& rune.darkened().turns == rune.turns + seq![
                    Turn {
                        from_ns: a.epoch_ns,
                        to_ns: a.time_ns,
                        motion: if a.state == RuneState::Activating {
                            Some(a.motion)
                        } else {
                            None
                        },
                    },
                ]
                &&& rune.kind() == RuneKind::Big
            },
        },
{
    reveal(RuneModel::advanced);
    reveal(RuneModel::struck);
    reveal(RuneModel::outcome);
    reveal(RuneModel::triggered);
    reveal(RuneModel::darkened);
    if let Activation::Big(a) = rune.activation {
        assert(rune.turns.push(a.turn(a.time_ns)) =~= rune.turns + seq![a.turn(a.time_ns)]);
    }
}

/// A rune is made for training: Activating from time zero on, nothing hit, with
/// the lowest blade or the blades 0 and 2 lit, no seed, and a restart of its own.
pub proof fn runes_begin_in_training(motion: BigRuneMotion)
    ensures
        ({
            let small = SmallActivation::training();
            let big = BigActivation::training(motion);
            &&& small.state == RuneState::Activating && big.state == RuneState::Activating
            &&& small.time_ns == 0 && small.stage_started_ns == 0 && small.epoch_ns == 0
            &&& big.time_ns == 0 && big.stage_started_ns == 0 && big.epoch_ns == 0
            &&& small.active_blade == Some(0u32) && none_of(small.activated)
            &&& big.active[0] && big.active[2] && marked(big.active) == 2 && none_of(big.hit)
            &&& small.auto_restart && big.auto_restart
            &&& small.rng is None && big.rng is None
            &&& big.motion == motion && big.completed_groups == 0
        }),
{
}

/// The five targets run 700 mm from the hub, or 698.5 mm on the measured orbit.
pub proof fn orbits_have_their_radius(wheel: Wheel, hub: Pose, cad: bool)
    requires
        wheel.is_new(hub, cad),
    ensures
        wheel.hub == hub,
        cad ==> wheel.target_radius_um == 698_500,
        !cad ==> wheel.target_radius_um == 700_000,
        wheel.turns@.len() == 0,
{
}

/// A frame shows a rune as it stands: the blades that are lit, the blades hit,
/// and its progress. The speed function is shown while it is in force.
pub proof fn frames_show_the_rune(small: SmallRune, big: BigRune)
    requires
        small.wf(),
        big.wf(),
    ensures
        ({
            let a = small.activation;
            let f = small.frame();
            &&& f.kind == RuneKind::Small && f.motion is None
            &&& f.state == a.state && f.state_since_ns == a.state_since_ns
            &&& f.time_ns == a.time_ns && f.epoch_ns == a.epoch_ns
            &&& f.hub_pose == small.wheel.hub && f.target_radius_um
                == small.wheel.target_radius_um
            &&& f.active_blade == a.active_blade && f.activated == a.activated
            &&& forall|b: int|
                0 <= b < 5 ==> (#[trigger] f.active_blades[b] <==> a.active_blade == Some(
                    b as u32,
                ))
            &&& f.completed_groups == marked(a.activated)
        }),
        ({
            let a = big.activation;
            let f = big.frame();
            &&& f.kind == RuneKind::Big
            &&& f.motion is Some <==> a.state == RuneState::Activating
            &&& f.motion is Some ==> f.motion == Some((a.motion, a.epoch_ns))
            &&& f.state == a.state && f.state_since_ns == a.state_since_ns
            &&& f.time_ns == a.time_ns && f.epoch_ns == a.epoch_ns
            &&& f.hub_pose == big.wheel.hub && f.target_radius_um == big.wheel.target_radius_um
            &&& f.active_blades == a.active && f.activated == a.hit
            &&& f.active_blade is None <==> none_of(a.active)
            &&& f.active_blade is Some ==> f.active_blade->0 < 5
                && a.active[f.active_blade->0 as int]
            &&& f.completed_groups == a.completed_groups
        }),
{
}

/// A count of blades counts each blade once.
pub proof fn blades_are_counted(mask: [bool; 5], blade: int)
    requires
        0 <= blade < 5,
        !mask[blade],
    ensures
        marked(super::stream::with_blade(mask, blade)) == marked(mask) + 1,
        0 <= marked(mask) <= 4,
        none_of(mask) ==> marked(mask) == 0,
{
}

/// The target stream: a seed of zero counts as one, and each draw shifts the
/// state by 12, 25 and 27 bits in turn and spreads it by an odd factor. A pick
/// takes one draw from a stream, and none where there is nothing to pick from.
pub proof fn streams_step_once_a_draw(seed: u64, rng: Rng, candidates: [bool; 5])
    ensures
        seeded(seed).state == (if seed == 0 {
            1
        } else {
            seed
        }),
        ({
            let a = rng.state ^ (rng.state >> 12);
            let b = a ^ (a << 25);
            &&& rng.stepped().state == b ^ (b >> 27)
            &&& rng.drawn() == rng.stepped().state.wrapping_mul(0x2545_F491_4F6C_DD1D)
        }),
        picked(candidates, Some(rng)) is Some ==> picked_rng(candidates, Some(rng)) == Some(
            rng.stepped(),
        ),
        picked(candidates, Some(rng)) is None ==> picked_rng(candidates, Some(rng)) == Some(rng),
        picked_rng(candidates, None) is None,
{
}

/// A rune whose seed is taken away draws no more; a Big Rune goes back to the
/// training speed, and starts that motion afresh only where it was turning at
/// another.
pub proof fn unseeded_runes_train(big: BigActivation)
    ensures
        big.unseeded().rng is None,
        big.unseeded().motion == BigRuneMotion::training(),
        big.unseeded().state == big.state,
        big.unseeded().active == big.active,
        big.unseeded().epoch_ns == big.epoch_ns || big.unseeded().epoch_ns == big.time_ns,
        big.state == RuneState::Activating && big.motion != BigRuneMotion::training()
            ==> big.unseeded().epoch_ns == big.time_ns && big.unseeding_turns().len() == 1,
        big.state != RuneState::Activating || big.motion == BigRuneMotion::training()
            ==> big.unseeded().epoch_ns == big.epoch_ns && big.unseeding_turns().len() == 0,
{
}

/// How many candidates lie below a blade.
pub open spec fn below(candidates: [bool; 5], blade: int) -> int {
    (if 0 < blade && candidates[0] {
        1int
    } else {
        0
    }) + (if 1 < blade && candidates[1] {
        1int
    } else {
        0
    }) + (if 2 < blade && candidates[2] {
        1int
    } else {
        0
    }) + (if 3 < blade && candidates[3] {
        1int
    } else {
        0
    })
}

/// With a seed every candidate has its turn: the one is lit that has as many
/// below it as the draw leaves when shared among them all.
pub proof fn seeded_runes_light_the_drawn_blade(candidates: [bool; 5], rng: Rng)
    requires
        !none_of(candidates),
    ensures
        ({
            let blade = picked(candidates, Some(rng));
            &&& blade is Some
            &&& blade->0 < 5
            &&& candidates[blade->0 as int]
            &&& below(candidates, blade->0 as int) == rng.drawn() as int % marked(candidates)
        }),
{
    reveal_with_fuel(super::stream::options, 6);
    let all = super::stream::options(candidates, 5);
    assert(all.len() == marked(candidates));
    let k = rng.drawn() as int % all.len() as int;
    assert(0 <= k < all.len());
    assert(k == 0 || k == 1 || k == 2 || k == 3 || k == 4);
}

/// With a seed the first blade of a pair is drawn from all five, and the second
/// from the four others.
pub proof fn seeded_pairs_are_drawn(rune: BigActivation, rng: Rng, at: u64)
    requires
        rune.rng == Some(rng),
    ensures
        ({
            let first = rng.drawn() as int % 5;
            let second = (first + 1 + rng.stepped().drawn() as int % 4) % 5;
            let after = rune.paired(at);
            &&& first != second
            &&& after.active[first] && after.active[second]
            &&& after.rng == Some(rng.stepped().stepped())
        }),
{
}

} // verus!

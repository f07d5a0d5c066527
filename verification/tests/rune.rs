use rm_simulator::binary::Pose;
use rm_simulator::rune::big::BigRune;
use rm_simulator::rune::runner::Rune;
use rm_simulator::rune::small::SmallRune;
use rm_simulator::rune::stream::{pick_blade, Rng};
use rm_simulator::rune::wheel::{BigRuneMotion, Turn};
use rm_simulator::rune::{HitOutcome, RuneError, RuneKind, RuneSnapshot, RuneState};

const ANGULAR_SPEED_RAD_S: f64 = std::f64::consts::FRAC_PI_3;

fn pose(translation: [f64; 3], rotation: [f64; 4]) -> Pose {
    Pose { translation_m: translation.map(f64::to_bits), rotation_wxyz: rotation.map(f64::to_bits) }
}

fn hub() -> Pose {
    pose([5.0, 0.0, 1.6], [1.0, 0.0, 0.0, 0.0])
}

fn small() -> SmallRune {
    SmallRune::new(hub(), true).unwrap()
}

fn big() -> BigRune {
    BigRune::new(hub(), true, true, BigRuneMotion::default()).unwrap()
}

fn parameters(motion: BigRuneMotion) -> (f64, f64) {
    match motion {
        BigRuneMotion::Chosen { amplitude_bits, frequency_bits } => {
            (f64::from_bits(amplitude_bits), f64::from_bits(frequency_bits))
        }
        BigRuneMotion::Drawn { amplitude, frequency } => {
            let unit = |draw: u64| draw as f64 / (1u64 << 53) as f64;
            (
                0.780 + (1.045 - 0.780) * unit(amplitude),
                1.884 + (2.000 - 1.884) * unit(frequency),
            )
        }
    }
}

fn speed_rad_s(motion: BigRuneMotion, t: f64) -> f64 {
    let (a, w) = parameters(motion);
    a * (w * t).sin() + 2.090 - a
}

fn displacement_rad(motion: Option<BigRuneMotion>, ns: u64) -> f64 {
    displacement_after(motion, ns as f64 * 1e-9)
}

fn displacement_after(motion: Option<BigRuneMotion>, t: f64) -> f64 {
    match motion {
        None => ANGULAR_SPEED_RAD_S * t,
        Some(motion) => {
            let (a, w) = parameters(motion);
            a / w * (1.0 - (w * t).cos()) + (2.090 - a) * t
        }
    }
}

/// A wheel's angle: every turn it made, and the one it is making.
fn angle_rad(turns: &[Turn], frame: &RuneSnapshot) -> f64 {
    let past: f64 = turns.iter().map(|t| displacement_rad(t.motion, t.to_ns - t.from_ns)).sum();
    let now = displacement_rad(frame.motion.map(|m| m.0), frame.time_ns - frame.epoch_ns);
    (past + now).rem_euclid(std::f64::consts::TAU)
}

fn small_angle(rune: &SmallRune) -> f64 {
    angle_rad(&rune.wheel.turns, &rune.snapshot())
}

fn big_angle(rune: &BigRune) -> f64 {
    angle_rad(&rune.wheel.turns, &rune.snapshot())
}

fn either_angle(rune: &Rune) -> f64 {
    match rune {
        Rune::Small(r) => small_angle(r),
        Rune::Big(r) => big_angle(r),
    }
}

fn angular_speed(frame: &RuneSnapshot) -> f64 {
    match frame.motion {
        None => ANGULAR_SPEED_RAD_S,
        Some((motion, since)) => speed_rad_s(motion, (frame.time_ns - since) as f64 * 1e-9),
    }
}

#[test]
fn cad_targets_match_measured_orbit_through_rotation() {
    let mut rune = SmallRune::from_cad(hub(), true).unwrap();
    for time_ns in [0, 1_500_000_000, 3_000_000_000, 6_000_000_000] {
        rune.advance_to(time_ns).unwrap();
        assert_eq!(rune.snapshot().target_radius_um, 698_500);
    }
}

#[test]
fn geometry_rotation_and_advance_partition_are_deterministic() {
    let mut world = small();
    assert_eq!(world.snapshot().target_radius_um, 700_000);
    world.advance_to(1_500_000_000).unwrap();
    assert!((small_angle(&world) - std::f64::consts::FRAC_PI_2).abs() < 1e-12);
    let mut split = small();
    for time in [1_000_000_000, 2_500_000_001, 3_000_000_000, 8_000_000_000] {
        split.advance_to(time).unwrap();
    }
    world.advance_to(8_000_000_000).unwrap();
    assert_eq!(world, split);
    assert_eq!(world.snapshot(), world.snapshot());
}

#[test]
fn all_five_hits_hold_activated_then_restart_without_stopping_rotation() {
    let mut world = small();
    for blade in 0..4 {
        assert!(matches!(
            world.hit(u64::from(blade) * 100_000_000, blade).unwrap(),
            HitOutcome::Accepted { .. }
        ));
    }
    assert_eq!(world.hit(400_000_000, 4).unwrap(), HitOutcome::Activated { blade: 4 });
    assert_eq!(world.snapshot().activated, [true; 5]);
    assert_eq!(world.snapshot().state_since_ns, 400_000_000);
    assert_eq!(world.hit(500_000_000, 0).unwrap(), HitOutcome::Inactive);
    world.advance_to(1_399_999_999).unwrap();
    assert_eq!(world.snapshot().state, RuneState::Activated);
    world.advance_to(1_400_000_000).unwrap();
    assert_eq!(world.snapshot().state, RuneState::Activating);
    assert_eq!(world.snapshot().active_blade, Some(0));
    assert_eq!(world.snapshot().activated, [false; 5]);
    assert!(small_angle(&world) > 0.0);
}

#[test]
fn wrong_blade_and_expired_window_reset_progress() {
    let mut world = small();
    world.hit(0, 0).unwrap();
    assert_eq!(world.hit(1, 4).unwrap(), HitOutcome::WrongBlade { blade: 4, expected: 1 });
    assert_eq!(world.snapshot().activated, [false; 5]);
    world.hit(1, 0).unwrap();
    world.advance_to(2_500_000_001).unwrap();
    assert_eq!(world.snapshot().active_blade, Some(1));
    world.advance_to(2_500_000_002).unwrap();
    assert_eq!(world.snapshot().active_blade, Some(0));
    assert_eq!(world.snapshot().activated, [false; 5]);
}

#[test]
fn invalid_calls_do_not_mutate_and_hub_rotation_composes() {
    let mut world = small();
    world.advance_to(1).unwrap();
    let before = world.clone();
    assert_eq!(world.advance_to(0), Err(RuneError::TimeReversal));
    assert_eq!(world.hit(20, 5), Err(RuneError::Blade));
    assert_eq!(world.hit(0, 0), Err(RuneError::TimeReversal));
    assert_eq!(world, before);
    // A zero quaternion cannot be normalised.
    assert!(SmallRune::new(pose([0.0; 3], [0.0; 4]), false).is_err());
    assert!(SmallRune::new(pose([f64::NAN, 0.0, 0.0], [1.0, 0.0, 0.0, 0.0]), true).is_err());
    let half = std::f64::consts::FRAC_1_SQRT_2;
    let rotated = pose([1.0, 2.0, 3.0], [half, 0.0, half, 0.0]);
    assert_eq!(SmallRune::new(rotated, true).unwrap().snapshot().hub_pose, rotated);
}

#[test]
fn referee_controlled_rune_rests_inactive_and_holds_activation() {
    let mut rune = small();
    rune.set_auto_restart(false);
    rune.set_seed(7);
    rune.deactivate(0).unwrap();
    assert_eq!(rune.snapshot().state, RuneState::Inactive);
    assert_eq!(rune.snapshot().active_blades, [false; 5]);
    rune.advance_to(30_500_000_000).unwrap();
    assert_eq!(rune.snapshot().state, RuneState::Inactive);
    assert_eq!(rune.hit(30_500_000_000, 0).unwrap(), HitOutcome::Inactive);
    assert!(small_angle(&rune) > 0.0);
    rune.activate(31_000_000_000).unwrap();
    let mut twin = rune.clone();
    assert_eq!(rune.snapshot().state, RuneState::Activating);
    assert_eq!(rune.snapshot().state_since_ns, 31_000_000_000);
    let mut t = 31_000_000_000;
    let mut order = Vec::new();
    for _ in 0..5 {
        let blade = rune.snapshot().active_blade.unwrap();
        order.push(blade);
        t += 100_000_000;
        rune.hit(t, blade).unwrap();
    }
    assert_eq!(rune.snapshot().state, RuneState::Activated);
    // Random, not simply ascending, and repeatable.
    assert_ne!(order, vec![0, 1, 2, 3, 4]);
    let mut sorted = order.clone();
    sorted.sort_unstable();
    assert_eq!(sorted, vec![0, 1, 2, 3, 4]);
    let mut t2 = 31_000_000_000;
    for expected in &order {
        assert_eq!(twin.snapshot().active_blade, Some(*expected));
        t2 += 100_000_000;
        twin.hit(t2, *expected).unwrap();
    }
    assert_eq!(rune, twin);
    // Holds until the referee takes it away; activate is a no-op meanwhile.
    rune.advance_to(t + 60_000_000_000).unwrap();
    assert_eq!(rune.snapshot().state, RuneState::Activated);
    rune.activate(t + 60_000_000_000).unwrap();
    assert_eq!(rune.snapshot().state, RuneState::Activated);
    rune.deactivate(t + 61_000_000_000).unwrap();
    assert_eq!(rune.snapshot().state, RuneState::Inactive);
    assert_eq!(rune.snapshot().activated, [false; 5]);
}

#[test]
fn sinusoid_integral_matches_speed_and_parameter_bounds() {
    for a in [0.780, 0.9, 1.045] {
        for w in [1.884, 1.94, 2.0] {
            let motion = BigRuneMotion::new(f64::to_bits(a), f64::to_bits(w)).unwrap();
            for t in [0.1, 1., 2., 6.] {
                let at = |t: f64| displacement_after(Some(motion), t);
                let derivative = (at(t + 1e-5) - at(t - 1e-5)) / 2e-5;
                assert!((derivative - speed_rad_s(motion, t)).abs() < 1e-8);
            }
        }
    }
    let new = |a: f64, w: f64| BigRuneMotion::new(a.to_bits(), w.to_bits());
    assert_eq!(new(f64::NAN, 1.94), Err(RuneError::Motion));
    assert_eq!(new(0.7, 1.94), Err(RuneError::Motion));
    assert_eq!(new(0.9, 2.1), Err(RuneError::Motion));
    let mut rng = Rng::new(3);
    for _ in 0..50 {
        let (amplitude, frequency) = parameters(BigRuneMotion::drawn(&mut rng));
        assert!(new(amplitude, frequency).is_ok());
    }
}

#[test]
fn bonus_is_optional_and_one_second_boundary_is_inclusive() {
    let mut rune = big();
    assert_eq!(rune.snapshot().active_blades, [true, false, true, false, false]);
    assert_eq!(
        rune.hit(2_500_000_000, 0).unwrap(),
        HitOutcome::GroupHit { blade: 0, group: 0, bonus: false }
    );
    assert_eq!(
        rune.hit(3_500_000_000, 2).unwrap(),
        HitOutcome::GroupHit { blade: 2, group: 0, bonus: true }
    );
    assert_eq!(rune.snapshot().completed_groups, 0);
    rune.advance_to(3_500_000_001).unwrap();
    assert_eq!(rune.snapshot().completed_groups, 1);
    assert_eq!(rune.snapshot().active_blades, [false, false, true, false, true]);
    rune.hit(3_600_000_000, 4).unwrap();
    rune.advance_to(4_600_000_001).unwrap();
    assert_eq!(rune.snapshot().completed_groups, 2);
}

#[test]
fn five_groups_activate_then_restart_with_continuous_angle() {
    let mut rune = big();
    for group in 0..5 {
        let t = group as u64 * 1_100_000_000;
        rune.advance_to(t).unwrap();
        let blade = rune.snapshot().active_blade.unwrap();
        rune.hit(t, blade).unwrap();
        rune.advance_to(t + 1_000_000_001).unwrap();
    }
    assert_eq!(rune.snapshot().state, RuneState::Activated);
    assert_eq!(rune.snapshot().state_since_ns, 5_400_000_001);
    assert_eq!(rune.snapshot().completed_groups, 5);
    assert_eq!(rune.snapshot().active_blades, [false; 5]);
    assert_eq!(angular_speed(&rune.snapshot()), ANGULAR_SPEED_RAD_S);
    let angle = big_angle(&rune);
    rune.advance_to(6_400_000_001).unwrap();
    assert_eq!(rune.snapshot().state, RuneState::Activating);
    let expected = (angle + ANGULAR_SPEED_RAD_S).rem_euclid(std::f64::consts::TAU);
    assert!((big_angle(&rune) - expected).abs() < 1e-9);
    assert_eq!(rune.snapshot().completed_groups, 0);
}

#[test]
fn timeout_wrong_target_and_partitioned_advance() {
    let mut rune = big();
    rune.hit(0, 0).unwrap();
    rune.advance_to(1_000_000_001).unwrap();
    let mut split = rune.clone();
    for t in [1_500_000_000, 3_500_000_001, 3_500_000_002, 10_000_000_000] {
        split.advance_to(t).unwrap();
    }
    rune.advance_to(10_000_000_000).unwrap();
    assert_eq!(rune, split);
    assert_eq!(rune.snapshot().completed_groups, 0);
    assert!(matches!(
        rune.hit(10_000_000_001, 1).unwrap(),
        HitOutcome::WrongBlade { .. }
    ));
    let before = rune.clone();
    assert_eq!(rune.hit(20_000_000_000, 5), Err(RuneError::Blade));
    assert_eq!(rune.advance_to(0), Err(RuneError::TimeReversal));
    assert_eq!(rune, before);
}

#[test]
fn referee_controlled_big_rune_activates_from_rest_and_holds() {
    let mut rune = big();
    rune.set_auto_restart(false);
    rune.set_seed(11);
    rune.deactivate(0).unwrap();
    rune.advance_to(3_000_000_000).unwrap();
    let resting = rune.snapshot();
    assert_eq!(resting.state, RuneState::Inactive);
    assert_eq!(angular_speed(&resting), ANGULAR_SPEED_RAD_S);
    assert!((big_angle(&rune) - 3.0 * ANGULAR_SPEED_RAD_S).abs() < 1e-9);
    assert_eq!(rune.hit(3_000_000_000, 0).unwrap(), HitOutcome::Inactive);
    rune.activate(3_000_000_000).unwrap();
    let twin = rune.clone();
    assert_eq!(rune.snapshot().state, RuneState::Activating);
    // t = 0 of the speed function: speed is b = 2.090 - a.
    let speed = angular_speed(&rune.snapshot());
    assert!((1.045..=1.31).contains(&speed), "{speed}");
    let mut t = 3_000_000_000;
    for group in 0..5 {
        let active = rune.snapshot().active_blades;
        assert_eq!(active.iter().filter(|x| **x).count(), 2, "{active:?}");
        let blade = rune.snapshot().active_blade.unwrap();
        t += 200_000_000;
        assert_eq!(
            rune.hit(t, blade).unwrap(),
            HitOutcome::GroupHit { blade, group, bonus: false }
        );
        t += 1_000_000_001;
        rune.advance_to(t).unwrap();
    }
    assert_eq!(rune.snapshot().state, RuneState::Activated);
    rune.advance_to(t + 90_000_000_000).unwrap();
    assert_eq!(rune.snapshot().state, RuneState::Activated);
    assert_eq!(angular_speed(&rune.snapshot()), ANGULAR_SPEED_RAD_S);
    // Without hits the seeded stream picks the same pairs however the clock is
    // partitioned.
    let mut whole = twin.clone();
    whole.advance_to(t + 90_000_000_000).unwrap();
    let mut pieces = twin.clone();
    let mut at = pieces.snapshot().time_ns;
    while at < t + 90_000_000_000 {
        at = (at + 777_777_777).min(t + 90_000_000_000);
        pieces.advance_to(at).unwrap();
    }
    assert_eq!(whole.snapshot(), pieces.snapshot());
    rune.deactivate(t + 90_000_000_000).unwrap();
    assert_eq!(rune.snapshot().state, RuneState::Inactive);
    assert_eq!(rune.snapshot().completed_groups, 0);
}

#[test]
fn conversion_between_kinds_keeps_the_angle_and_rests_inactive() {
    let at = pose([1.0, 2.0, 3.0], [1.0, 0.0, 0.0, 0.0]);
    let mut rune = Rune::Small(SmallRune::from_cad(at, true).unwrap());
    rune.set_seed(5);
    rune.set_auto_restart(false);
    rune.advance_to(4_000_000_000).unwrap();
    let before = rune.snapshot();
    let before_angle = either_angle(&rune);
    rune.convert(RuneKind::Big, 4_000_000_000).unwrap();
    let after = rune.snapshot();
    assert_eq!(rune.kind(), RuneKind::Big);
    assert_eq!(after.state, RuneState::Inactive);
    assert_eq!(after.hub_pose, before.hub_pose);
    assert_eq!(after.target_radius_um, before.target_radius_um);
    assert!((either_angle(&rune) - before_angle).abs() < 1e-9);
    assert_eq!(after.active_blades, [false; 5]);
    rune.advance_to(5_000_000_000).unwrap();
    let expected = (before_angle + ANGULAR_SPEED_RAD_S).rem_euclid(std::f64::consts::TAU);
    assert!((either_angle(&rune) - expected).abs() < 1e-9);
    rune.activate(5_000_000_000).unwrap();
    assert_eq!(rune.snapshot().active_blades.iter().filter(|x| **x).count(), 2);
    // And back, at an angle a fresh Small rune could not represent.
    rune.convert(RuneKind::Small, 5_500_000_000).unwrap();
    let small = rune.snapshot();
    let small_angle = either_angle(&rune);
    assert_eq!(rune.kind(), RuneKind::Small);
    assert_eq!(small.state, RuneState::Inactive);
    rune.advance_to(6_000_000_000).unwrap();
    let expected = (small_angle + 0.5 * ANGULAR_SPEED_RAD_S).rem_euclid(std::f64::consts::TAU);
    assert!((either_angle(&rune) - expected).abs() < 1e-9);
    rune.activate(6_000_000_000).unwrap();
    assert_eq!(rune.state(), RuneState::Activating);
    assert_eq!(rune.snapshot().active_blades.iter().filter(|x| **x).count(), 1);
    // Same kind is a no-op.
    let same = rune.clone();
    rune.convert(RuneKind::Small, 6_000_000_000).unwrap();
    assert_eq!(rune, same);
    assert_eq!(rune.convert(RuneKind::Big, 5_000_000_000), Err(RuneError::TimeReversal));
}

#[test]
fn analytic_reconstruction_matches_small_and_big_rule_motion() {
    // A frame's motion and epoch say how the wheel goes on from its angle.
    let onward = |frame: &RuneSnapshot, angle: f64, time: u64| {
        let motion = frame.motion.map(|m| m.0);
        let moved = displacement_rad(motion, time - frame.epoch_ns)
            - displacement_rad(motion, frame.time_ns - frame.epoch_ns);
        (angle + moved).rem_euclid(std::f64::consts::TAU)
    };
    let mut small = small();
    let mut big = BigRune::new(hub(), true, false, BigRuneMotion::default()).unwrap();
    small.advance_to(123_000_000).unwrap();
    big.advance_to(123_000_000).unwrap();
    let checkpoints = [
        (small.snapshot(), small_angle(&small)),
        (big.snapshot(), big_angle(&big)),
    ];
    for time in [124_000_000, 151_000_000, 323_000_000, 623_000_000] {
        small.advance_to(time).unwrap();
        big.advance_to(time).unwrap();
        let actual = [small_angle(&small), big_angle(&big)];
        for i in 0..2 {
            let (frame, angle) = &checkpoints[i];
            assert!((onward(frame, *angle, time) - actual[i]).abs() < 1e-12);
        }
    }
    big.deactivate(623_000_000).unwrap();
    let resting = big.snapshot();
    let angle = big_angle(&big);
    assert!(resting.motion.is_none());
    big.advance_to(923_000_000).unwrap();
    assert!((onward(&resting, angle, 923_000_000) - big_angle(&big)).abs() < 1e-12);
}

#[test]
fn the_stream_is_fixed_and_picks_among_candidates() {
    let mut rng = Rng::new(1);
    assert_eq!(rng.next(), 5180492295206395165);
    assert_eq!(Rng::new(0), Rng::new(1));
    assert_eq!(pick_blade(&[false, true, true, false, true], &mut None), Some(1));
    assert_eq!(pick_blade(&[false; 5], &mut Some(Rng::new(4))), None);
    let mut stream = Some(Rng::new(9));
    for _ in 0..20 {
        let blade = pick_blade(&[false, true, false, true, false], &mut stream).unwrap();
        assert!(blade == 1 || blade == 3);
    }
}

#[test]
fn decoded_runes_are_validated_again() {
    let rune = Rune::Big(big());
    assert_eq!(rune.validate(true), Ok(()));
    assert_eq!(rune.validate(false), Err(RuneError::Pose));
    let mut broken = big();
    broken.wheel.target_radius_um = 0;
    assert_eq!(Rune::Big(broken).validate(true), Err(RuneError::Pose));
    let mut early = big();
    early.activation.epoch_ns = 5;
    assert_eq!(Rune::Big(early).validate(true), Err(RuneError::Motion));
    let mut lit = big();
    assert!(Rune::Big(lit.clone()).is_consistent());
    lit.activation.active = [true; 5];
    assert!(!Rune::Big(lit).is_consistent());
}

#[test]
fn clearing_the_seed_brings_the_default_motion_and_the_lowest_pair_back() {
    let mut rune = big();
    rune.set_seed(11);
    rune.deactivate(0).unwrap();
    rune.activate(0).unwrap();
    assert_ne!(rune.snapshot().motion, Some((BigRuneMotion::default(), 0)));
    rune.clear_seed();
    rune.deactivate(0).unwrap();
    rune.activate(0).unwrap();
    let frame = rune.snapshot();
    assert_eq!(frame.motion, Some((BigRuneMotion::default(), 0)));
    assert_eq!(frame.active_blades, [true, false, true, false, false]);
}

#[test]
fn clearing_the_seed_keeps_the_angle() {
    let mut rune = big();
    rune.set_seed(11);
    rune.deactivate(0).unwrap();
    rune.activate(0).unwrap();
    rune.advance_to(700_000_000).unwrap();
    let before = big_angle(&rune);
    rune.clear_seed();
    assert_eq!(rune.snapshot().motion, Some((BigRuneMotion::default(), 700_000_000)));
    assert!((big_angle(&rune) - before).abs() < 1e-9);
}

#[test]
fn motion_outside_the_bounds_is_refused_by_both_checks() {
    let wide = BigRuneMotion::Chosen {
        amplitude_bits: 1.2f64.to_bits(),
        frequency_bits: 1.9f64.to_bits(),
    };
    assert!(matches!(BigRune::new(hub(), true, true, wide), Err(RuneError::Motion)));
    let mut decoded = big();
    decoded.activation.motion = wide;
    assert_eq!(Rune::Big(decoded.clone()).validate(true), Err(RuneError::Motion));
    assert!(!Rune::Big(decoded).is_consistent());
    let edge = BigRuneMotion::Chosen {
        amplitude_bits: 1.045f64.to_bits(),
        frequency_bits: 2.0f64.to_bits(),
    };
    let mut kept = big();
    kept.activation.motion = edge;
    assert_eq!(Rune::Big(kept).validate(true), Ok(()));
}

#[test]
fn the_default_small_rune_stands_five_metres_ahead() {
    let frame = SmallRune::default().snapshot();
    assert_eq!(frame.hub_pose, hub());
    assert_eq!(frame.active_blade, Some(0));
    assert_eq!(frame.state, RuneState::Activating);
}

#[test]
fn a_converted_training_rune_waits_for_the_referee() {
    let mut rune = Rune::Small(small());
    rune.convert(RuneKind::Big, 1_000).unwrap();
    assert_eq!(rune.state(), RuneState::Inactive);
    rune.convert(RuneKind::Small, 2_000).unwrap();
    rune.activate(2_000).unwrap();
    for blade in 0..5 {
        rune.hit(2_000, blade).unwrap();
    }
    assert_eq!(rune.state(), RuneState::Activated);
    // Nothing restarts it.
    rune.advance_to(90_000_000_000).unwrap();
    assert_eq!(rune.state(), RuneState::Activated);
}

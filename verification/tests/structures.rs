use rm_simulator::base::{self, BaseConfig, BaseSnapshot, INITIAL_SHIELD_HP};
use rm_simulator::binary::Pose;
use rm_simulator::outpost::{Outpost, INITIAL_HP};
use rm_simulator::projectile::{centre_bonus, in_centre_square, outpost_damage};
use rm_simulator::target::{Caliber, Team};

fn pose(translation: [f64; 3], rotation: [f64; 4]) -> Pose {
    Pose { translation_m: translation.map(f64::to_bits), rotation_wxyz: rotation.map(f64::to_bits) }
}

fn at(translation: [f64; 3]) -> Pose {
    pose(translation, [1.0, 0.0, 0.0, 0.0])
}

fn unit(origin: Pose) -> bool {
    let norm: f64 = origin.rotation_wxyz.iter().map(|v| f64::from_bits(*v).powi(2)).sum();
    norm.is_finite() && (norm - 1.).abs() <= 1e-6
}

const PIVOT: [f64; 3] = [0.1, 0.8, 0.03];

fn outpost(origin: Pose, speed: f64) -> Result<Outpost, &'static str> {
    Outpost::with_pivot(origin, unit(origin), speed.to_bits(), PIVOT.map(f64::to_bits))
}

/// The rotor's angle in a frame.
fn angle(frame: &rm_simulator::outpost::OutpostSnapshot) -> f64 {
    let turned = frame.turned_ns() as f64 * 1e-9;
    (f64::from_bits(frame.speed_rad_s) * turned).rem_euclid(std::f64::consts::TAU)
}

#[test]
fn calibers_follow_the_rule_manual_tables() {
    assert_eq!(f64::from_bits(Caliber::Mm17.armor_detection_speed_m_s()), 12.);
    assert_eq!(f64::from_bits(Caliber::Mm42.armor_detection_speed_m_s()), 10.);
    assert_eq!(Caliber::Mm17.detection_interval_ns(), 50_000_000);
    assert_eq!(Caliber::Mm42.detection_interval_ns(), 200_000_000);
    let damage = |caliber: Caliber, offset: [f64; 2]| outpost_damage(caliber, offset.map(f64::to_bits));
    assert_eq!(damage(Caliber::Mm17, [0.03, 0.]), 20);
    assert_eq!(damage(Caliber::Mm42, [0., 0.02]), 200);
    assert_eq!(damage(Caliber::Mm17, [0.004, -0.004]), 30);
    assert_eq!(damage(Caliber::Mm42, [0., 0.]), 300);
}

#[test]
fn the_centre_square_holds_its_edges() {
    let central = |x: f64, y: f64| in_centre_square([x.to_bits(), y.to_bits()]);
    assert!(central(0.005, -0.005));
    assert!(!central(0.005000001, 0.));
    assert!(!central(0., f64::NAN));
    assert_eq!(centre_bonus(5), 8);
    assert_eq!(centre_bonus(20), 30);
}

#[test]
fn damage_drains_hp_and_freezes_the_rotor_at_destruction() {
    let mut o = outpost(at([3., 0., 0.]), 1.).unwrap();
    assert_eq!(o.snapshot(0).hp, INITIAL_HP);
    assert_eq!(o.damage(100_000_000, 20), 20);
    assert_eq!(o.hp(), INITIAL_HP - 20);
    assert!(!o.snapshot(100_000_000).destroyed);
    assert_eq!(o.damage(500_000_000, 10_000), INITIAL_HP - 20);
    assert_eq!(o.hp(), 0);
    assert_eq!(o.damage(600_000_000, 20), 0);
    let stopped = o.snapshot(500_000_000);
    assert!(stopped.destroyed);
    assert_eq!(angle(&stopped), angle(&o.snapshot(2_000_000_000)));
    assert!((angle(&stopped) - 0.5).abs() < 1e-12);
}

#[test]
fn invalid_configuration_rejected() {
    assert!(outpost(at([f64::NAN, 0., 0.]), 1.).is_err());
    assert!(outpost(pose([3., 0., 0.], [f64::NAN, 0., 0., f64::NAN]), 1.).is_err());
    assert!(outpost(pose([3., 0., 0.], [1., 0., 0., 0.5]), 1.).is_err());
    assert!(outpost(at([3., 0., 0.]), f64::INFINITY).is_err());
    assert!(outpost(at([3., 0., 0.]), 11.).is_err());
    assert!(outpost(at([3., 0., 0.]), -10.).is_ok());
}

#[test]
fn exported_pivot_changes_scoring_positions_without_moving_the_tower() {
    let old = outpost(at([0.; 3]), 2.).unwrap();
    let delta = [0.1, 0.2, -0.3];
    let pivot: [f64; 3] = std::array::from_fn(|i| PIVOT[i] + delta[i]);
    let new = Outpost::with_pivot(at([0.; 3]), true, 2f64.to_bits(), pivot.map(f64::to_bits)).unwrap();
    for tick in [0, 300_000_000, 1_000_000_000] {
        let a = old.snapshot(tick);
        let b = new.snapshot(tick);
        assert_eq!(a.origin, b.origin);
        assert_eq!(angle(&a), angle(&b));
        assert_eq!(b.pivot_cad_m, pivot.map(f64::to_bits));
    }
    let broken = [f64::NAN.to_bits(); 3];
    assert_eq!(
        Outpost::with_pivot(at([0.; 3]), true, 2f64.to_bits(), broken),
        Err("nonfinite outpost pivot")
    );
}

#[test]
fn presentation_matches_fitted_rotor_and_freezes_on_destruction() {
    let mut outpost = outpost(at([2., 3., 4.]), -2.0).unwrap();
    let checkpoint = outpost.snapshot(123_000_000);
    for time in [140_000_000, 300_000_000, 623_000_000] {
        assert_eq!(checkpoint.presentation_at(time), outpost.snapshot(time));
    }
    outpost.damage(623_000_000, INITIAL_HP);
    let stopped = outpost.snapshot(623_000_000);
    assert_eq!(stopped.presentation_at(999_000_000), stopped);
    assert_eq!(checkpoint.presentation_at(0), checkpoint);
}

#[test]
fn rotors_rest_before_a_round_and_stop_for_it() {
    let mut tower = outpost(at([3., 0., 0.]), 0.8).unwrap();
    tower.stop(50);
    assert_eq!(tower.stopped_ns, None, "a training rotor keeps turning");
    tower.start_match(5_000_000_000);
    assert_eq!(angle(&tower.snapshot(4_999_999_999)), 0.);
    tower.stop(7_000_000_000);
    assert!(tower.homing);
    tower.stop(8_000_000_000);
    assert_eq!(tower.stopped_ns, Some(7_000_000_000));
    // An HP correction does not start a rotor that was stopped for the round.
    tower.set_hp(8_000_000_000, 100).unwrap();
    assert_eq!(tower.stopped_ns, Some(7_000_000_000));
    tower.reset_training();
    assert_eq!((tower.hp(), tower.stopped_ns, tower.homing), (INITIAL_HP, None, false));
    // A revived tower turns again.
    tower.set_hp(9_000_000_000, 0).unwrap();
    assert_eq!(tower.stopped_ns, Some(9_000_000_000));
    tower.set_hp(10_000_000_000, 100).unwrap();
    assert_eq!((tower.hp(), tower.stopped_ns), (100, None));
    // In a match it does not.
    tower.start_match(11_000_000_000);
    tower.damage(12_000_000_000, INITIAL_HP);
    tower.set_hp(13_000_000_000, 750).unwrap();
    assert_eq!((tower.hp(), tower.stopped_ns), (750, Some(12_000_000_000)));
    assert_eq!(tower.validate(true), Ok(()));
    assert_eq!(tower.snapshot(13_500_000_000).turned_ns(), 1_000_000_000);
    assert_eq!(tower.damage(14_000_000_000, 20), 20);
    tower.reset_training();
    assert_eq!(tower.set_hp(0, 1501), Err("outpost HP must be at most 1500"));
    assert_eq!(tower.validate(true), Ok(()));
    tower.hp = 0;
    assert_eq!(tower.validate(true), Err("outpost HP and destruction disagree"));
    assert!(tower.validate(false).is_err());
}

fn base() -> BaseSnapshot {
    BaseSnapshot::new(BaseConfig {
        team: Team::Red,
        plates: std::array::from_fn(|i| at([i as f64, 0., 1.])),
        dart_offsets_m: [[0; 3]; 2],
    })
}

#[test]
fn seven_plates_score_projectiles_and_share_hp_with_shield_first() {
    let mut b = base();
    let offset = [0f64.to_bits(), 0.002f64.to_bits()];
    for plate in 0..7 {
        let amount = base::damage(Caliber::Mm17, plate, offset);
        b.damage(amount);
    }
    // Five ordinary centre hits (30), upper front (8), dart override (20).
    assert_eq!((b.hp, b.shield_hp), (4972, 0));
    b.damage(base::damage(Caliber::Mm17, 6, offset));
    assert_eq!(b.hp, 4952);
    b.reset();
    assert_eq!((b.hp, b.shield_hp), (5000, 150));
}

#[test]
fn a_strike_takes_the_shield_before_the_base() {
    let mut b = base();
    assert_eq!(b.damage(100), 100);
    assert_eq!((b.hp, b.shield_hp), (5000, INITIAL_SHIELD_HP - 100));
    assert_eq!(b.damage(100), 100);
    assert_eq!((b.hp, b.shield_hp), (4950, 0));
    assert_eq!(b.damage(u32::MAX), 4950);
    assert_eq!(b.damage(20), 0);
    assert_eq!(base::damage(Caliber::Mm42, 6, [0; 2]), 200);
    assert_eq!(base::damage(Caliber::Mm42, 0, [0; 2]), 300);
    assert_eq!(base::damage(Caliber::Mm17, 3, [1f64.to_bits(), 0]), 5);
}

#[test]
fn base_configurations_are_validated() {
    let mut config = base().config;
    assert_eq!(config.validate(true), Ok(()));
    assert!(config.validate(false).is_err());
    config.dart_offsets_m[1][2] = 1.01f64.to_bits();
    assert_eq!(config.validate(true), Err("invalid base scoring pose or dart travel"));
    config.dart_offsets_m[1][2] = (-1f64).to_bits();
    assert_eq!(config.validate(true), Ok(()));
    config.plates[4].translation_m[0] = f64::NAN.to_bits();
    assert!(config.validate(true).is_err());
}

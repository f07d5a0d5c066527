use rm_simulator::projectile::{ArmorHit, Rejection};
use rm_simulator::target::{ArmorTarget, Caliber};
use rm_simulator::wire::message::{
    decode_checkpoint, Ball, PlayerMessage, PlayerSnapshot, PlayerState, PlayerWire, Rounded,
};
use rm_simulator::wire::WireError;

fn ball(
    id: u64,
    caliber: Caliber,
    launched_ns: u64,
    first_contact_ns: Option<u64>,
    dwell_since_ns: Option<u64>,
) -> Ball {
    Ball {
        id,
        caliber,
        launched_ns,
        position_m: [1f64.to_bits(), 2f64.to_bits(), 3f64.to_bits()],
        velocity_m_s: [25f64.to_bits(), 0, 0],
        angular_velocity_rad_s: [0; 3],
        shooter: Some(7),
        first_contact_ns,
        dwell_since_ns,
    }
}

fn state(projectiles: Vec<Ball>) -> PlayerState {
    PlayerState {
        time_ns: 90_000_000_000,
        input_epoch: 2,
        snapshot_id: 5,
        projectiles,
        hits: Vec::new(),
        wheel_contacts: vec![Some(3), None, Some(8), None],
        rest: 41,
    }
}

fn single(bits: u64) -> u64 {
    let value = f64::from_bits(bits);
    let single = value as f32;
    if single.is_finite() { f64::from(single).to_bits() } else { bits }
}

fn rounded(ball: &Ball) -> Rounded {
    Rounded {
        position_m: ball.position_m.map(single),
        velocity_m_s: ball.velocity_m_s.map(single),
    }
}

fn checkpoint(state: &PlayerState) -> PlayerSnapshot {
    let rounding: Vec<Rounded> = state.projectiles.iter().map(rounded).collect();
    PlayerSnapshot::from_state(state, &rounding)
}

#[test]
fn projectile_timestamp_ages_reconstruct_exactly() {
    let projectiles = vec![
        ball(1, Caliber::Mm17, 89_000_000_000, None, None),
        ball(2, Caliber::Mm42, 88_000_000_000, Some(88_500_000_000), None),
        ball(
            3,
            Caliber::Mm17,
            87_000_000_000,
            Some(87_100_000_000),
            Some(87_150_000_000),
        ),
    ];
    let wire = checkpoint(&state(projectiles.clone()));
    assert_eq!(wire.projectiles[0].launched_age_ns, 1_000_000_000);
    assert_eq!(wire.projectiles[1].first_contact_age_ns, Some(500_000_000));
    assert_eq!(wire.projectiles[2].dwell_age_ns, Some(50_000_000));
    assert!(!wire.projectiles[0].large);
    assert!(wire.projectiles[1].large);
    assert_eq!(wire.to_state().projectiles, projectiles);
}

#[test]
fn dwell_without_contact_counts_from_the_launch_and_broken_times_clip() {
    let slow = ball(1, Caliber::Mm17, 80_000_000_000, None, Some(80_000_000_007));
    let wire = slow.to_wire(90_000_000_000, rounded(&slow));
    assert_eq!(wire.dwell_age_ns, Some(7));
    assert_eq!(wire.to_ball(90_000_000_000), slow);
    let future = ball(1, Caliber::Mm17, 95_000_000_000, Some(94_000_000_000), None);
    let clipped = future.to_wire(90_000_000_000, rounded(&future));
    assert_eq!(clipped.launched_age_ns, 0);
    assert_eq!(clipped.first_contact_age_ns, Some(0));
    assert_eq!(clipped.to_ball(90_000_000_000).launched_ns, 90_000_000_000);
}

#[test]
fn extreme_diagnostic_coordinates_keep_full_precision() {
    let mut far = ball(1, Caliber::Mm17, 0, None, None);
    far.position_m = [1e60f64.to_bits(), 0, 0];
    far.velocity_m_s = [1f64.to_bits(), 0, 0];
    far.angular_velocity_rad_s = [2f64.to_bits(); 3];
    far.shooter = None;
    let decoded = checkpoint(&state(vec![far])).to_state();
    // Spin is never carried; the out-of-range coordinate stays exact.
    far.angular_velocity_rad_s = [0; 3];
    assert_eq!(decoded.projectiles, [far]);
}

fn hit(projectile: u64, detected: bool) -> ArmorHit {
    ArmorHit {
        time_ns: 1,
        projectile,
        shooter: None,
        caliber: Caliber::Mm17,
        target: ArmorTarget::Outpost { outpost: 0, face: 1 },
        position_m: [0; 3],
        local_offset_m: [0; 2],
        normal_speed_m_s: 0,
        detected,
        rejection: if detected { None } else { Some(Rejection::NormalSpeed) },
        rune_outcome: None,
        damage: 0,
    }
}

#[test]
fn checkpoints_carry_registered_hits_only() {
    let mut full = state(Vec::new());
    full.hits = vec![hit(1, true), hit(2, false), hit(3, true)];
    let decoded = checkpoint(&full).to_state();
    assert_eq!(decoded.hits, [hit(1, true), hit(3, true)]);
    assert_eq!((decoded.time_ns, decoded.input_epoch, decoded.snapshot_id), (90_000_000_000, 2, 5));
}

#[test]
fn a_checkpoint_belongs_to_its_epoch() {
    let snapshot = checkpoint(&state(Vec::new()));
    assert!(matches!(decode_checkpoint(snapshot.clone(), 3, true), Err(WireError::StateEpoch)));
    let (decoded, kept) = decode_checkpoint(snapshot.clone(), 2, true).unwrap();
    assert_eq!(decoded.snapshot_id, 5);
    assert_eq!(kept.unwrap().snapshot_id, 5);
    assert!(decode_checkpoint(snapshot, 2, false).unwrap().1.is_none());
    assert_eq!(WireError::StateEpoch.message(), "invalid baseline state/epoch");
}

#[test]
fn messages_come_back_rounded_and_without_spin() {
    let mut fine = ball(9, Caliber::Mm42, 89_000_000_000, None, None);
    fine.position_m = [0.1f64.to_bits(), 1e60f64.to_bits(), 0];
    fine.angular_velocity_rad_s = [1f64.to_bits(); 3];
    let rounding = vec![rounded(&fine)];
    let message = PlayerMessage::Snapshot(state(vec![fine]));
    let PlayerMessage::Snapshot(back) = PlayerWire::from_message(&message, &rounding).to_message()
    else {
        panic!("a snapshot comes back as a snapshot");
    };
    assert_eq!(back.projectiles[0].position_m, [f64::from(0.1f32).to_bits(), 1e60f64.to_bits(), 0]);
    assert_eq!(back.projectiles[0].angular_velocity_rad_s, [0; 3]);
    assert_eq!(back.projectiles[0].launched_ns, 89_000_000_000);
    let other = PlayerWire::from_message(&PlayerMessage::Other(4), &Vec::new());
    assert!(matches!(other, PlayerWire::Message(4)));
    assert!(matches!(other.to_message(), PlayerMessage::Other(4)));
}

#[test]
fn checkpoints_carry_no_wheel_contact() {
    let decoded = checkpoint(&state(Vec::new())).to_state();
    assert_eq!(decoded.wheel_contacts, [None; 4]);
    assert_eq!(decoded.rest, 41);
}

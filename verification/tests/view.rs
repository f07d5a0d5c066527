use rm_simulator::input::{constant_drive, workload_teams, ChassisCommand};
use rm_simulator::referee::RefereeConfig;
use rm_simulator::target::Team;
use rm_simulator::view::{
    extrapolate, sample_chassis, Blend, ChassisState, RemoteHistory, CAPACITY,
};

fn state(body: u64) -> ChassisState {
    ChassisState {
        id: 0,
        placement_revision: 0,
        defeated: false,
        config: 1,
        team: Team::Red,
        body,
    }
}

/// Positions stand for bodies here: the body's key is its x in millimetres.
fn x_of(blend: Blend) -> f64 {
    match blend {
        Blend::Hold(state) => state.body as f64,
        Blend::Mix { from, to, part, whole } => {
            let t = if whole == 0 { 1. } else { part as f64 / whole as f64 };
            from.body as f64 + (to.body as f64 - from.body as f64) * t
        }
    }
}

#[test]
fn jittered_samples_interpolate_positions_and_shortest_rotation_then_hold() {
    let mut history = RemoteHistory::default();
    history.push(0, vec![state(0)], false);
    history.push(56_000_000, vec![state(2000)], false);
    let halfway = history.sample(0, 28_000_000).unwrap();
    assert_eq!(x_of(halfway.blend), 1000.);
    assert_eq!(halfway.extrapolate_ns, 0);
    let late = history.sample(0, 999_000_000).unwrap();
    assert_eq!(x_of(late.blend), 2000.);
    assert_eq!(history.bounds_ns(), Some((0, 56_000_000)));
}

#[test]
fn same_tick_placement_defeat_despawn_and_pause_discard_stale_poses() {
    let mut frame = state(0);
    let mut history = RemoteHistory::default();
    history.push(0, vec![frame], false);
    frame.body = 100;
    history.push(16_000_000, vec![frame], false);
    frame.placement_revision += 1;
    frame.body = 200;
    history.push(16_000_000, vec![frame], false);
    assert_eq!(x_of(history.sample(0, 0).unwrap().blend), 200.);
    frame.defeated = true;
    history.push(16_000_000, vec![frame], false);
    let shown = match history.sample(0, 0).unwrap().blend {
        Blend::Hold(state) => state,
        Blend::Mix { to, .. } => to,
    };
    assert!(shown.defeated);
    history.push(16_000_000, vec![frame], true);
    assert_eq!(history.frames.len(), 1);
    history.push(16_000_000, Vec::new(), false);
    assert!(history.sample(0, 0).is_none());
}

#[test]
fn history_is_bounded_and_time_reversal_resets_it() {
    let mut history = RemoteHistory::default();
    for i in 0..1000 {
        history.push(i, vec![state(0)], false);
    }
    assert_eq!(history.frames.len(), CAPACITY);
    history.push(0, vec![state(0)], false);
    assert_eq!(history.frames.len(), 1);
}

#[test]
fn lives_are_never_mixed() {
    let old = state(0);
    let new = ChassisState { placement_revision: 1, ..state(1000) };
    let shown = sample_chassis((0, &vec![old]), (10, &vec![new]), &vec![new], 0, 5).unwrap();
    assert_eq!(shown, Blend::Hold(new));
    let later = ChassisState { body: 3000, ..new };
    let shown = sample_chassis((0, &vec![new]), (10, &vec![later]), &vec![later], 0, 5).unwrap();
    assert_eq!(shown, Blend::Mix { from: new, to: later, part: 5, whole: 10 });
    assert_eq!(sample_chassis((0, &vec![new]), (10, &vec![]), &vec![], 0, 5), None);
}

#[test]
fn poses_are_carried_on_for_a_tenth_of_a_second() {
    assert_eq!(extrapolate(0), 0);
    assert_eq!(extrapolate(99_999_999), 99_999_999);
    assert_eq!(extrapolate(5_000_000_000), 100_000_000);
    let mut history = RemoteHistory::default();
    assert_eq!(history.bounds_ns(), None);
    assert!(history.sample(0, 0).is_none());
    history.push(10, vec![state(7)], false);
    assert!(history.sample(1, 10).is_none());
}

#[test]
fn players_alternate_teams_in_spawn_order() {
    assert_eq!(workload_teams(4), vec![Team::Red, Team::Blue, Team::Red, Team::Blue]);
}

#[test]
fn an_empty_workload_needs_no_chassis() {
    assert!(workload_teams(0).is_empty());
}

#[test]
fn the_constant_drive_is_steady() {
    let drive = constant_drive();
    assert_eq!(f64::from_bits(drive.forward_m_s), 1.0);
    assert_eq!(f64::from_bits(drive.yaw_rate_rad_s), 0.4);
    assert_eq!(drive.left_m_s, ChassisCommand::default().left_m_s);
    let config = RefereeConfig::alternating(2, 2);
    assert_eq!(config.rune_teams, [Team::Red, Team::Blue]);
}

#[test]
fn samples_outside_the_window_show_its_ends() {
    let mut history = RemoteHistory::default();
    assert!(history.sample(0, 5).is_none());
    history.push(10_000_000, vec![state(0)], false);
    history.push(60_000_000, vec![state(500)], false);
    assert_eq!(history.sample(0, 0), history.sample(0, 10_000_000));
    let cap = history.sample(0, 160_000_000);
    assert_eq!(cap.unwrap().extrapolate_ns, 100_000_000);
    assert_eq!(history.sample(0, 900_000_000), cap);
    assert_eq!(history.sample(0, 90_000_000).unwrap().extrapolate_ns, 30_000_000);
    assert!(history.sample(1, 20_000_000).is_none());
    let mut still = RemoteHistory::default();
    still.push(10_000_000, vec![state(0)], true);
    assert_eq!(still.sample(0, 900_000_000), still.sample(0, 10_000_000));
}

use rm_simulator::binary::Pose;
use rm_simulator::field::FieldError;
use rm_simulator::input::{ChassisCommand, InputFrame};
use rm_simulator::referee::RefereeCommand;
use rm_simulator::simulation::command::{
    keeps_stream, Action, Command, Facts, Robot, Simulation, WeaponConfig, WeaponLimits, BOT_LIMIT,
};
use rm_simulator::simulation::construction::{build_plan, BuildProgress};
use rm_simulator::simulation::pacing::{step_ticks, Pacing};
use rm_simulator::simulation::shots::{
    AimedShot, FireRecord, FireTiming, ShooterFacts, ShotRefusal, ShotResult, Shots,
};
use rm_simulator::simulation::sweep::Moment;
use rm_simulator::target::{Caliber, Team};

const TICK_NS: u64 = 1_000_000;

fn at(translation: [f64; 3]) -> Pose {
    Pose {
        translation_m: translation.map(f64::to_bits),
        rotation_wxyz: [1f64, 0., 0., 0.].map(f64::to_bits),
    }
}

fn weapon() -> WeaponConfig {
    WeaponConfig {
        caliber: Caliber::Mm17,
        speed_m_s: 25f64.to_bits(),
        interval_ns: 50_000_000,
        speed_variation_m_s: 0,
        spread_angle_rad: 0,
        spread_distribution: 0,
    }
}

fn limits() -> WeaponLimits {
    WeaponLimits { max_speed_m_s: 30f64.to_bits(), min_interval_ns: 1_000_000 }
}

#[derive(Clone, Copy)]
struct Body {
    id: u32,
    team: Team,
    revision: u64,
    defeated: bool,
    pose: Pose,
    command: ChassisCommand,
}

/// A simulation with a plain field: bodies that hold still and a clock.
struct Host {
    sim: Simulation,
    tick: u64,
    bodies: Vec<Body>,
    next_id: u32,
    launched: Vec<(Caliber, u64)>,
    spawner: bool,
    referee: Vec<RefereeCommand>,
    /// Chassis with an input stream, and the placement it belongs to.
    streams: Vec<(u32, u64)>,
}

impl Host {
    fn new(weapon: WeaponConfig) -> Host {
        Host {
            sim: Simulation::new(TICK_NS, false, weapon, limits()),
            tick: 0,
            bodies: Vec::new(),
            next_id: 0,
            launched: Vec::new(),
            spawner: true,
            referee: Vec::new(),
            streams: Vec::new(),
        }
    }

    fn now(&self) -> u64 {
        self.tick * TICK_NS
    }

    fn body(&self, id: u32) -> Option<Body> {
        self.bodies.iter().find(|b| b.id == id).copied()
    }

    fn body_mut(&mut self, id: u32) -> &mut Body {
        self.bodies.iter_mut().find(|b| b.id == id).unwrap()
    }

    fn spawn(&mut self, team: Team, robot: Option<Robot>) -> u32 {
        let id = self.next_id;
        self.next_id += 1;
        let pose = at([id as f64, 0., 0.2]);
        self.bodies.push(Body {
            id,
            team,
            revision: 0,
            defeated: false,
            pose,
            command: ChassisCommand::default(),
        });
        self.sim.place(id, pose, robot);
        id
    }

    fn facts(&self, id: u32) -> Facts {
        let body = self.body(id);
        Facts {
            now_ns: self.now(),
            revision: body.map(|b| b.revision),
            defeated: body.map(|b| b.defeated),
            team: body.map(|b| b.team),
            spawner: self.spawner,
            referee: true,
        }
    }

    fn shooter(&self, id: u32) -> ShooterFacts {
        let body = self.body(id);
        ShooterFacts { revision: body.map(|b| b.revision), defeated: body.map(|b| b.defeated) }
    }

    fn fire(
        &mut self,
        shooter: u32,
        intended_ns: u64,
        timing: Option<FireTiming>,
    ) -> Result<u64, ShotRefusal> {
        let revision = self.body(shooter).map(|b| b.revision);
        if let Some(reason) = self.sim.check_fire(shooter, intended_ns, revision) {
            return Err(reason);
        }
        let body = self.body(shooter).unwrap();
        if body.defeated {
            return Err(ShotRefusal::Field(FieldError::Referee("the robot is defeated")));
        }
        let weapon = self.sim.weapon_for(shooter);
        self.launched.push((weapon.caliber, weapon.speed_m_s));
        let projectile_id = self.launched.len() as u64;
        let record = FireRecord {
            launch_speed_m_s: weapon.speed_m_s,
            shooter,
            projectile_id,
            accepted_time_ns: self.now(),
            authoritative_muzzle_pose: body.pose,
            client_timing: timing,
        };
        self.sim.shots.note_fired(record, intended_ns);
        Ok(projectile_id)
    }

    fn words(reason: ShotRefusal) -> String {
        match (reason.message(), reason) {
            (Some(words), _) => words.to_string(),
            (None, ShotRefusal::Field(error)) => format!("{error:?}"),
            (None, _) => unreachable!(),
        }
    }

    fn apply(&mut self, command: Command) -> Result<(), String> {
        let chassis = match command {
            Command::ConfigureWeapon { chassis, .. }
            | Command::PilotInput { chassis, .. }
            | Command::PlaceChassis { chassis, .. }
            | Command::Chassis { chassis, .. }
            | Command::Respawn { chassis }
            | Command::ResetRobot { chassis } => chassis,
            Command::FireAimed(shot) => shot.shooter,
            Command::Fire { shooter, .. } => shooter,
            _ => u32::MAX,
        };
        let facts = self.facts(chassis);
        match self.sim.apply(&command, &facts) {
            Action::Done => Ok(()),
            Action::Refused(reason) => Err(reason.to_string()),
            Action::RefusedShot(reason) => Err(Host::words(reason)),
            Action::ConfigureWeapon { chassis, caliber, weapon } => {
                if weapon.caliber != caliber {
                    return Err("caliber follows the robot".to_string());
                }
                if weapon.interval_ns < self.sim.weapon_limits.min_interval_ns {
                    return Err("interval".to_string());
                }
                self.sim.set_weapon(chassis, weapon);
                Ok(())
            }
            Action::FireAimed(shot) => {
                let result = self.fire(shot.shooter, shot.input.sampled_time_ns, shot.timing);
                let now = self.now();
                self.sim.shots.settle(&shot, result, now);
                result.map(|_| ()).map_err(Host::words)
            }
            Action::Fire { shooter, timing, .. } => {
                let now = self.now();
                self.fire(shooter, now, timing).map(|_| ()).map_err(Host::words)
            }
            Action::Receive { chassis, frame, revision } => {
                if frame.placement_revision != revision {
                    return Err("placement".to_string());
                }
                self.body_mut(chassis).command = frame.command;
                self.streams.retain(|s| s.0 != chassis);
                self.streams.push((chassis, revision));
                Ok(())
            }
            Action::Place { chassis, position_m, .. } => {
                let body = self.body_mut(chassis);
                body.revision += 1;
                body.pose.translation_m = position_m;
                body.command = ChassisCommand::default();
                Ok(())
            }
            Action::Drive { chassis, command } => match self.body(chassis) {
                None => Err("no chassis with that id".to_string()),
                Some(_) => {
                    self.body_mut(chassis).command = command;
                    Ok(())
                }
            },
            Action::SpawnBot { team, .. } => {
                let id = self.spawn(team, None);
                self.sim.add_bot(id);
                Ok(())
            }
            Action::Remove { chassis } => {
                self.remove(chassis);
                Ok(())
            }
            Action::RemoveBots => {
                for id in self.sim.bot_ids() {
                    self.remove(id);
                }
                Ok(())
            }
            Action::Recover { chassis, place, .. } => {
                self.streams.retain(|s| s.0 != chassis);
                let body = self.body_mut(chassis);
                body.defeated = false;
                body.revision += 1;
                body.command = ChassisCommand::default();
                if let Some(pose) = place {
                    body.pose = pose;
                }
                Ok(())
            }
            Action::Referee(command) => {
                self.referee.push(command);
                if let RefereeCommand::SetRobotHp { robot, hp } = command {
                    self.body_mut(robot).defeated = hp == 0;
                }
                if let RefereeCommand::ReviveRobot { robot } = command {
                    let body = self.body_mut(robot);
                    body.defeated = false;
                    body.revision += 1;
                }
                Ok(())
            }
            Action::Launch { caliber, speed_m_s, .. } => {
                self.launched.push((caliber, speed_m_s));
                Ok(())
            }
            Action::Neutralise => {
                self.streams.clear();
                for body in &mut self.bodies {
                    body.command = ChassisCommand::default();
                }
                Ok(())
            }
            Action::Step { ticks } => {
                self.step(ticks);
                Ok(())
            }
        }
    }

    fn remove(&mut self, id: u32) {
        self.bodies.retain(|b| b.id != id);
        let now = self.now();
        self.sim.remove_chassis(id, now);
    }

    fn step(&mut self, ticks: u64) {
        for _ in 0..ticks {
            for (chassis, revision) in std::mem::take(&mut self.streams) {
                let body = self.body(chassis);
                let belongs = body.is_some_and(|b| b.revision == revision);
                if keeps_stream(belongs, body.map(|b| b.defeated)) {
                    self.streams.push((chassis, revision));
                } else if body.is_some() {
                    self.body_mut(chassis).command = ChassisCommand::default();
                }
            }
            let moment = Moment {
                shooters: self.bodies.iter().map(|b| (b.id, self.shooter(b.id))).collect(),
                paused: self.sim.pacing.paused,
                input_epoch: self.sim.pacing.input_epoch,
                now_ns: self.now(),
            };
            let mut index = 0;
            loop {
                let (at, shot) = self.sim.shots.execute_pending_shots(index, &moment);
                let Some(shot) = shot else { break };
                let result = self.fire(shot.shooter, shot.input.sampled_time_ns, shot.timing);
                self.sim.shots.finish(at, result, moment.now_ns);
                index = at;
            }
            self.tick += 1;
        }
    }

    fn advance(&mut self, delta_ns: u64) -> u64 {
        let ticks = self.sim.advance(delta_ns);
        self.step(ticks);
        ticks
    }
}

fn pilot() -> (Host, u32) {
    let mut host = Host::new(weapon());
    let id = host.spawn(Team::Red, None);
    (host, id)
}

fn frame(sequence: u64, sampled_time_ns: u64) -> InputFrame {
    InputFrame {
        input_epoch: 0,
        sequence,
        sampled_time_ns,
        duration_ticks: 16,
        placement_revision: 0,
        command: ChassisCommand::default(),
    }
}

fn aimed(shooter: u32, shot_id: u64, input: InputFrame) -> Command {
    Command::FireAimed(AimedShot { shooter, shot_id, input, timing: None })
}

fn fire(shooter: u32) -> Command {
    Command::Fire { shooter, timing: None }
}

#[test]
fn host_time_becomes_whole_ticks_with_a_cap_and_pause() {
    let mut host = Host::new(weapon());
    assert_eq!(host.advance(1_500_000), 1);
    assert_eq!(host.advance(1_500_000), 2);
    assert_eq!(host.tick, 3);
    assert_eq!(host.advance(10_000_000_000), 250);
    host.apply(Command::Pause { paused: true }).unwrap();
    assert_eq!(host.advance(1_000_000_000), 0);
    host.apply(Command::Step { ticks: 16 }).unwrap();
    assert_eq!(host.tick, 269);
    assert!(host.apply(Command::Step { ticks: 0 }).is_err());
    assert!(host.apply(Command::Step { ticks: 60_001 }).is_err());
    host.apply(Command::Pause { paused: false }).unwrap();
    assert_eq!(host.advance(999_999), 0);
    assert_eq!(host.advance(1), 1);
}

#[test]
fn a_manual_step_covers_sixteen_milliseconds() {
    assert_eq!(step_ticks(1_000_000), 16);
    assert_eq!(step_ticks(3_000_000), 6);
    assert_eq!(step_ticks(16_000_000), 1);
    assert_eq!(step_ticks(1_000_000_000), 1);
    let mut pacing = Pacing::new(1_000_000, false);
    assert!(!pacing.set_paused(false));
    assert!(pacing.set_paused(true));
    assert_eq!((pacing.input_epoch, pacing.carry_ns), (1, 0));
}

#[test]
fn commands_reach_the_field_and_report_rejections() {
    let mut host = Host::new(weapon());
    host.spawner = false;
    host.apply(Command::Referee(RefereeCommand::StartMatch)).unwrap();
    assert_eq!(host.referee, [RefereeCommand::StartMatch]);
    // No chassis on this field, and no spawner to make one.
    let drive = Command::Chassis { chassis: 0, command: ChassisCommand::default() };
    assert!(host.apply(drive).is_err());
    let bot = Command::SpawnBot { team: Team::Red, spin_rad_s: 0 };
    assert_eq!(host.apply(bot), Err("this field offers no chassis".to_string()));
    let place = Command::PlaceChassis { chassis: 0, position_m: [0; 3], yaw_deg: 0 };
    assert_eq!(host.apply(place), Err("no chassis with that id".to_string()));
    host.apply(Command::SpawnProjectile {
        muzzle: at([0.0, 0.0, 1.0]),
        caliber: Caliber::Mm17,
        speed_m_s: 25f64.to_bits(),
    })
    .unwrap();
    assert_eq!(host.launched.len(), 1);
}

#[test]
fn weapon_updates_are_per_pilot_leave_flying_bullets_alone_and_keep_cooldown() {
    let (mut host, shooter) = pilot();
    let other = host.spawn(Team::Blue, None);
    host.apply(fire(shooter)).unwrap();
    let before = host.launched.clone();
    let slow = WeaponConfig { speed_m_s: 10f64.to_bits(), ..weapon() };
    host.apply(Command::ConfigureWeapon { chassis: shooter, weapon: slow }).unwrap();
    assert_eq!(host.launched, before);
    assert_eq!(host.apply(fire(shooter)).unwrap_err(), "weapon is cooling down");
    host.apply(fire(other)).unwrap();
    assert_eq!(host.launched.last(), Some(&(Caliber::Mm17, 25f64.to_bits())));
    host.step(100);
    host.apply(fire(shooter)).unwrap();
    assert_eq!(host.launched.last(), Some(&(Caliber::Mm17, 10f64.to_bits())));
    let invalid = WeaponConfig { interval_ns: 1, ..slow };
    assert!(host.apply(Command::ConfigureWeapon { chassis: shooter, weapon: invalid }).is_err());
    assert_eq!(host.sim.weapon_for(shooter), slow);
    host.remove(shooter);
    assert_eq!(host.sim.spawn_of(shooter), None);
    let gone = Command::ConfigureWeapon { chassis: shooter, weapon: slow };
    assert_eq!(host.apply(gone).unwrap_err(), "no chassis with that id");
}

#[test]
fn a_hero_fires_42_mm_and_an_infantry_17_mm_whatever_the_host_default_says() {
    let mut host = Host::new(weapon());
    let hero = host.spawn(Team::Red, Some(Robot { code: 0, caliber: Caliber::Mm42 }));
    let infantry = host.spawn(Team::Blue, Some(Robot { code: 4, caliber: Caliber::Mm17 }));
    assert_eq!(host.sim.robot(hero), Some(Robot { code: 0, caliber: Caliber::Mm42 }));
    assert_eq!(host.sim.robot(infantry), Some(Robot { code: 4, caliber: Caliber::Mm17 }));
    assert_eq!(host.sim.weapon.caliber, Caliber::Mm17);
    assert_eq!(host.sim.caliber(hero), Caliber::Mm42);
    assert_eq!(host.sim.caliber(infantry), Caliber::Mm17);
    assert_eq!(host.sim.weapon_for(hero).caliber, Caliber::Mm42);
    let configure = |weapon: WeaponConfig| Command::ConfigureWeapon { chassis: hero, weapon };
    assert_eq!(host.apply(configure(weapon())).unwrap_err(), "caliber follows the robot");
    let large = WeaponConfig { caliber: Caliber::Mm42, ..weapon() };
    host.apply(configure(large)).unwrap();
    assert_eq!(host.sim.weapon_for(hero), large);
    for shooter in [hero, infantry] {
        host.apply(fire(shooter)).unwrap();
    }
    let calibers: Vec<Caliber> = host.launched.iter().map(|p| p.0).collect();
    assert_eq!(calibers, [Caliber::Mm42, Caliber::Mm17]);
    host.remove(hero);
    assert_eq!(host.sim.robot(hero), None);
    assert_eq!(host.sim.caliber(hero), Caliber::Mm17);
}

#[test]
fn scheduled_launch_uses_settings_current_at_execution() {
    let (mut host, shooter) = pilot();
    host.apply(aimed(shooter, 1, frame(1, 16_000_000))).unwrap();
    assert_eq!(host.launched.len(), 0);
    let slow = WeaponConfig { speed_m_s: 7f64.to_bits(), ..weapon() };
    host.apply(Command::ConfigureWeapon { chassis: shooter, weapon: slow }).unwrap();
    host.step(17);
    assert_eq!(host.launched, [(Caliber::Mm17, 7f64.to_bits())]);
}

#[test]
fn bots_spin_pause_and_remove_without_touching_pilots() {
    let (mut host, pilot) = pilot();
    let bot = |spin: f64| Command::SpawnBot { team: Team::Blue, spin_rad_s: spin.to_bits() };
    assert!(host.apply(bot(f64::NAN)).is_err());
    assert!(host.apply(bot(20.1)).is_err());
    host.apply(bot(3.)).unwrap();
    let first = host.sim.bot_ids()[0];
    assert!(host.sim.is_bot(first) && !host.sim.is_bot(pilot));
    host.apply(Command::Pause { paused: true }).unwrap();
    assert_eq!(host.advance(100_000_000), 0);
    assert!(host.apply(Command::RemoveBot { chassis: pilot }).is_err());
    host.apply(Command::ClearBots).unwrap();
    assert!(host.sim.bots.is_empty());
    assert_eq!(host.bodies.len(), 1);
    assert_eq!(host.bodies[0].id, pilot);
    host.apply(bot(-3.)).unwrap();
    assert!(host.sim.bot_ids()[0] > first);
    while host.sim.bots.len() < BOT_LIMIT {
        host.apply(bot(1.)).unwrap();
    }
    assert_eq!(host.apply(bot(1.)).unwrap_err(), "at most 32 training bots");
    let last = host.sim.bot_ids()[31];
    host.apply(Command::RemoveBot { chassis: last }).unwrap();
    assert_eq!(host.sim.bots.len(), 31);
}

#[test]
fn debug_reset_returns_owned_robot_to_spawn_without_resetting_economy() {
    let (mut host, id) = pilot();
    let before = host.body(id).unwrap().pose;
    host.body_mut(id).pose = at([50.0, 50.0, -2.0]);
    host.apply(Command::ResetRobot { chassis: id }).unwrap();
    assert_eq!(host.body(id).unwrap().pose, before);
    assert!(host.referee.is_empty());
    assert!(host.apply(Command::ResetRobot { chassis: id + 1 }).is_err());
}

#[test]
fn pilot_respawn_restores_only_hp_in_place() {
    let (mut host, id) = pilot();
    let place = Command::PlaceChassis {
        chassis: id,
        position_m: [3.0f64, 4.0, 1.0].map(f64::to_bits),
        yaw_deg: 20f64.to_bits(),
    };
    host.apply(place).unwrap();
    let pose = host.body(id).unwrap().pose;
    assert_eq!(
        host.apply(Command::Respawn { chassis: id }).unwrap_err(),
        "robot is not defeated"
    );
    host.body_mut(id).defeated = true;
    host.apply(Command::Respawn { chassis: id }).unwrap();
    assert!(host.apply(Command::Respawn { chassis: id }).is_err());
    assert_eq!(host.body(id).unwrap().pose, pose);
    assert!(!host.body(id).unwrap().defeated);
    host.remove(id);
    assert!(host.sim.pilot_spawns.is_empty());
}

#[test]
fn a_purchase_is_ten_small_rounds_or_one_large() {
    let (mut host, id) = pilot();
    host.apply(Command::BuyAmmo { chassis: id, caliber: Caliber::Mm17 }).unwrap();
    host.apply(Command::BuyAmmo { chassis: id, caliber: Caliber::Mm42 }).unwrap();
    assert_eq!(
        host.referee,
        [
            RefereeCommand::BuyAmmo { robot: id, caliber: Caliber::Mm17, amount: 10 },
            RefereeCommand::BuyAmmo { robot: id, caliber: Caliber::Mm42, amount: 1 },
        ]
    );
}

#[test]
fn fire_journal_is_bounded_and_rejections_do_not_create_shots() {
    let mut host = Host::new(WeaponConfig { interval_ns: 1_000_000, ..weapon() });
    let shooter = host.spawn(Team::Red, None);
    for _ in 0..257 {
        host.apply(fire(shooter)).unwrap();
        assert!(host.apply(fire(shooter)).is_err());
        host.step(1);
    }
    let records = host.sim.fire_records();
    assert_eq!(records.len(), 256);
    assert_eq!(records.first().unwrap().accepted_time_ns, 1_000_000);
    assert_eq!(records.last().unwrap().accepted_time_ns, 256_000_000);
}

#[test]
fn pilot_fire_uses_the_authoritative_muzzle_and_cadence() {
    let heavy = WeaponConfig {
        caliber: Caliber::Mm42,
        speed_m_s: 30f64.to_bits(),
        interval_ns: 10_000_000,
        ..weapon()
    };
    let mut host = Host::new(heavy);
    let chassis = host.spawn(Team::Red, None);
    let other = host.spawn(Team::Blue, None);
    host.step(1);
    let reported = FireTiming {
        client_elapsed_ns: 123,
        estimated_simulation_time_ns: u64::MAX,
        observed_snapshot_time_ns: Some(0),
        observed_chassis_pose: Some(at([999.; 3])),
        observed_muzzle_pose: Some(at([-999.; 3])),
    };
    host.apply(Command::Fire { shooter: chassis, timing: Some(reported) }).unwrap();
    let records = &host.sim.shots.records;
    assert_eq!(records.len(), 1);
    assert_eq!(records[0].client_timing, Some(reported));
    assert_eq!(records[0].authoritative_muzzle_pose, host.body(chassis).unwrap().pose);
    assert_eq!(records[0].accepted_time_ns, 1_000_000);
    assert_eq!(records[0].projectile_id, 1);
    assert_eq!(host.launched, [(Caliber::Mm42, 30f64.to_bits())]);
    assert!(host.apply(fire(chassis)).is_err());
    host.apply(Command::Pause { paused: true }).unwrap();
    assert_eq!(host.advance(u64::MAX), 0);
    assert!(host.apply(fire(chassis)).is_err());
    host.apply(fire(other)).unwrap();
    assert_eq!(host.launched.len(), 2);
    host.step(9);
    assert!(host.apply(fire(chassis)).is_err());
    host.step(1);
    host.apply(fire(chassis)).unwrap();
    assert_eq!(host.launched.len(), 3);
}

#[test]
fn rejected_fire_does_not_consume_a_cooldown() {
    let (mut host, chassis) = pilot();
    host.body_mut(chassis).defeated = true;
    assert!(host.apply(fire(chassis)).is_err());
    host.body_mut(chassis).defeated = false;
    host.apply(fire(chassis)).unwrap();
    assert_eq!(host.launched.len(), 1);
}

#[test]
fn cooldown_rejection_is_terminal_and_retries_cannot_schedule_a_shot() {
    let (mut host, shooter) = pilot();
    let shot = |shot_id: u64| aimed(shooter, shot_id, frame(1, 0));
    host.apply(shot(1)).unwrap();
    assert_eq!(host.apply(shot(2)).unwrap_err(), "weapon is cooling down");
    assert!(host.sim.shots.shot_result(shooter, 2).unwrap().result.is_err());
    assert_eq!(host.launched.len(), 1);
    host.step(weapon().interval_ns.div_ceil(TICK_NS));
    assert_eq!(host.apply(shot(2)).unwrap_err(), "weapon is cooling down");
    assert_eq!(host.launched.len(), 1);
    // A fresh intent spaced one interval behind the first on the pilot's clock
    // fires; one that reuses the first shot's time is still cooling.
    assert_eq!(host.apply(shot(3)).unwrap_err(), "weapon is cooling down");
    host.apply(aimed(shooter, 4, frame(2, weapon().interval_ns))).unwrap();
    assert_eq!(host.launched.len(), 2);
}

#[test]
fn a_late_shot_does_not_reject_the_correctly_spaced_shot_behind_it() {
    let (mut host, shooter) = pilot();
    let interval = weapon().interval_ns;
    // The first intent arrives 100 ms after its intended time and fires late.
    host.step(100_000_000 / TICK_NS);
    host.apply(aimed(shooter, 1, frame(1, 0))).unwrap();
    // The second was spaced one interval behind the first on the pilot's clock
    // and arrives on time; it is also overdue, so it fires at once.
    host.apply(aimed(shooter, 2, frame(2, interval))).unwrap();
    assert_eq!(host.launched.len(), 2);
    // A third, overdue intent between the two on the pilot's clock is refused.
    assert_eq!(
        host.apply(aimed(shooter, 3, frame(3, interval / 2))).unwrap_err(),
        "weapon is cooling down"
    );
    assert_eq!(host.launched.len(), 2);
}

#[test]
fn scheduled_fire_uses_the_same_tick_moving_muzzle_once() {
    let (mut host, shooter) = pilot();
    host.step(6_001);
    let mut input = frame(1, host.now() + 64_000_000);
    input.command.aim_yaw_rad = 0.4f64.to_bits();
    let shot = aimed(shooter, 1, input);
    host.apply(shot).unwrap();
    host.apply(shot).unwrap();
    assert_eq!(host.sim.shots.pending.len(), 1);
    assert_eq!(host.sim.shots.scheduled_shot(shooter, 1), Some(input.sampled_time_ns));
    assert_eq!(host.launched.len(), 0);
    let mut changed = input;
    changed.command.aim_yaw_rad = 1f64.to_bits();
    assert_eq!(
        host.apply(aimed(shooter, 1, changed)).unwrap_err(),
        "shot id changed contents"
    );
    host.step(64);
    assert!(host.sim.shots.shot_result(shooter, 1).is_none());
    host.step(1);
    assert_eq!(
        host.sim.shots.shot_result(shooter, 1).unwrap().executed_time_ns,
        Some(input.sampled_time_ns)
    );
    host.apply(shot).unwrap();
    assert_eq!(host.launched.len(), 1);
    assert_eq!(host.sim.shots.take_completed_shots().len(), 1);
}

#[test]
fn shot_queue_is_bounded_and_cancels_across_pause_placement_and_defeat() {
    for change in 0..3 {
        let (mut host, shooter) = pilot();
        let input = frame(1, 100_000_000);
        for shot_id in 1..=32 {
            host.apply(aimed(shooter, shot_id, input)).unwrap();
        }
        assert_eq!(host.apply(aimed(shooter, 33, input)).unwrap_err(), "shot schedule full");
        match change {
            0 => {
                host.apply(Command::Pause { paused: true }).unwrap();
                host.apply(Command::Pause { paused: false }).unwrap();
            }
            1 => {
                let place = Command::PlaceChassis {
                    chassis: shooter,
                    position_m: [0., 0., 1f64].map(f64::to_bits),
                    yaw_deg: 0,
                };
                host.apply(place).unwrap();
            }
            _ => host.body_mut(shooter).defeated = true,
        }
        host.step(150);
        assert!(host.sim.shots.pending.is_empty());
        assert_eq!(host.launched.len(), 0);
        assert_eq!(host.sim.shots.take_completed_shots().len(), 32);
        assert!(host.sim.shots.shot_result(shooter, 1).unwrap().result.is_err());
    }
}

#[test]
fn same_tick_queued_shots_do_not_form_a_burst_and_partitioning_is_stable() {
    let run = |parts: &[u64]| -> (Vec<FireRecord>, Vec<ShotResult>) {
        let (mut host, shooter) = pilot();
        for shot_id in (1..=3).rev() {
            host.apply(aimed(shooter, shot_id, frame(shot_id, 50_000_000))).unwrap();
        }
        for part in parts {
            host.step(*part);
        }
        (host.sim.shots.records.clone(), host.sim.shots.take_completed_shots())
    };
    let a = run(&[100]);
    let b = run(&[25, 25, 1, 49]);
    assert_eq!(a, b);
    assert_eq!(a.0.len(), 1);
    assert_eq!(a.1.iter().filter(|r| r.result.is_err()).count(), 2);
}

#[test]
fn reordered_fresh_shots_are_deduplicated_without_sequence_head_of_line_loss() {
    let (mut host, shooter) = pilot();
    // Each shot has its own intended time; the newer one arrives first.
    let interval = weapon().interval_ns;
    let command =
        |shot_id: u64| aimed(shooter, shot_id, frame(shot_id, (shot_id - 1) * interval));
    host.apply(command(2)).unwrap();
    host.step(2 * interval / TICK_NS);
    assert_eq!(host.launched.len(), 1);
    host.apply(command(1)).unwrap();
    host.apply(command(1)).unwrap();
    host.apply(command(2)).unwrap();
    assert_eq!(host.launched.len(), 2);
}

#[test]
fn outage_shots_expire_without_backlog_bursts_or_movement_refresh() {
    let (mut host, shooter) = pilot();
    let mut input = frame(1, 0);
    input.command.forward_m_s = 2f64.to_bits();
    host.step(300);
    assert!(host.apply(aimed(shooter, 1, input)).is_err());
    assert_eq!(host.launched.len(), 0);
    input.sampled_time_ns = host.now();
    let shot = aimed(shooter, 2, input);
    host.apply(shot).unwrap();
    host.apply(shot).unwrap();
    assert_eq!(host.launched.len(), 1);
    assert_eq!(host.body(shooter).unwrap().command.forward_m_s, 0);
    assert!(host.apply(aimed(shooter, 3, input)).is_err());
    assert_eq!(host.launched.len(), 1);
}

#[test]
fn queued_and_delayed_inputs_and_shots_cannot_cross_pause_epochs() {
    let (mut host, chassis) = pilot();
    let mut frame = frame(1, 100_000_000);
    frame.command.forward_m_s = 2f64.to_bits();
    host.apply(Command::PilotInput { chassis, frame }).unwrap();
    host.apply(Command::Pause { paused: true }).unwrap();
    host.apply(Command::Pause { paused: false }).unwrap();
    assert_eq!(
        host.apply(Command::PilotInput { chassis, frame }).unwrap_err(),
        "input epoch expired"
    );
    assert!(host.apply(aimed(chassis, 1, frame)).is_err());
    host.step(150);
    assert_eq!(host.body(chassis).unwrap().command.forward_m_s, 0);
    frame.input_epoch = host.sim.pacing.input_epoch;
    frame.sampled_time_ns = host.now();
    frame.sequence += 1;
    host.apply(Command::PilotInput { chassis, frame }).unwrap();
    assert_eq!(host.body(chassis).unwrap().command.forward_m_s, 2f64.to_bits());
}

#[test]
fn future_controls_cannot_cross_a_reset_or_revived_life() {
    let (mut host, chassis) = pilot();
    let mut frame = frame(1, 100_000_000);
    frame.command.forward_m_s = 2f64.to_bits();
    host.apply(Command::PilotInput { chassis, frame }).unwrap();
    host.apply(Command::ResetRobot { chassis }).unwrap();
    host.step(150);
    assert_eq!(host.body(chassis).unwrap().command.forward_m_s, 0);
    assert!(host.apply(Command::PilotInput { chassis, frame }).is_err());
}

#[test]
fn aimed_fire_uses_its_own_input_without_rewinding_newer_held_aim() {
    let (mut host, shooter) = pilot();
    let aim = |sequence: u64, yaw: f64| {
        let mut input = frame(sequence, 0);
        input.command.aim_yaw_rad = yaw.to_bits();
        input
    };
    let earlier = aim(1, 0.25);
    let newer = aim(2, 1.25);
    host.apply(Command::PilotInput { chassis: shooter, frame: newer }).unwrap();
    let shot = aimed(shooter, 1, earlier);
    host.apply(shot).unwrap();
    assert_eq!(host.body(shooter).unwrap().command, newer.command);
    host.apply(shot).unwrap();
    assert_eq!(host.sim.shots.records.len(), 1);
    assert_eq!(host.launched.len(), 1);
    // The shot's own aim rides over the held movement.
    let held = ChassisCommand { forward_m_s: 3f64.to_bits(), ..ChassisCommand::default() };
    let over = earlier.command.aimed_over(&held);
    assert_eq!((over.forward_m_s, over.aim_yaw_rad), (3f64.to_bits(), 0.25f64.to_bits()));
}

#[test]
fn cad_construction_preserves_pause_and_rules_without_creating_a_pilot() {
    let events: Vec<BuildProgress> =
        build_plan(false, true).into_iter().filter_map(|step| step.announced()).collect();
    // No terrain files exist: disabling collision must skip their loading.
    assert_eq!(events, [BuildProgress::BuildingPhysics, BuildProgress::PreparingChassis]);
    let sim = Simulation::new(TICK_NS, true, weapon(), limits());
    assert!(sim.pacing.paused);
    let mut pacing = sim.pacing;
    assert_eq!(pacing.advance(1_000_000), 0);
    assert!(sim.pilot_spawns.is_empty());
}

#[test]
fn cad_construction_can_disable_chassis_runes_and_referee() {
    let events: Vec<BuildProgress> =
        build_plan(false, false).into_iter().filter_map(|step| step.announced()).collect();
    assert_eq!(events, [BuildProgress::BuildingPhysics]);
    let mut host = Host::new(weapon());
    host.spawner = false;
    assert!(!host.sim.pacing.paused);
    let bot = Command::SpawnBot { team: Team::Red, spin_rad_s: 0 };
    assert!(host.apply(bot).is_err());
    assert!(host.bodies.is_empty());
}

#[test]
fn cad_construction_propagates_terrain_and_physics_failures() {
    // The first step fails: nothing after it is announced.
    let first = build_plan(true, false)[0];
    assert_eq!(first.announced(), Some(BuildProgress::ReadingTerrain));
}

#[test]
fn construction_announces_terrain_when_it_is_ready() {
    let mut events = Vec::new();
    for step in build_plan(true, true) {
        events.extend(step.announced());
        events.extend(step.completed("4 triangles".to_string()));
    }
    assert_eq!(
        events,
        [
            BuildProgress::ReadingTerrain,
            BuildProgress::BuildingPhysics,
            BuildProgress::TerrainReady("4 triangles".to_string()),
            BuildProgress::PreparingChassis,
        ]
    );
}

#[test]
fn shots_are_refused_with_their_reason() {
    let facts = ShooterFacts { revision: Some(0), defeated: Some(false) };
    let mut shots = Shots::new();
    let shot = |shot_id: u64, input: InputFrame| AimedShot { shooter: 1, shot_id, input, timing: None };
    let now = 1_000_000_000;
    let check = |shots: &Shots, shot: AimedShot, facts: ShooterFacts, paused: bool| {
        shots.validate_shot(&shot, facts, paused, 0, now)
    };
    let good = frame(1, now);
    assert_eq!(check(&shots, shot(1, good), facts, false), None);
    assert_eq!(check(&shots, shot(0, good), facts, false), Some(ShotRefusal::Stale));
    let unknown = ShooterFacts { revision: None, defeated: None };
    assert_eq!(check(&shots, shot(1, good), unknown, false), Some(ShotRefusal::NoChassis));
    assert_eq!(check(&shots, shot(1, good), facts, true), Some(ShotRefusal::Expired));
    let down = ShooterFacts { defeated: Some(true), ..facts };
    assert_eq!(check(&shots, shot(1, good), down, false), Some(ShotRefusal::Expired));
    let mut infinite = good;
    infinite.command.forward_m_s = f64::INFINITY.to_bits();
    for bad in [
        InputFrame { input_epoch: 1, ..good },
        InputFrame { placement_revision: 1, ..good },
        InputFrame { sequence: 0, ..good },
        InputFrame { sampled_time_ns: now - 250_000_001, ..good },
        InputFrame { sampled_time_ns: now + 200_000_001, ..good },
        infinite,
    ] {
        assert_eq!(check(&shots, shot(1, bad), facts, false), Some(ShotRefusal::Expired));
    }
    for edge in [now - 250_000_000, now + 200_000_000] {
        let input = InputFrame { sampled_time_ns: edge, ..good };
        assert_eq!(check(&shots, shot(1, input), facts, false), None);
    }
    // An id far behind the newest is stale.
    shots.settle(&shot(200, good), Ok(1), now);
    assert_eq!(check(&shots, shot(72, good), facts, false), Some(ShotRefusal::Stale));
    assert_eq!(check(&shots, shot(73, good), facts, false), None);
    // A shooter that leaves is forgotten, its queued shots cancelled.
    let late = InputFrame { sampled_time_ns: now + 1, ..good };
    shots.take_in(shot(201, late), facts, false, 0, now);
    shots.forget(1, now);
    let gone = shots.take_completed_shots();
    assert_eq!(gone.last().unwrap().result, Err(ShotRefusal::Disconnected));
    assert!(shots.shot_result(1, 200).is_none());
    assert_eq!(ShotRefusal::Paused.message(), Some("shot cancelled by pause or epoch change"));
    assert_eq!(ShotRefusal::Field(FieldError::TickOverflow).message(), None);
}

#[test]
fn the_newest_results_of_each_shooter_are_published() {
    let mut shots = Shots::new();
    for shooter in [5, 2] {
        for shot_id in 1..=40 {
            let shot = AimedShot { shooter, shot_id, input: frame(1, 0), timing: None };
            shots.settle(&shot, Ok(shot_id), 0);
        }
    }
    let published = shots.published_results();
    assert_eq!(published.len(), 64);
    assert_eq!((published[0].shooter, published[0].shot_id), (2, 40));
    assert_eq!((published[31].shooter, published[31].shot_id), (2, 9));
    assert_eq!((published[32].shooter, published[32].shot_id), (5, 40));
}

#[test]
fn a_sweep_drops_fires_and_waits() {
    let (mut host, shooter) = pilot();
    let other = host.spawn(Team::Blue, None);
    host.apply(aimed(shooter, 1, frame(1, 5_000_000))).unwrap();
    host.apply(aimed(other, 1, frame(1, 5_000_000))).unwrap();
    host.apply(aimed(shooter, 2, frame(2, 90_000_000))).unwrap();
    let moment = Moment {
        shooters: vec![(shooter, host.shooter(shooter))],
        paused: false,
        input_epoch: 0,
        now_ns: 6_000_000,
    };
    // The shooter that is gone loses its shot, the one that is due fires.
    let (at, shot) = host.sim.shots.execute_pending_shots(0, &moment);
    assert_eq!((at, shot.unwrap().shot_id), (0, 1));
    host.sim.shots.finish(at, Ok(7), moment.now_ns);
    assert_eq!(host.sim.shots.execute_pending_shots(at, &moment), (1, None));
    assert_eq!(host.sim.shots.pending.len(), 1);
    assert_eq!(host.sim.shots.pending[0].shot_id, 2);
    let gone = host.sim.shots.shot_result(other, 1).unwrap().result;
    assert_eq!(gone, Err(ShotRefusal::NoChassis));
}

#[test]
fn host_time_in_pieces_steps_the_same_ticks() {
    let mut whole = Pacing::new(3_000_000, false);
    let mut pieces = whole;
    let first = pieces.advance(7_000_001) + pieces.advance(4_999_998);
    assert_eq!(whole.advance(11_999_999), first);
    assert_eq!(first, 3);
    assert_eq!(whole, pieces);
    assert_eq!(whole.carry_ns, 2_999_999);
}

#[test]
fn a_gun_keeps_its_interval_with_every_shot_it_fired() {
    let mut host = Host::new(WeaponConfig { interval_ns: 1_000_000, ..weapon() });
    let shooter = host.spawn(Team::Red, None);
    for _ in 0..40 {
        host.apply(fire(shooter)).unwrap();
        host.step(1);
    }
    let cooling = Some(ShotRefusal::CoolingDown);
    for earlier in [0, 6_000_000, 39_000_000] {
        assert_eq!(host.sim.check_fire(shooter, earlier, Some(0)), cooling);
    }
    assert_eq!(host.sim.check_fire(shooter, 40_000_000, Some(0)), None);
    host.remove(shooter);
    assert_eq!(host.sim.check_fire(shooter, 0, Some(0)), None);
}

#[test]
fn a_weapon_belongs_to_a_chassis_with_or_without_a_spawn_record() {
    let mut sim = Simulation::new(TICK_NS, false, weapon(), limits());
    let slow = WeaponConfig { interval_ns: 80_000_000, ..weapon() };
    sim.set_weapon(77, slow);
    assert_eq!(sim.weapon_for(77), slow);
    assert_eq!(sim.weapon_for(78), weapon());
    sim.remove_chassis(77, 0);
    assert_eq!(sim.weapon_for(77), weapon());
}

#[test]
fn caps_follow_the_hosts_weapon_until_they_are_set() {
    let mut sim = Simulation::new(TICK_NS, false, weapon(), limits());
    let slow = WeaponConfig { speed_m_s: 12f64.to_bits(), interval_ns: 70_000_000, ..weapon() };
    assert_eq!(sim.with_weapon(slow, Err("weapon speed")), Err("weapon speed"));
    assert_eq!((sim.weapon, sim.weapon_limits), (weapon(), limits()));
    sim.with_weapon(slow, Ok(slow)).unwrap();
    let matched = WeaponLimits { max_speed_m_s: 12f64.to_bits(), min_interval_ns: 70_000_000 };
    assert_eq!((sim.weapon, sim.weapon_limits), (slow, matched));
    assert_eq!(sim.with_weapon_limits(limits(), Err("too fast")), Err("too fast"));
    assert_eq!(sim.weapon_limits, matched);
    sim.with_weapon_limits(limits(), Ok(slow)).unwrap();
    assert_eq!(sim.weapon_limits, limits());
    assert_eq!(f64::from_bits(sim.weapon_limits.max_speed_m_s), 30.0);
}

#[test]
fn streams_end_with_their_placement_and_with_defeat() {
    assert!(keeps_stream(true, Some(false)));
    assert!(!keeps_stream(false, Some(false)));
    assert!(!keeps_stream(true, Some(true)));
    assert!(!keeps_stream(true, None));
    let (mut host, shooter) = pilot();
    assert!(host.sim.steps_at_once(false));
    assert!(!host.sim.steps_at_once(true));
    host.apply(aimed(shooter, 1, frame(1, 16_000_000))).unwrap();
    assert!(!host.sim.steps_at_once(false));
}

#[test]
fn bots_are_listed_ascending_and_once() {
    let mut sim = Simulation::new(TICK_NS, false, weapon(), limits());
    for bot in [5, 2, 9, 5] {
        sim.add_bot(bot);
    }
    assert_eq!(sim.bot_ids(), [2, 5, 9]);
    let place = at([1.0, 2.0, 0.0]);
    sim.place(2, at([0.0; 3]), None);
    sim.place(2, place, None);
    assert_eq!(sim.spawn_of(2), Some(place));
    sim.remove_chassis(2, 0);
    assert_eq!(sim.bot_ids(), [5, 9]);
    assert_eq!(sim.spawn_of(2), None);
}

#[test]
fn the_last_epoch_takes_every_command_but_a_change_of_the_pause() {
    let (mut host, id) = pilot();
    host.sim.pacing.input_epoch = u64::MAX;
    host.apply(Command::Step { ticks: 3 }).unwrap();
    host.apply(Command::Pause { paused: false }).unwrap();
    host.apply(Command::ResetRobot { chassis: id }).unwrap();
    assert_eq!((host.tick, host.sim.pacing.input_epoch), (3, u64::MAX));
}

#[test]
fn revival_without_fresh_packets_neutralizes_the_previous_drive() {
    for referee in [false, true] {
        let (mut host, chassis) = pilot();
        let mut first = frame(1, 0);
        first.command.forward_m_s = 2f64.to_bits();
        host.apply(Command::PilotInput { chassis, frame: first }).unwrap();
        assert_eq!(host.body(chassis).unwrap().command.forward_m_s, 2f64.to_bits());
        let down = RefereeCommand::SetRobotHp { robot: chassis, hp: 0 };
        host.apply(Command::Referee(down)).unwrap();
        host.apply(if referee {
            Command::Referee(RefereeCommand::ReviveRobot { robot: chassis })
        } else {
            Command::Respawn { chassis }
        })
        .unwrap();
        host.step(300);
        assert_eq!(host.body(chassis).unwrap().command.forward_m_s, 0);
    }
}

#[test]
fn a_retried_shot_is_compared_as_numbers() {
    let (mut host, shooter) = pilot();
    let mut input = frame(1, 16_000_000);
    input.command.aim_yaw_rad = 0f64.to_bits();
    host.apply(aimed(shooter, 1, input)).unwrap();
    input.command.aim_yaw_rad = (-0f64).to_bits();
    host.apply(aimed(shooter, 1, input)).unwrap();
    input.command.aim_yaw_rad = 0.5f64.to_bits();
    assert_eq!(
        host.apply(aimed(shooter, 1, input)).unwrap_err(),
        "shot id changed contents"
    );
    assert_eq!(host.sim.shots.pending.len(), 1);
}

#[test]
fn pieces_of_host_time_are_capped_one_by_one_and_none_is_lost() {
    let mut sim = Simulation::new(TICK_NS, false, weapon(), limits());
    let pieces = [400_000, 400_000_000, 300_000, 999_999_999_999, 300_001];
    let stepped: u64 = pieces.iter().map(|&d| sim.advance(d)).sum();
    assert_eq!(stepped, (400_000 + 250_000_000 + 300_000 + 250_000_000 + 300_001) / TICK_NS);
    assert_eq!(sim.pacing.carry_ns, 1);
    sim.set_paused(true, 0);
    assert_eq!(sim.advance(5_000_000), 0);
    assert_eq!(sim.pacing.carry_ns, 0);
}

#[test]
fn a_recorded_shot_answers_every_retry() {
    let (mut host, shooter) = pilot();
    host.apply(aimed(shooter, 1, frame(1, 0))).unwrap();
    assert!(host.sim.shot_result(shooter, 1).unwrap().result.is_ok());
    let refused = host.apply(aimed(shooter, 2, frame(2, 0))).unwrap_err();
    let before = host.sim.clone();
    host.apply(aimed(shooter, 1, frame(9, 30_000_000))).unwrap();
    assert_eq!(host.apply(aimed(shooter, 2, frame(9, 30_000_000))).unwrap_err(), refused);
    assert_eq!(host.sim, before);
    assert_eq!(host.launched.len(), 1);
}

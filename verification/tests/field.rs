use rm_simulator::base::BaseConfig;
use rm_simulator::binary::Pose;
use rm_simulator::field::bodies::{check_projectile_bounds, BodyPlace, Defeat, ZoneSighting};
use rm_simulator::field::layout::{
    target_order, BasePlacement, FieldConfig, FieldRecord, OutpostConfig, RuneConfig,
};
use rm_simulator::field::run::{Collision, Demand, Event, Touch};
use rm_simulator::field::scoring::{Applied, Contact};
use rm_simulator::field::stepping::buy_ammo;
use rm_simulator::field::{Field, FieldError};
use rm_simulator::game::{
    GameCall, GameError, GameEvent, GameEventKind, GamePhase, GameTeam, GameView, RobotKind, RobotState, RoundResult,
    StrikeTarget, Zone, ZoneContact, ZoneKind,
};
use rm_simulator::outpost::INITIAL_HP;
use rm_simulator::projectile::{ArmorHit, Rejection};
use rm_simulator::referee::model::Progress;
use rm_simulator::referee::rules::{defended, ring_of};
use rm_simulator::referee::{
    MatchPhase, RefereeCommand, RefereeConfig, RefereeEvent, COLLISION_DAMAGE_HP, COUNTDOWN_NS,
    OUTPOST_ROTOR_STOP_NS,
};
use rm_simulator::rune::{HitOutcome, RuneKind, RuneState};
use rm_simulator::target::{ArmorTarget, Caliber, Team};
use rm_simulator::zones::{rmuc_2026, ZoneArea, ZONE_BODY_BAND_M};

const TICK_NS: u64 = 1_000_000;
const TRAVEL_NS: u64 = 2_000_000_000;

fn ticks(ns: u64) -> u64 {
    ns / TICK_NS
}

fn at(translation: [f64; 3]) -> Pose {
    Pose {
        translation_m: translation.map(f64::to_bits),
        rotation_wxyz: [1f64, 0., 0., 0.].map(f64::to_bits),
    }
}

fn rune(kind: RuneKind, cad_orbit: bool) -> RuneConfig {
    RuneConfig { kind, hub_pose: at([6.0, 0.0, 1.6]), unit_rotation: true, cad_orbit }
}

fn tower(x: f64, speed: f64) -> OutpostConfig {
    OutpostConfig {
        pivot_cad_m: [0.1f64, 0.8, 0.03].map(f64::to_bits),
        origin: at([x, 0.0, 0.0]),
        unit_rotation: true,
        speed_rad_s: speed.to_bits(),
    }
}

fn default_config() -> FieldConfig {
    FieldConfig {
        bases: Vec::new(),
        runes: vec![rune(RuneKind::Small, false)],
        outposts: vec![tower(4.0, 0.8), tower(-4.0, 0.8)],
        referee: None,
    }
}

fn stationary_outpost() -> FieldConfig {
    FieldConfig { runes: Vec::new(), outposts: vec![tower(4.0, 0.0)], ..default_config() }
}

fn base(team: Team) -> BasePlacement {
    BasePlacement {
        config: BaseConfig {
            team,
            plates: std::array::from_fn(|i| at([i as f64, 0., 1.])),
            dart_offsets_m: [[0; 3]; 2],
        },
        unit_rotations: true,
    }
}

/// A plain engine: HP, the round clock and rune defense.
struct Engine {
    view: GameView,
    defense: [u32; 2],
    applied: Applied,
    captured_ticks: u64,
}

impl Engine {
    fn new() -> Engine {
        let team = GameTeam {
            base_hp: 5000,
            base_shield_hp: 150,
            outpost_hp: 1500,
            base_armor_expanded: false,
        };
        Engine {
            view: GameView {
                phase: GamePhase::Idle,
                round_ticks: 0,
                countdown_left_ticks: 0,
                red: team,
                blue: team,
                robots: Vec::new(),
                contacts: Vec::new(),
                result: None,
                events: Vec::new(),
                next_event_id: 0,
            },
            defense: [0; 2],
            applied: Applied { hp: 0, shield: 0 },
            captured_ticks: 0,
        }
    }

    fn tell(&mut self, kind: GameEventKind) {
        self.view.events.push(GameEvent { id: self.view.next_event_id, kind });
        self.view.next_event_id += 1;
    }

    /// Twenty seconds on a fortress whose outpost is lost expand its base.
    fn hold_fortress(&mut self, ticks: u64) {
        let held = self.view.contacts.iter().any(|c| c.detected && c.zone.kind == ZoneKind::Fortress);
        if !held || self.view.red.outpost_hp > 0 || self.view.round_ticks < 180_000 {
            return;
        }
        self.captured_ticks += ticks;
        if self.captured_ticks >= 20_000 && !self.view.red.base_armor_expanded {
            self.view.red.base_armor_expanded = true;
            self.tell(GameEventKind::BaseArmorExpanded(Team::Red));
        }
    }

    fn team(&mut self, team: Team) -> &mut GameTeam {
        match team {
            Team::Red => &mut self.view.red,
            Team::Blue => &mut self.view.blue,
        }
    }

    fn call(&mut self, call: GameCall) -> Result<(), GameError> {
        match call {
            GameCall::Step { ticks } => match self.view.phase {
                GamePhase::Countdown => {
                    self.view.countdown_left_ticks -= ticks;
                    if self.view.countdown_left_ticks == 0 {
                        self.view.phase = GamePhase::Running;
                    }
                }
                GamePhase::Running => {
                    self.view.round_ticks += ticks;
                    self.hold_fortress(ticks);
                    let winner = if self.view.blue.base_hp == 0 {
                        Some(Team::Red)
                    } else if self.view.red.base_hp == 0 {
                        Some(Team::Blue)
                    } else {
                        return Ok(());
                    };
                    self.view.phase = GamePhase::Ended;
                    self.view.result = Some(RoundResult { decided: true, winner });
                }
                _ => {}
            },
            GameCall::SkipTo { round_ticks } => self.view.round_ticks = round_ticks,
            GameCall::BeginCountdown => {
                self.view.phase = GamePhase::Countdown;
                self.view.countdown_left_ticks = 5_000;
            }
            GameCall::ResetMatch => {
                let robots = std::mem::take(&mut self.view.robots);
                *self = Engine::new();
                self.view.robots = robots;
                for robot in &mut self.view.robots {
                    robot.hp = robot.max_hp;
                    robot.alive = true;
                }
            }
            GameCall::EndRound => self.view.phase = GamePhase::Ended,
            GameCall::SetBase { team, hp, shield_hp } => {
                self.team(team).base_hp = hp;
                self.team(team).base_shield_hp = shield_hp;
            }
            GameCall::SetOutpostHp { team, hp } => {
                if hp > 1500 {
                    return Err(GameError::Invalid);
                }
                self.team(team).outpost_hp = hp;
            }
            GameCall::RuneActivated { team, defense_pct, .. }
            | GameCall::ApplyRuneBuff { team, defense_pct, .. } => {
                self.defense[team.index()] = defense_pct;
            }
            GameCall::ClearRuneBuff { team } => self.defense[team.index()] = 0,
            GameCall::AddRobot { robot, team, kind, .. } => self.view.robots.push(RobotState {
                id: robot,
                team,
                kind,
                hp: 200,
                max_hp: 200,
                level: 1,
                alive: true,
                ejected: false,
                weakened: false,
                overheated: false,
                heat_locked_for_round: false,
                speed_locked_for_round: false,
                speed_locked_until_ticks: 0,
                irregularly_disconnected: false,
                air_support_active: false,
            }),
            GameCall::SetRobotHp { robot, hp } => {
                let state = self.view.robots.iter_mut().find(|r| r.id == robot).unwrap();
                state.hp = hp;
                state.alive = hp > 0;
            }
            GameCall::Revive { robot } => {
                let state = self.view.robots.iter_mut().find(|r| r.id == robot).unwrap();
                state.hp = state.max_hp;
                state.alive = true;
            }
            GameCall::RemoveRobot { robot } => self.view.robots.retain(|r| r.id != robot),
            GameCall::Damage { target: StrikeTarget::Robot(robot), amount, .. } => {
                let state = self.view.robots.iter_mut().find(|r| r.id == robot).unwrap();
                state.hp = state.hp.saturating_sub(amount);
            }
            GameCall::ZoneDetection { robot, zone, detected } => {
                self.view.contacts.push(ZoneContact { robot, zone, detected });
            }
            GameCall::Projectile(strike) => {
                let worth = if strike.caliber == Caliber::Mm17 { 20 } else { 200 };
                let worth = if strike.critical { worth * 3 / 2 } else { worth };
                self.applied = Applied { hp: 0, shield: 0 };
                match strike.target {
                    StrikeTarget::Outpost(team) => {
                        let lost = defended(worth, self.defense[team.index()]);
                        self.team(team).outpost_hp -= lost;
                        self.applied.hp = lost;
                    }
                    StrikeTarget::Base(team) => {
                        let side = self.team(team);
                        let shield = worth.min(side.base_shield_hp);
                        side.base_shield_hp -= shield;
                        let hp = (worth - shield).min(side.base_hp);
                        side.base_hp -= hp;
                        self.applied = Applied { hp, shield };
                    }
                    StrikeTarget::Robot(robot) => {
                        let state = self.view.robots.iter_mut().find(|r| r.id == robot).unwrap();
                        let lost = worth.min(state.hp);
                        state.hp -= lost;
                        state.alive = state.hp > 0;
                        self.applied.hp = lost;
                    }
                }
            }
            _ => {}
        }
        Ok(())
    }
}

/// A field with its engine and the bodies on it.
struct World {
    field: Field,
    engine: Engine,
    moving: bool,
    touches: Vec<Touch>,
    collisions: Vec<Collision>,
    bodies: Vec<BodyPlace>,
    areas: Vec<ZoneArea>,
    reported: Vec<ArmorHit>,
}

impl World {
    fn new(config: FieldConfig) -> World {
        World::over(Field::new(config, TICK_NS, TRAVEL_NS).unwrap())
    }

    fn over(field: Field) -> World {
        World {
            field,
            engine: Engine::new(),
            moving: false,
            touches: Vec::new(),
            collisions: Vec::new(),
            bodies: Vec::new(),
            areas: Vec::new(),
            reported: Vec::new(),
        }
    }

    fn drive(&mut self, mut progress: Progress) -> Result<(), FieldError> {
        loop {
            match progress {
                Progress::Call(call) => {
                    let reply = self.engine.call(call);
                    progress = self.field.resume_referee(reply, &self.engine.view);
                }
                Progress::Done => return Ok(()),
                Progress::Refused(reason) => return Err(FieldError::Referee(reason)),
            }
        }
    }

    fn step(&mut self, ticks: u64) -> Result<(), FieldError> {
        let mut run = self.field.begin_step(ticks)?;
        let mut event = Event::Idle(!self.moving);
        loop {
            event = match self.field.go_on(&mut run, event, &self.areas, &self.engine.view) {
                Demand::Idle => Event::Idle(!self.moving),
                Demand::Call(call) => {
                    let reply = self.engine.call(call);
                    Event::Answer { reply, applied: self.engine.applied }
                }
                Demand::Move => Event::Moved {
                    touches: std::mem::take(&mut self.touches),
                    collisions: std::mem::take(&mut self.collisions),
                    bodies: self.bodies.clone(),
                },
                Demand::Report(hit) => {
                    self.reported.push(hit);
                    Event::Seen
                }
                Demand::Finished => return Ok(()),
                Demand::Failed(error) => return Err(error),
            };
        }
    }

    fn command(&mut self, command: RefereeCommand) -> Result<(), FieldError> {
        let progress = self.field.command_referee(command, &self.engine.view)?;
        self.drive(progress)?;
        self.field.settle_command(command, &self.engine.view);
        Ok(())
    }

    fn add_robot(&mut self, robot: u32, team: Team) {
        let view = self.engine.view.clone();
        let referee = self.field.referee.as_mut().unwrap();
        let progress = referee.add_robot(robot, team, RobotKind::Infantry, None, &view);
        self.drive(progress).unwrap();
    }

    /// A contact the physics saw; `None` on disabled armor.
    fn contact(&mut self, contact: Contact) -> Option<ArmorHit> {
        if self.field.armor_disabled(contact.target, None) {
            return None;
        }
        if let Some(strike) = self.field.strike(&contact) {
            let referee = self.field.referee.as_mut().unwrap();
            let progress = referee.projectile_hit(strike);
            self.drive(progress).unwrap();
        }
        let hit = self.field.score(&contact, self.engine.applied, &self.engine.view).unwrap();
        self.field.keep_hit(hit, contact.ring);
        Some(hit)
    }

    fn events(&self) -> Vec<RefereeEvent> {
        self.field.referee.as_ref().unwrap().events().iter().map(|e| e.event).collect()
    }
}

fn strike(projectile: u64, target: ArmorTarget, caliber: Caliber, offset: [f64; 2], speed: f64) -> Contact {
    Contact {
        projectile,
        shooter: None,
        caliber,
        target,
        position_m: [0; 3],
        local_m: [0, offset[0].to_bits(), offset[1].to_bits()],
        offset_m: Some(offset.map(f64::to_bits)),
        ring: ring_of((offset[0].hypot(offset[1]) / 0.015) as u64),
        normal_speed_m_s: speed.to_bits(),
        robot_damage: 20,
    }
}

const FACE: ArmorTarget = ArmorTarget::Outpost { outpost: 0, face: 0 };

#[test]
fn field_partition_invariance_holds_at_the_fixed_tick() {
    let mut whole = World::new(default_config());
    let mut split = World::new(default_config());
    whole.step(ticks(500_000_000)).unwrap();
    split.step(ticks(500_000_000)).unwrap();
    let total = ticks(1_500_000_000);
    whole.step(total).unwrap();
    let parts = [1, total / 7, total / 3];
    let rest = total - parts.iter().sum::<u64>();
    for part in parts.into_iter().chain([rest]) {
        split.step(part).unwrap();
    }
    assert_eq!(whole.field.tick(), split.field.tick());
    assert_eq!(whole.field.snapshot(&whole.engine.view), split.field.snapshot(&split.engine.view));
}

#[test]
fn default_field_steps_deterministically_in_any_partition() {
    let mut whole = World::new(default_config());
    let mut split = World::new(default_config());
    whole.step(2_600).unwrap();
    for ticks in [1, 999, 1_000, 600] {
        split.step(ticks).unwrap();
    }
    assert_eq!(whole.field.snapshot(&whole.engine.view), split.field.snapshot(&split.engine.view));
    let snapshot = whole.field.snapshot(&whole.engine.view);
    assert_eq!(snapshot.tick, 2_600);
    assert_eq!(snapshot.time_ns, 2_600 * TICK_NS);
    assert_eq!(snapshot.outposts.len(), 2);
    assert!(snapshot.runes[0].time_ns > snapshot.runes[0].epoch_ns);
    // Reading a snapshot does not advance time.
    assert_eq!(whole.field.snapshot(&whole.engine.view), snapshot);
}

#[test]
fn big_rune_and_empty_field_are_valid_and_invalid_input_is_rejected() {
    let mut big = World::new(FieldConfig {
        runes: vec![rune(RuneKind::Big, true), rune(RuneKind::Small, true)],
        outposts: Vec::new(),
        ..default_config()
    });
    big.step(10).unwrap();
    let snapshot = big.field.snapshot(&big.engine.view);
    assert_eq!(snapshot.runes[0].kind, RuneKind::Big);
    assert_eq!(snapshot.runes[1].kind, RuneKind::Small);
    assert!(snapshot.runes.iter().all(|rune| rune.target_radius_um == 698_500));
    assert!(snapshot.outposts.is_empty());
    let empty = World::new(FieldConfig {
        runes: Vec::new(),
        outposts: Vec::new(),
        ..default_config()
    });
    assert!(empty.field.snapshot(&empty.engine.view).runes.is_empty());
    let lost = OutpostConfig { origin: at([f64::NAN, 0.0, 0.0]), ..tower(0.0, 1.0) };
    assert!(matches!(
        Field::new(FieldConfig { outposts: vec![lost], ..default_config() }, TICK_NS, TRAVEL_NS),
        Err(FieldError::Outpost(_))
    ));
    let flat = RuneConfig { unit_rotation: false, ..rune(RuneKind::Small, false) };
    assert!(matches!(
        Field::new(FieldConfig { runes: vec![flat], ..default_config() }, TICK_NS, TRAVEL_NS),
        Err(FieldError::Rune(_))
    ));
    let mut world = World::new(default_config());
    assert_eq!(world.step(u64::MAX), Err(FieldError::TickOverflow));
    assert_eq!(world.field.tick(), 0);
}

#[test]
fn outpost_strike_is_detected_once_per_interval_and_costs_hp() {
    let mut world = World::new(stationary_outpost());
    world.moving = true;
    world.step(ticks(60_000_000)).unwrap();
    let first = strike(1, FACE, Caliber::Mm17, [0.008, 0.0], 24.0);
    let hit = world.contact(first).unwrap();
    assert!(hit.detected);
    assert_eq!(hit.target, FACE);
    assert_eq!(hit.damage, 20);
    world.step(ticks(10_000_000)).unwrap();
    let second = strike(2, FACE, Caliber::Mm17, [0.03, 0.0], 24.0);
    let rejected = world.contact(second).unwrap();
    assert!(!rejected.detected);
    assert_eq!(rejected.rejection, Some(Rejection::DetectionInterval));
    assert_eq!(rejected.damage, 0);
    world.step(ticks(230_000_000)).unwrap();
    let snapshot = world.field.snapshot(&world.engine.view);
    assert_eq!(snapshot.hits_detected, 1);
    assert_eq!(snapshot.hits.len(), 2);
    assert_eq!(snapshot.hits[0].projectile, 1);
    assert_eq!(snapshot.hits[1].projectile, 2);
    assert_eq!(snapshot.outposts[0].hp, INITIAL_HP - 20);
    // Hits age out of the snapshot after a second.
    world.step(ticks(1_000_000_000)).unwrap();
    assert!(world.field.snapshot(&world.engine.view).hits.is_empty());
    assert_eq!(world.field.snapshot(&world.engine.view).hits_detected, 1);
    // The interval ends with its last nanosecond.
    let third = world.contact(strike(3, FACE, Caliber::Mm17, [0.0, 0.0], 24.0)).unwrap();
    assert_eq!(third.damage, 30);
    world.step(ticks(50_000_000)).unwrap();
    assert!(world.contact(strike(4, FACE, Caliber::Mm17, [0.0, 0.0], 24.0)).unwrap().detected);
}

#[test]
fn slow_and_heavy_shots_follow_their_own_thresholds() {
    let mut world = World::new(stationary_outpost());
    let slow = world.contact(strike(1, FACE, Caliber::Mm17, [0.0, 0.0], 11.0)).unwrap();
    assert!(!slow.detected);
    assert_eq!(slow.rejection, Some(Rejection::NormalSpeed));
    let even = world.contact(strike(1, FACE, Caliber::Mm17, [0.0, 0.0], 12.0)).unwrap();
    assert_eq!(even.rejection, Some(Rejection::NormalSpeed));
    let mut world = World::new(stationary_outpost());
    let heavy = world.contact(strike(1, FACE, Caliber::Mm42, [0.03, 0.06], 11.5)).unwrap();
    assert!(heavy.detected);
    assert_eq!(heavy.damage, 200);
    assert_eq!(world.field.snapshot(&world.engine.view).outposts[0].hp, INITIAL_HP - 200);
}

#[test]
fn rune_target_scores_from_its_visible_front_and_rejects_42mm() {
    let config = FieldConfig { outposts: Vec::new(), ..default_config() };
    let blade = ArmorTarget::Rune { rune: 0, blade: 0 };
    let mut world = World::new(config.clone());
    world.step(ticks(60_000_000)).unwrap();
    let hit = world.contact(strike(1, blade, Caliber::Mm17, [0.0, 0.02], 24.0)).unwrap();
    assert!(hit.detected);
    assert_eq!(hit.rune_outcome, Some(HitOutcome::Accepted { blade: 0, next_blade: 1 }));
    let snapshot = world.field.snapshot(&world.engine.view);
    assert_eq!(snapshot.runes[0].active_blade, Some(1));
    assert!(snapshot.runes[0].activated[0]);
    // A 42 mm projectile bounces off the same face without being detected.
    let mut world = World::new(config.clone());
    let hit = world.contact(strike(1, blade, Caliber::Mm42, [0.0, 0.02], 24.0)).unwrap();
    assert!(!hit.detected);
    assert_eq!(hit.rejection, Some(Rejection::Caliber));
    // Shooting the wheel from behind touches the housing back: no detection.
    let mut world = World::new(config);
    let mut behind = strike(1, blade, Caliber::Mm17, [0.0, 0.02], 24.0);
    behind.offset_m = None;
    assert_eq!(world.contact(behind).unwrap().rejection, Some(Rejection::OutsideTarget));
}

#[test]
fn disabled_outpost_armor_does_not_register_hits_and_revives() {
    let mut config = stationary_outpost();
    config.referee = Some(RefereeConfig::alternating(0, 1));
    let mut world = World::new(config);
    world.command(RefereeCommand::SetOutpostHp { outpost: 0, hp: 0 }).unwrap();
    assert!(world.contact(strike(1, FACE, Caliber::Mm17, [0.0, 0.005], 24.0)).is_none());
    world.step(100).unwrap();
    assert!(world.field.snapshot(&world.engine.view).hits.is_empty());
    assert_eq!(world.field.snapshot(&world.engine.view).hits_detected, 0);
    world.command(RefereeCommand::SetOutpostHp { outpost: 0, hp: 1500 }).unwrap();
    world.contact(strike(2, FACE, Caliber::Mm17, [0.0, 0.005], 24.0)).unwrap();
    world.step(100).unwrap();
    assert_eq!(world.field.snapshot(&world.engine.view).hits_detected, 1);
}

#[test]
fn referee_runs_the_match_on_the_field_clock_and_shields_buffed_outposts() {
    let mut config = stationary_outpost();
    config.runes = vec![rune(RuneKind::Small, false)];
    config.referee = Some(RefereeConfig::alternating(1, 1));
    let mut world = World::new(config.clone());
    let phase = |world: &World| world.field.referee.as_ref().unwrap().phase();
    assert_eq!(phase(&world), MatchPhase::Idle);
    assert_eq!(world.field.runes[0].state(), RuneState::Activating);
    assert_eq!(
        world.command(RefereeCommand::ActivateRune { team: Team::Red }),
        Err(FieldError::Referee("the round is not running"))
    );
    world.command(RefereeCommand::StartMatch).unwrap();
    assert_eq!(world.field.runes[0].state(), RuneState::Inactive);
    // The same match, stepped whole and in pieces, agrees.
    let mut split = World::new(config.clone());
    split.command(RefereeCommand::StartMatch).unwrap();
    let total = ticks(6_000_000_000);
    world.step(total).unwrap();
    let parts = [1, total / 2, total / 4];
    for part in parts {
        split.step(part).unwrap();
    }
    split.step(total - parts.iter().sum::<u64>()).unwrap();
    assert_eq!(world.field, split.field);
    let referee = world.field.referee.as_ref().unwrap().snapshot(&world.engine.view);
    assert_eq!(referee.phase, MatchPhase::Running);
    assert_eq!(referee.match_time_ns, 1_000_000_000);
    assert_eq!(referee.teams[0].rune_opportunities, 1);
    // Red activates by hitting each lit blade; the referee then shields red's outpost.
    world.command(RefereeCommand::ActivateRune { team: Team::Red }).unwrap();
    for _ in 0..5 {
        world.step(ticks(100_000_000)).unwrap();
        let time_ns = world.field.time_ns();
        let blade = world.field.runes[0].snapshot().active_blade.unwrap();
        world.field.runes[0].hit(time_ns, blade).unwrap();
    }
    world.step(1).unwrap();
    assert_eq!(world.field.runes[0].state(), RuneState::Activated);
    assert_eq!(world.engine.defense[0], 25);
    let hit = world.contact(strike(1, FACE, Caliber::Mm17, [0.0, 0.03], 24.0)).unwrap();
    assert!(hit.detected);
    assert_eq!(hit.damage, 15);
    assert_eq!(world.field.snapshot(&world.engine.view).outposts[0].hp, INITIAL_HP - 15);
    // Reset hands the rune back to training.
    world.command(RefereeCommand::ResetMatch).unwrap();
    assert_eq!(world.field.runes[0].state(), RuneState::Activating);
    assert_eq!(phase(&world), MatchPhase::Idle);
    // A referee needs an owner for every rune and outpost.
    config.referee = Some(RefereeConfig::alternating(2, 1));
    assert!(matches!(Field::new(config, TICK_NS, TRAVEL_NS), Err(FieldError::Referee(_))));
}

#[test]
fn projectiles_on_a_disabled_ring_are_rejected() {
    let config = FieldConfig {
        outposts: Vec::new(),
        referee: Some(RefereeConfig::alternating(1, 0)),
        ..default_config()
    };
    let mut world = World::new(config);
    world.command(RefereeCommand::StartMatch).unwrap();
    world.step(ticks(COUNTDOWN_NS)).unwrap();
    world.command(RefereeCommand::SkipTo { match_time_ns: 180_000_000_000 }).unwrap();
    world.step(1).unwrap();
    world.command(RefereeCommand::ActivateRune { team: Team::Red }).unwrap();
    for _ in 0..5 {
        let lit = world.field.runes[0].snapshot().active_blade.unwrap();
        let target = ArmorTarget::Rune { rune: 0, blade: lit };
        let hit = world.contact(strike(1, target, Caliber::Mm17, [0.0, 0.0], 24.0)).unwrap();
        assert!(hit.detected);
        world.step(ticks(1_100_000_000)).unwrap();
    }
    assert_eq!(world.field.runes[0].state(), RuneState::Activated);
    let blade = ArmorTarget::Rune { rune: 0, blade: 0 };
    let outer = strike(9, blade, Caliber::Mm17, [0.13, 0.0], 24.0);
    assert!(outer.ring < 4);
    let hit = world.contact(outer).unwrap();
    assert_eq!(hit.rejection, Some(Rejection::DisabledRing));
    assert!(!hit.detected);
    let centre = strike(9, blade, Caliber::Mm17, [0.0, 0.0], 24.0);
    assert!(centre.ring >= 4);
    assert!(world.contact(centre).unwrap().detected);
}

#[test]
fn a_match_respawns_in_place_stops_the_rotor_and_ends_on_a_base() {
    let mut config = stationary_outpost();
    config.outposts = vec![tower(4.0, 0.8)];
    config.bases = vec![base(Team::Red), base(Team::Blue)];
    config.referee = Some(RefereeConfig::alternating(0, 1));
    let mut world = World::new(config);
    world.add_robot(0, Team::Red);
    world.command(RefereeCommand::StartMatch).unwrap();
    // The match rotor rests through the countdown.
    world.step(ticks(COUNTDOWN_NS)).unwrap();
    let outpost = world.field.snapshot(&world.engine.view).outposts[0];
    assert_eq!(outpost.starts_ns, outpost.time_ns);
    world.step(ticks(1_000_000_000)).unwrap();
    world.command(RefereeCommand::SetRobotHp { robot: 0, hp: 0 }).unwrap();
    assert_eq!(
        world.field.sync_defeats(&world.engine.view),
        [Defeat { robot: 0, defeated: true }]
    );
    // The living rotor stops and homes at 3:00.
    world.command(RefereeCommand::SkipTo { match_time_ns: OUTPOST_ROTOR_STOP_NS }).unwrap();
    world.step(1).unwrap();
    let outpost = world.field.snapshot(&world.engine.view).outposts[0];
    assert!(outpost.stopped_ns.is_some() && outpost.homing, "{outpost:?}");
    world.command(RefereeCommand::SetBaseHp { team: Team::Blue, hp: 0, shield_hp: 0 }).unwrap();
    world.step(1).unwrap();
    assert_eq!(world.field.referee.as_ref().unwrap().phase(), MatchPhase::Finished);
    assert!(world.events().iter().any(|event| matches!(
        event,
        RefereeEvent::RoundResult(RoundResult { decided: true, winner: Some(Team::Red) })
    )));
}

#[test]
fn destruction_finishes_running_match_and_operator_can_restore_hp() {
    let mut config = stationary_outpost();
    config.outposts = Vec::new();
    config.bases = vec![base(Team::Red)];
    config.referee = Some(RefereeConfig::alternating(0, 0));
    let mut world = World::new(config);
    world.command(RefereeCommand::StartMatch).unwrap();
    world.step(5000).unwrap();
    world.command(RefereeCommand::SetBaseHp { team: Team::Red, hp: 10, shield_hp: 0 }).unwrap();
    let plate = ArmorTarget::Base { base: 0, plate: 6 };
    world.contact(strike(1, plate, Caliber::Mm17, [0.0, 0.002], 24.0)).unwrap();
    world.step(100).unwrap();
    assert_eq!(world.field.snapshot(&world.engine.view).bases[0].hp, 0);
    assert_eq!(world.field.referee.as_ref().unwrap().phase(), MatchPhase::Finished);
    assert!(world.field.armor_disabled(plate, None));
}

#[test]
fn armor_collisions_cost_hp_only_in_a_running_round() {
    let run = |start: bool| {
        let mut world = World::new(FieldConfig {
            runes: Vec::new(),
            outposts: Vec::new(),
            referee: Some(RefereeConfig::alternating(0, 0)),
            ..default_config()
        });
        world.add_robot(0, Team::Red);
        if start {
            world.command(RefereeCommand::StartMatch).unwrap();
        }
        world.step(ticks(COUNTDOWN_NS)).unwrap();
        world.moving = true;
        for _ in 0..120 {
            world.collisions = vec![Collision { chassis: 0, plate: 2, defeated: Some(false) }];
            world.step(1).unwrap();
        }
        world.engine.view.robots[0].hp
    };
    // Once per 50 ms and module.
    assert_eq!(run(true), 200 - 3 * COLLISION_DAMAGE_HP);
    assert_eq!(run(false), 200);
    let mut world = World::new(FieldConfig {
        referee: Some(RefereeConfig::alternating(1, 2)),
        ..default_config()
    });
    world.command(RefereeCommand::StartMatch).unwrap();
    world.step(ticks(COUNTDOWN_NS)).unwrap();
    assert!(!world.field.collide(0, 2, Some(true)));
    assert!(!world.field.collide(0, 2, None));
}

#[test]
fn launches_follow_the_gameplay_rules_and_roster() {
    let mut world = World::new(FieldConfig {
        referee: Some(RefereeConfig::alternating(1, 2)),
        ..default_config()
    });
    world.add_robot(0, Team::Red);
    let fire = |world: &World, caliber: Caliber, can: bool| {
        world.field.check_fire(Some(0), can, caliber, &world.engine.view)
    };
    assert_eq!(fire(&world, Caliber::Mm17, true), Ok(()));
    assert_eq!(
        fire(&world, Caliber::Mm42, false),
        Err(FieldError::Referee("the robot has no launcher for that caliber"))
    );
    world.command(RefereeCommand::StartMatch).unwrap();
    assert_eq!(
        fire(&world, Caliber::Mm17, false),
        Err(FieldError::Referee("the round is not running"))
    );
    world.step(ticks(6_100_000_000)).unwrap();
    world.engine.view.robots[0].overheated = true;
    assert_eq!(
        fire(&world, Caliber::Mm17, false),
        Err(FieldError::Referee("the barrel is overheated"))
    );
    world.engine.view.robots[0].overheated = false;
    assert_eq!(
        fire(&world, Caliber::Mm17, false),
        Err(FieldError::Referee("no projectile allowance"))
    );
    world.command(RefereeCommand::SetRobotHp { robot: 0, hp: 0 }).unwrap();
    assert_eq!(
        fire(&world, Caliber::Mm17, false),
        Err(FieldError::Referee("the robot is defeated"))
    );
    // An unknown shooter, and a field without a referee, are not checked.
    assert_eq!(world.field.check_fire(Some(7), false, Caliber::Mm17, &world.engine.view), Ok(()));
    assert_eq!(world.field.check_fire(None, false, Caliber::Mm17, &world.engine.view), Ok(()));
    let view = world.engine.view.clone();
    assert_eq!(
        world.field.record_fire(Some(0), Caliber::Mm17, &view),
        Progress::Call(GameCall::Launch { robot: 0, caliber: Caliber::Mm17 })
    );
    let mut bare = World::new(default_config());
    assert_eq!(bare.field.check_fire(Some(0), false, Caliber::Mm42, &view), Ok(()));
    assert_eq!(bare.field.record_fire(Some(0), Caliber::Mm17, &view), Progress::Done);
    assert_eq!(
        bare.field.command_referee(RefereeCommand::StartMatch, &view),
        Err(FieldError::Referee("the field has no referee"))
    );
}

#[test]
fn equipment_edits_affect_physics_defense_and_reset() {
    let mut config = stationary_outpost();
    config.runes = vec![rune(RuneKind::Small, false)];
    config.referee = Some(RefereeConfig::alternating(1, 1));
    let mut world = World::new(config);
    let outpost = |outpost: u32, hp: u32| RefereeCommand::SetOutpostHp { outpost, hp };
    assert!(world.command(outpost(8, 1)).is_err());
    assert!(world.command(outpost(0, 1501)).is_err());
    world.command(outpost(0, 0)).unwrap();
    assert!(world.field.snapshot(&world.engine.view).outposts[0].destroyed);
    world.command(RefereeCommand::StartMatch).unwrap();
    world.step(5000).unwrap();
    assert_eq!(world.field.snapshot(&world.engine.view).outposts[0].hp, 1500);
    world.command(outpost(0, 100)).unwrap();
    world
        .command(RefereeCommand::SetRuneBuff {
            team: Team::Red,
            defense_pct: 50,
            attack_pct: 100,
            cooling_multiplier: 1,
            duration_ns: 1_000_000_000,
        })
        .unwrap();
    world.contact(strike(1, FACE, Caliber::Mm17, [0.0, 0.03], 24.0)).unwrap();
    world.step(300).unwrap();
    assert_eq!(world.field.snapshot(&world.engine.view).outposts[0].hp, 90);
    world.step(700).unwrap();
    let referee = world.field.referee.as_ref().unwrap().snapshot(&world.engine.view);
    assert!(referee.teams[0].buff.is_none());
    world.command(RefereeCommand::ResetMatch).unwrap();
    assert_eq!(world.field.snapshot(&world.engine.view).outposts[0].hp, 1500);
}

fn record(field: &Field) -> FieldRecord {
    field.record()
}

fn busy_world() -> World {
    let mut config = default_config();
    config.bases = vec![base(Team::Red)];
    config.referee = Some(RefereeConfig::alternating(1, 2));
    let mut world = World::new(config);
    world.add_robot(0, Team::Red);
    world.command(RefereeCommand::StartMatch).unwrap();
    world.step(5_500).unwrap();
    world.contact(strike(1, FACE, Caliber::Mm17, [0.0, 0.0], 24.0)).unwrap();
    world.step(10).unwrap();
    world.contact(strike(2, FACE, Caliber::Mm17, [0.0, 0.0], 24.0)).unwrap();
    world
}

#[test]
fn a_restored_field_keeps_stepping_like_the_one_it_came_from() {
    let mut source = busy_world();
    let restored = Field::restore(record(&source.field), 0, TICK_NS).unwrap();
    let snapshot = source.field.snapshot(&source.engine.view);
    let shown = Field::restore(snapshot.clone().into_record(), 0, TICK_NS).unwrap();
    assert_eq!(shown.snapshot(&source.engine.view), snapshot);
    assert_eq!(restored, source.field);
    assert_eq!(Field::restore(record(&restored), 0, TICK_NS).unwrap(), source.field);
    let mut twin = World::over(restored);
    twin.engine.view = source.engine.view.clone();
    for _ in 0..10 {
        source.step(20).unwrap();
        twin.step(20).unwrap();
        assert_eq!(source.field, twin.field);
    }
}

#[test]
fn restoring_rejects_a_snapshot_it_cannot_rebuild() {
    let world = busy_world();
    let mut empty = record(&world.field);
    empty.restore = None;
    assert!(matches!(Field::restore(empty, 0, TICK_NS), Err(FieldError::Restore(_))));
    let nan = f64::NAN.to_bits();
    let snapshot = record(&world.field);
    assert!(matches!(Field::restore(snapshot, nan, TICK_NS), Err(FieldError::Restore(_))));
    let mut broken = record(&world.field);
    broken.time_ns += 1;
    assert!(matches!(Field::restore(broken, 0, TICK_NS), Err(FieldError::Restore(_))));
    let mut rich = record(&world.field);
    rich.bases[0].base.hp = 5001;
    assert!(matches!(Field::restore(rich, 0, TICK_NS), Err(FieldError::Restore(_))));
    let mut late = record(&world.field);
    late.restore.as_mut().unwrap().outposts[0].outpost.hp = 0;
    assert!(matches!(Field::restore(late, 0, TICK_NS), Err(FieldError::Outpost(_))));
    let mut tilted = record(&world.field);
    tilted.restore.as_mut().unwrap().runes[0].unit_rotation = false;
    assert!(matches!(Field::restore(tilted, 0, TICK_NS), Err(FieldError::Rune(_))));
}

#[test]
fn detection_times_do_not_depend_on_their_order() {
    let world = busy_world();
    let mut one = record(&world.field);
    let mut two = record(&world.field);
    let other = ArmorTarget::Base { base: 0, plate: 3 };
    one.restore.as_mut().unwrap().last_detection_ns = vec![(FACE, 5), (other, 7)];
    two.restore.as_mut().unwrap().last_detection_ns = vec![(other, 7), (FACE, 5)];
    assert_eq!(
        Field::restore(one, 0, TICK_NS).unwrap(),
        Field::restore(two, 0, TICK_NS).unwrap()
    );
}

#[test]
fn scoring_faces_have_a_fixed_order() {
    let order = target_order(1, 1, 1);
    assert_eq!(order.len(), 15);
    assert_eq!(order[6], ArmorTarget::Base { base: 0, plate: 6 });
    assert_eq!(order[7], FACE);
    assert_eq!(order[14], ArmorTarget::Rune { rune: 0, blade: 4 });
}

#[test]
fn projectile_bounds_are_checked() {
    let bounds = |a: [f64; 3], b: [f64; 3]| {
        check_projectile_bounds([a.map(f64::to_bits), b.map(f64::to_bits)])
    };
    assert_eq!(bounds([-14., -7.5, 0.], [14., 7.5, -1.]), Ok(()));
    let refused = Err(FieldError::Mesh("invalid projectile bounds"));
    assert_eq!(bounds([14., -7.5, 0.], [14., 7.5, 3.]), refused);
    assert_eq!(bounds([-14., 8., 0.], [14., 7.5, 3.]), refused);
    assert_eq!(bounds([-14., -7.5, f64::NAN], [14., 7.5, 3.]), refused);
    assert_eq!(bounds([-14., -7.5, 0.], [f64::INFINITY, 7.5, 3.]), refused);
}

/// Where each edge of an outline meets a height.
fn meets(area: &ZoneArea, y: f64) -> Vec<u64> {
    let corner = |i: usize| area.polygon_m[i].map(f64::from_bits);
    let n = area.polygon_m.len();
    (0..n)
        .map(|i| {
            let [xi, yi] = corner(i);
            let [xj, yj] = corner((i + n - 1) % n);
            ((xj - xi) * (y - yi) / (yj - yi) + xi).to_bits()
        })
        .collect()
}

fn stands_on(area: &ZoneArea, at: [f64; 3]) -> bool {
    area.contains(at.map(f64::to_bits), &meets(area, at[1]))
}

fn place(robot: u32, at: [f64; 3], areas: &[ZoneArea]) -> BodyPlace {
    BodyPlace {
        robot,
        position_m: at.map(f64::to_bits),
        meets_m: areas.iter().map(|area| meets(area, at[1])).collect(),
    }
}

#[test]
fn the_season_counts_points_in_their_footprints() {
    let areas = rmuc_2026();
    let base = |team: Team| {
        areas.iter().find(|a| a.kind == ZoneKind::Base && a.owner == team).unwrap()
    };
    assert!(stands_on(base(Team::Red), [11.7, 0.8, 0.2]));
    assert!(stands_on(base(Team::Blue), [-11.7, -0.8, 0.2]));
    assert_eq!(areas.iter().filter(|a| a.kind == ZoneKind::Tunnel).count(), 12);
    for area in &areas {
        let top = f64::from_bits(area.floor_m) + f64::from_bits(ZONE_BODY_BAND_M);
        assert_eq!(area.ceiling_m, top.to_bits());
    }
}

#[test]
fn buff_points_see_bodies_in_a_running_round() {
    let area = ZoneArea {
        kind: ZoneKind::Base,
        owner: Team::Red,
        pad: 0,
        floor_m: 0.2f64.to_bits(),
        ceiling_m: (0.2 + f64::from_bits(ZONE_BODY_BAND_M)).to_bits(),
        polygon_m: [[0.0, 0.0], [1.0, 0.0], [1.0, 1.0], [0.0, 1.0]]
            .map(|corner: [f64; 2]| corner.map(f64::to_bits))
            .to_vec(),
    };
    assert!(stands_on(&area, [0.5, 0.5, 0.4]));
    assert!(!stands_on(&area, [1.5, 0.5, 0.4]));
    // Below the floor or high above it does not count.
    assert!(!stands_on(&area, [0.5, 0.5, 0.1]));
    assert!(!stands_on(&area, [0.5, 0.5, 0.9]));
    // Edges are decided to the last bit, and no number stands nowhere.
    assert!(stands_on(&area, [0.5, 0.5, 0.2]));
    assert!(!stands_on(&area, [0.5, 0.5, 0.2f64.next_down()]));
    assert!(stands_on(&area, [1.0f64.next_down(), 0.5, 0.4]));
    assert!(!stands_on(&area, [1.0, 0.5, 0.4]));
    assert!(!stands_on(&area, [f64::NAN, 0.5, 0.4]));
    assert!(!stands_on(&area, [0.5, f64::NAN, 0.4]));
    assert!(!stands_on(&area, [0.5, 0.5, f64::NAN]));
    let areas = vec![area];
    let bodies = vec![
        place(4, [0.5, 0.5, 0.4], &areas),
        place(5, [1.5, 0.5, 0.4], &areas),
    ];
    let mut world = World::new(FieldConfig {
        referee: Some(RefereeConfig::alternating(1, 2)),
        ..default_config()
    });
    assert!(world.field.observe_zones(&areas, &bodies).is_empty());
    world.command(RefereeCommand::StartMatch).unwrap();
    world.step(ticks(COUNTDOWN_NS)).unwrap();
    let zone = Zone { kind: ZoneKind::Base, owner: Team::Red, pad: 0 };
    // A step tells the engine of each change once.
    world.add_robot(4, Team::Red);
    world.areas = areas.clone();
    world.bodies = bodies.clone();
    world.moving = true;
    world.step(3).unwrap();
    assert_eq!(world.engine.view.contacts, [ZoneContact { robot: 4, zone, detected: true }]);
    assert_eq!(
        world.field.observe_zones(&areas, &bodies),
        [
            ZoneSighting { robot: 4, zone, detected: true },
            ZoneSighting { robot: 5, zone, detected: false },
        ]
    );
}

#[test]
fn the_season_has_twenty_points_per_team_mirrored() {
    let areas = rmuc_2026();
    assert_eq!(areas.len(), 40);
    for i in 0..20 {
        let (red, blue) = (&areas[i], &areas[i + 20]);
        assert_eq!((red.owner, blue.owner), (Team::Red, Team::Blue));
        assert_eq!((red.kind, red.pad, red.floor_m), (blue.kind, blue.pad, blue.floor_m));
        let n = red.polygon_m.len();
        for k in 0..n {
            let corner = red.polygon_m[k].map(f64::from_bits);
            assert_eq!(corner.map(|v| (-v).to_bits()), blue.polygon_m[k]);
        }
        // A generic interior point of one lies in the mirror of the other.
        let mean = |k: usize| {
            red.polygon_m.iter().map(|p| f64::from_bits(p[k])).sum::<f64>() / n as f64 + 1e-6
        };
        let (x, y, z) = (mean(0), mean(1), f64::from_bits(red.floor_m) + 0.1);
        assert_eq!(stands_on(red, [x, y, z]), stands_on(blue, [-x, -y, z]));
    }
}

#[test]
fn an_exchange_buys_one_unit() {
    assert_eq!(
        buy_ammo(3, Caliber::Mm17),
        RefereeCommand::BuyAmmo { robot: 3, caliber: Caliber::Mm17, amount: 10 }
    );
    assert_eq!(
        buy_ammo(3, Caliber::Mm42),
        RefereeCommand::BuyAmmo { robot: 3, caliber: Caliber::Mm42, amount: 1 }
    );
}

#[test]
fn a_tick_scores_contacts_in_order_after_the_engine_applied_them() {
    let mut config = stationary_outpost();
    config.runes = vec![rune(RuneKind::Small, false)];
    config.referee = Some(RefereeConfig::alternating(1, 1));
    let mut world = World::new(config);
    world.moving = true;
    let touch = |projectile: u64, target: ArmorTarget| Touch {
        contact: strike(projectile, target, Caliber::Mm17, [0.0, 0.03], 24.0),
        defeated: None,
    };
    let robot = ArmorTarget::Chassis { chassis: 3, plate: 0 };
    let blade = ArmorTarget::Rune { rune: 0, blade: 0 };
    // A contact with an unknown robot's armor is not scored at all.
    world.touches = vec![touch(1, FACE), touch(2, robot), touch(3, blade), touch(4, FACE)];
    world.step(1).unwrap();
    let seen: Vec<(u64, bool, u32)> =
        world.reported.iter().map(|h| (h.projectile, h.detected, h.damage)).collect();
    assert_eq!(seen, [(1, true, 20), (3, true, 0), (4, false, 0)]);
    assert_eq!(world.field.snapshot(&world.engine.view).hits, world.reported);
    assert_eq!(world.field.snapshot(&world.engine.view).outposts[0].hp, INITIAL_HP - 20);
    // Destroyed within the tick, the outpost takes no further contact.
    world.engine.view.red.outpost_hp = 10;
    world.reported.clear();
    world.step(100).unwrap();
    world.engine.applied = Applied { hp: 0, shield: 0 };
    world.engine.view.red.outpost_hp = 20;
    world.touches = vec![touch(5, FACE), touch(6, FACE)];
    world.step(1).unwrap();
    let seen: Vec<u64> = world.reported.iter().map(|h| h.projectile).collect();
    assert_eq!(seen, [5]);
    // A blade that no rune has fails the step.
    world.touches = vec![touch(7, ArmorTarget::Rune { rune: 0, blade: 5 })];
    assert!(matches!(world.step(1), Err(FieldError::Rune(_))));
}

#[test]
fn busy_fields_step_alike_in_any_partition() {
    let run = |parts: &[u64]| {
        let mut config = stationary_outpost();
        config.runes = vec![rune(RuneKind::Small, false)];
        config.referee = Some(RefereeConfig::alternating(1, 1));
        let mut world = World::new(config);
        world.moving = true;
        world.command(RefereeCommand::StartMatch).unwrap();
        for part in parts {
            world.step(*part).unwrap();
        }
        world.field
    };
    assert_eq!(run(&[5_200]), run(&[1, 0, 4_999, 150, 50]));
}

#[test]
fn the_field_carries_two_runes_and_a_referee() {
    let mut config = default_config();
    config.runes.push(config.runes[0]);
    config.referee = Some(RefereeConfig::alternating(2, 2));
    let world = World::new(config);
    assert_eq!(world.field.snapshot(&world.engine.view).runes.len(), 2);
    assert!(world.field.referee.is_some());
}

#[test]
fn a_restored_field_without_contacts_replays_exactly() {
    let mut source = World::new(default_config());
    source.step(700).unwrap();
    let mut restored = World::over(Field::restore(record(&source.field), 0, TICK_NS).unwrap());
    for _ in 0..10 {
        source.step(ticks(20_000_000)).unwrap();
        restored.step(ticks(20_000_000)).unwrap();
        assert_eq!(source.field.snapshot(&source.engine.view), restored.field.snapshot(&restored.engine.view));
    }
}

#[test]
fn dart_detector_rests_by_default_takes_hits_and_sweeps_on_command() {
    let mut config = stationary_outpost();
    config.outposts = Vec::new();
    config.bases = vec![base(Team::Red)];
    config.referee = Some(RefereeConfig::alternating(0, 0));
    let mut world = World::new(config);
    world.step(256).unwrap();
    let since = |world: &World| world.field.referee.as_ref().unwrap().dart_target_since_ns();
    assert_eq!(since(&world), None);
    // A resting detector takes projectile hits, as a training override.
    let plate = ArmorTarget::Base { base: 0, plate: 6 };
    let hits = world.field.snapshot(&world.engine.view).hits_detected;
    world.contact(strike(1, plate, Caliber::Mm17, [0.0, 0.002], 24.0)).unwrap();
    assert_eq!(world.field.snapshot(&world.engine.view).hits_detected, hits + 1);
    world.command(RefereeCommand::SetDartTargetMoving { moving: true }).unwrap();
    let started = world.field.time_ns();
    world.step(500).unwrap();
    assert_eq!(since(&world), Some(started));
    // Asking again does not start the sweep anew.
    world.command(RefereeCommand::SetDartTargetMoving { moving: true }).unwrap();
    assert_eq!(since(&world), Some(started));
    world.command(RefereeCommand::SetDartTargetMoving { moving: false }).unwrap();
    assert_eq!(since(&world), None);
}

#[test]
fn fortress_capture_opens_the_owners_base() {
    let mut config = stationary_outpost();
    config.referee = Some(RefereeConfig::alternating(0, 1));
    let mut world = World::new(config);
    world.areas = rmuc_2026();
    let fortress = world
        .areas
        .iter()
        .find(|z| z.kind == ZoneKind::Fortress && z.owner == Team::Red)
        .unwrap();
    let n = fortress.polygon_m.len() as f64;
    let mean = |k: usize| fortress.polygon_m.iter().map(|p| f64::from_bits(p[k])).sum::<f64>() / n;
    let centre = [mean(0), mean(1), f64::from_bits(fortress.floor_m) + 0.15];
    world.add_robot(0, Team::Blue);
    world.bodies = vec![place(0, centre, &world.areas)];
    world.moving = true;
    world.command(RefereeCommand::StartMatch).unwrap();
    world.step(ticks(COUNTDOWN_NS)).unwrap();
    world.command(RefereeCommand::SetOutpostHp { outpost: 0, hp: 0 }).unwrap();
    world.command(RefereeCommand::SkipTo { match_time_ns: OUTPOST_ROTOR_STOP_NS }).unwrap();
    let open = |world: &World| {
        let referee = world.field.referee.as_ref().unwrap();
        referee.snapshot(&world.engine.view).base_open
    };
    world.step(ticks(19_000_000_000)).unwrap();
    assert_eq!(open(&world), [false; 2]);
    world.step(ticks(1_100_000_000)).unwrap();
    assert_eq!(open(&world), [true, false]);
    assert!(world.events().contains(&RefereeEvent::BaseArmorExpanded { team: Team::Red }));
}

#[test]
fn chassis_armor_takes_damage_and_a_defeated_robot_stops() {
    let mut world = World::new(FieldConfig {
        referee: Some(RefereeConfig::alternating(1, 2)),
        ..default_config()
    });
    world.add_robot(0, Team::Red);
    world.add_robot(1, Team::Blue);
    world.moving = true;
    world.step(300).unwrap();
    let target = ArmorTarget::Chassis { chassis: 0, plate: 2 };
    let touch = |defeated: bool| {
        let mut contact = strike(1, target, Caliber::Mm17, [0.0, 0.0], 24.0);
        contact.shooter = Some(1);
        Touch { contact, defeated: Some(defeated) }
    };
    world.touches = vec![touch(false)];
    world.step(ticks(200_000_000)).unwrap();
    let hit = world.reported[0];
    assert_eq!(hit.target, target);
    assert!(hit.detected);
    assert_eq!((hit.shooter, hit.damage), (Some(1), 20));
    assert_eq!(world.engine.view.robots[0].hp, 180);
    for _ in 0..9 {
        world.touches = vec![touch(false)];
        world.step(ticks(200_000_000)).unwrap();
    }
    assert_eq!(world.engine.view.robots[0].hp, 0);
    let defeats = world.field.sync_defeats(&world.engine.view);
    assert_eq!(defeats[0], Defeat { robot: 0, defeated: true });
    assert!(matches!(
        world.field.check_fire(Some(0), false, Caliber::Mm17, &world.engine.view),
        Err(FieldError::Referee(_))
    ));
    // A defeated robot's armor does not register.
    let before = world.reported.len();
    world.touches = vec![touch(true)];
    world.step(1).unwrap();
    assert_eq!(world.reported.len(), before);
    world.command(RefereeCommand::ReviveRobot { robot: 0 }).unwrap();
    let defeats = world.field.sync_defeats(&world.engine.view);
    assert_eq!(defeats[0], Defeat { robot: 0, defeated: false });
    // Leaving takes the robot record along.
    let progress = world.field.referee.as_mut().unwrap().remove_robot(0);
    world.drive(progress).unwrap();
    assert_eq!(world.engine.view.robots.len(), 1);
}

#[test]
fn contacts_age_out_whether_or_not_a_body_moves() {
    let mut world = World::new(stationary_outpost());
    world.step(ticks(60_000_000)).unwrap();
    world.contact(strike(1, FACE, Caliber::Mm17, [0.0, 0.0], 24.0)).unwrap();
    world.step(ticks(500_000_000)).unwrap();
    world.contact(strike(2, FACE, Caliber::Mm17, [0.0, 0.0], 24.0)).unwrap();
    let shown = |world: &World| -> Vec<u64> {
        world.field.snapshot(&world.engine.view).hits.iter().map(|h| h.projectile).collect()
    };
    world.step(ticks(499_000_000)).unwrap();
    assert_eq!(shown(&world), [1, 2]);
    world.step(1).unwrap();
    assert_eq!(shown(&world), [2]);
    world.step(5_000).unwrap();
    assert_eq!(shown(&world), []);
}

#[test]
fn a_record_with_old_or_unordered_contacts_is_settled() {
    let mut world = World::new(stationary_outpost());
    world.step(2_000).unwrap();
    world.contact(strike(1, FACE, Caliber::Mm17, [0.0, 0.0], 24.0)).unwrap();
    world.step(100).unwrap();
    world.contact(strike(2, FACE, Caliber::Mm17, [0.0, 0.0], 24.0)).unwrap();
    let good = record(&world.field);
    assert_eq!(Field::restore(good, 0, TICK_NS).unwrap(), world.field);
    let mut turned = record(&world.field);
    turned.hits.reverse();
    assert_eq!(Field::restore(turned, 0, TICK_NS).unwrap(), world.field);
    let mut old = record(&world.field);
    old.hits[0].time_ns = 1_000_000_000;
    let restored = Field::restore(old, 0, TICK_NS).unwrap();
    assert!(restored.is_consistent());
    assert_eq!(restored.hits, world.field.hits[1..]);
}

#[test]
fn a_record_is_restored_as_it_is_and_says_whether_it_agrees() {
    let world = World::new(default_config());
    let mut ahead = record(&world.field);
    ahead.restore.as_mut().unwrap().runes[0].rune.advance_to(5_000_000).unwrap();
    let restored = Field::restore(ahead, 0, TICK_NS).unwrap();
    assert!(!restored.is_consistent());
    assert_eq!(restored.runes[0].time_ns(), 5_000_000);
    assert!(world.field.is_consistent());
}

#[test]
fn a_match_steps_the_same_in_pieces() {
    let referee = Some(RefereeConfig::alternating(1, 2));
    let config = || FieldConfig { referee: referee.clone(), ..default_config() };
    let mut whole = World::new(config());
    let mut split = World::new(config());
    for world in [&mut whole, &mut split] {
        world.moving = true;
        world.command(RefereeCommand::StartMatch).unwrap();
    }
    whole.step(6_000).unwrap();
    split.step(2_500).unwrap();
    split.step(0).unwrap();
    split.step(3_500).unwrap();
    assert_eq!(whole.field, split.field);
    assert_eq!(whole.field.tick(), 6_000);
}

#[test]
fn the_standard_layout_has_one_rune_and_two_outposts() {
    let pivot = [0.1, 0.8, 0.03].map(f64::to_bits);
    let config = FieldConfig::standard(pivot, 2.5f64.to_bits());
    assert_eq!(config.runes, [RuneConfig::default()]);
    assert_eq!(config.runes[0].hub_pose, at([6.0, 0.0, 1.6]));
    assert_eq!(config.runes[0].kind, RuneKind::Small);
    let places: Vec<Pose> = config.outposts.iter().map(|o| o.origin).collect();
    assert_eq!(places, [at([4.0, -3.0, 0.0]), at([4.0, 3.0, 0.0])]);
    let world = World::new(config);
    let snapshot = world.field.snapshot(&world.engine.view);
    assert!(snapshot.bases.is_empty() && snapshot.referee.is_none());
}

#[test]
fn a_snapshot_shows_the_match() {
    let referee = Some(RefereeConfig::alternating(1, 2));
    let mut world = World::new(FieldConfig { referee, ..default_config() });
    world.command(RefereeCommand::StartMatch).unwrap();
    let snapshot = world.field.snapshot(&world.engine.view);
    assert_eq!(snapshot.referee.unwrap().phase, MatchPhase::Countdown);
}

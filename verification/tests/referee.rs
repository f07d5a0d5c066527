use rm_simulator::binary::Pose;
use rm_simulator::game::{
    DamageKind, GameCall, GameError, GameEvent, GameEventKind, GamePhase, GameTeam, GameView,
    RobotKind, RobotState, RoundResult, StrikeTarget, Zone, ZoneContact, ZoneKind,
};
use rm_simulator::projectile::ArmorHit;
use rm_simulator::referee::desk::RefereeSnapshot;
use rm_simulator::referee::machine::Referee;
use rm_simulator::referee::model::Progress;
use rm_simulator::referee::rules::{big_rune_buff, check_launch, defended, ring_of};
use rm_simulator::referee::{
    MatchPhase, RefereeCommand, RefereeConfig, RefereeEvent, RobotConfig, RuneStage, StampClock,
    ROUND_NS, SMALL_RUNE_BUFF_NS,
};
use rm_simulator::rune::runner::Rune;
use rm_simulator::rune::small::SmallRune;
use rm_simulator::rune::{HitOutcome, RuneError, RuneKind, RuneState};
use rm_simulator::target::{ArmorTarget, Caliber, Team};

const BASE_TRAVEL_NS: u64 = 2_000_000_000;

/// A plain gameplay engine: HP, the round clock and its reports.
struct Engine {
    view: GameView,
    defense: [u32; 2],
    calls: Vec<GameCall>,
}

fn fresh_team() -> GameTeam {
    GameTeam { base_hp: 5000, base_shield_hp: 150, outpost_hp: 1500, base_armor_expanded: false }
}

impl Engine {
    fn new() -> Engine {
        Engine {
            view: GameView {
                phase: GamePhase::Idle,
                round_ticks: 0,
                countdown_left_ticks: 0,
                red: fresh_team(),
                blue: fresh_team(),
                robots: Vec::new(),
                contacts: Vec::new(),
                result: None,
                events: Vec::new(),
                next_event_id: 0,
            },
            defense: [0; 2],
            calls: Vec::new(),
        }
    }

    fn tell(&mut self, kind: GameEventKind) {
        self.view.events.push(GameEvent { id: self.view.next_event_id, kind });
        self.view.next_event_id += 1;
    }

    fn find(&mut self, robot: u32) -> Result<usize, GameError> {
        self.view.robots.iter().position(|r| r.id == robot).ok_or(GameError::Robot)
    }

    fn end(&mut self, winner: Option<Team>) {
        self.view.phase = GamePhase::Ended;
        self.view.result = Some(RoundResult { decided: true, winner });
    }

    fn call(&mut self, call: GameCall) -> Result<(), GameError> {
        self.calls.push(call);
        match call {
            GameCall::Step { ticks } => match self.view.phase {
                GamePhase::Countdown => {
                    self.view.countdown_left_ticks -= ticks;
                    if self.view.countdown_left_ticks == 0 {
                        self.view.phase = GamePhase::Running;
                    }
                }
                GamePhase::Running => {
                    self.view.round_ticks = (self.view.round_ticks + ticks).min(420_000);
                    if self.view.round_ticks == 420_000 {
                        self.end(None);
                    }
                }
                _ => {}
            },
            GameCall::SkipTo { round_ticks } => {
                self.view.round_ticks = self.view.round_ticks.max(round_ticks);
                if self.view.round_ticks >= 420_000 {
                    self.end(None);
                }
            }
            GameCall::BeginCountdown => {
                self.view.phase = GamePhase::Countdown;
                self.view.countdown_left_ticks = 5_000;
            }
            GameCall::ResetMatch => {
                self.view.phase = GamePhase::Idle;
                self.view.round_ticks = 0;
                self.view.red = fresh_team();
                self.view.blue = fresh_team();
                self.view.result = None;
                self.defense = [0; 2];
                for robot in &mut self.view.robots {
                    robot.hp = robot.max_hp;
                    robot.alive = true;
                }
            }
            GameCall::EndRound => self.end(None),
            GameCall::SetBase { team, hp, shield_hp } => {
                let side = match team {
                    Team::Red => &mut self.view.red,
                    Team::Blue => &mut self.view.blue,
                };
                side.base_hp = hp;
                side.base_shield_hp = shield_hp;
            }
            GameCall::SetOutpostHp { team, hp } => {
                if hp > 1500 {
                    return Err(GameError::Invalid);
                }
                match team {
                    Team::Red => self.view.red.outpost_hp = hp,
                    Team::Blue => self.view.blue.outpost_hp = hp,
                }
            }
            GameCall::RuneActivated { team, defense_pct, .. }
            | GameCall::ApplyRuneBuff { team, defense_pct, .. } => {
                self.defense[team.index()] = defense_pct;
            }
            GameCall::ClearRuneBuff { team } => self.defense[team.index()] = 0,
            GameCall::AddRobot { robot, team, kind, performance, .. } => {
                if performance == Some(1) && kind == RobotKind::Infantry {
                    return Err(GameError::Invalid);
                }
                self.view.robots.push(RobotState {
                    id: robot,
                    team,
                    kind,
                    hp: 200,
                    max_hp: 200,
                    level: 1,
                    alive: true,
                    ejected: false,
                    weakened: false,
                    overheated: false,
                    heat_locked_for_round: false,
                    speed_locked_for_round: false,
                    speed_locked_until_ticks: 0,
                    irregularly_disconnected: false,
                    air_support_active: false,
                });
            }
            GameCall::RemoveRobot { robot } => {
                let index = self.find(robot)?;
                self.view.robots.remove(index);
            }
            GameCall::Damage { target: StrikeTarget::Robot(robot), amount, .. } => {
                let index = self.find(robot)?;
                let state = &mut self.view.robots[index];
                if !state.alive {
                    return Err(GameError::Ineligible);
                }
                let lost = amount.min(state.hp);
                state.hp -= lost;
                let dead = state.hp == 0;
                state.alive = !dead;
                self.tell(GameEventKind::RobotDamage { robot, shooter: None, hp: lost, shield: 0 });
                if dead {
                    self.tell(GameEventKind::RobotDefeated(robot));
                }
            }
            GameCall::Revive { robot } => {
                let index = self.find(robot)?;
                let state = &mut self.view.robots[index];
                state.hp = state.max_hp;
                state.alive = true;
                self.tell(GameEventKind::RobotRevived(robot));
            }
            GameCall::SetRobotHp { robot, hp } => {
                let index = self.find(robot)?;
                let state = &mut self.view.robots[index];
                let before = state.hp;
                state.hp = hp.min(state.max_hp);
                let after = state.hp;
                state.alive = after > 0;
                if before > 0 && after == 0 {
                    self.tell(GameEventKind::RobotDefeated(robot));
                } else if before == 0 && after > 0 {
                    self.tell(GameEventKind::RobotRevived(robot));
                }
            }
            GameCall::ZoneDetection { robot, zone, detected } => {
                self.view.contacts.retain(|c| c.robot != robot || c.zone != zone);
                self.view.contacts.push(ZoneContact { robot, zone, detected });
            }
            GameCall::ExchangeAmmo { .. } => return Err(GameError::Insufficient),
            _ => {}
        }
        Ok(())
    }
}

struct Match {
    referee: Referee,
    runes: Vec<Rune>,
    engine: Engine,
}

impl Match {
    fn drive(&mut self, mut progress: Progress) -> Result<(), &'static str> {
        loop {
            match progress {
                Progress::Call(call) => {
                    let reply = self.engine.call(call);
                    progress = self.referee.resume(reply, &mut self.runes, &self.engine.view);
                }
                Progress::Done => return Ok(()),
                Progress::Refused(reason) => return Err(reason),
            }
        }
    }

    fn tick(&mut self, now_ns: u64) -> Result<(), RuneError> {
        let progress = self.referee.tick(now_ns, &mut self.runes, &self.engine.view)?;
        self.drive(progress).unwrap();
        Ok(())
    }

    fn command(&mut self, command: RefereeCommand, now_ns: u64) -> Result<(), &'static str> {
        let progress = self.referee.command(command, now_ns, &mut self.runes, &self.engine.view);
        self.drive(progress)
    }

    fn add(
        &mut self,
        robot: u32,
        team: Team,
        kind: RobotKind,
        performance: Option<u32>,
    ) -> Result<(), &'static str> {
        let progress = self.referee.add_robot(robot, team, kind, performance, &self.engine.view);
        self.drive(progress)
    }

    fn remove(&mut self, robot: u32) -> Result<(), &'static str> {
        let progress = self.referee.remove_robot(robot);
        self.drive(progress)
    }

    fn snapshot(&self) -> RefereeSnapshot {
        self.referee.snapshot(&self.engine.view)
    }

    fn last_event(&self) -> RefereeEvent {
        self.snapshot().events.last().unwrap().event
    }
}

fn hub(x: f64) -> Pose {
    Pose {
        translation_m: [x.to_bits(), 0, 1.6f64.to_bits()],
        rotation_wxyz: [1f64.to_bits(), 0, 0, 0],
    }
}

fn new_match() -> Match {
    let referee = Referee::new(
        RefereeConfig::alternating(2, 2),
        vec![RuneKind::Small; 2],
        2,
        BASE_TRAVEL_NS,
    )
    .unwrap();
    let mut game = Match {
        referee,
        runes: vec![
            Rune::Small(SmallRune::new(hub(5.), true).unwrap()),
            Rune::Small(SmallRune::new(hub(-5.), true).unwrap()),
        ],
        engine: Engine::new(),
    };
    game.add(0, Team::Red, RobotKind::Infantry, None).unwrap();
    game.add(1, Team::Blue, RobotKind::Hero, None).unwrap();
    game.referee.events.clear();
    let robots = Referee::robots(&game.engine.view);
    assert_eq!(robots[0].kind, RobotKind::Infantry);
    assert_eq!(robots[1].kind, RobotKind::Hero);
    assert_eq!((robots[0].max_hp, robots[1].max_hp), (200, 200));
    game
}

fn ring(offset_m: [f64; 2]) -> u32 {
    ring_of((offset_m[0].hypot(offset_m[1]) / 0.015) as u64)
}

fn rune_hit(time_ns: u64, rune: u32, blade: u32, outcome: HitOutcome) -> ArmorHit {
    ArmorHit {
        time_ns,
        projectile: 0,
        shooter: None,
        caliber: Caliber::Mm17,
        target: ArmorTarget::Rune { rune, blade },
        position_m: [0; 3],
        local_offset_m: [0; 2],
        normal_speed_m_s: 20f64.to_bits(),
        detected: true,
        rejection: None,
        rune_outcome: Some(outcome),
        damage: 0,
    }
}

/// Hit every lit blade of `rune` once per 100 ms from `t`, at `offset` from
/// the target centre; returns the time of the last hit.
fn activate_by_hits(game: &mut Match, rune: usize, mut t: u64, offset_m: [f64; 2]) -> u64 {
    for _ in 0..12 {
        game.tick(t).unwrap();
        let Some(blade) = game.runes[rune].snapshot().active_blade else {
            break;
        };
        let outcome = game.runes[rune].hit(t, blade).unwrap();
        game.referee.observe_hit(&rune_hit(t, rune as u32, blade, outcome), ring(offset_m));
        t += 100_000_000;
        if matches!(outcome, HitOutcome::GroupHit { .. }) {
            // Let the group's one-second window close.
            t += 1_000_000_001;
        }
    }
    t
}

#[test]
fn rings_and_defense_follow_the_tables() {
    assert_eq!(ring([0.0, 0.0]), 10);
    assert_eq!(ring([0.014, 0.0]), 10);
    assert_eq!(ring([0.0, 0.016]), 9);
    assert_eq!(ring([0.10, 0.10]), 1);
    assert_eq!(ring([0.149, 0.0]), 1);
    assert_eq!(defended(200, 25), 150);
    assert_eq!(defended(20, 25), 15);
    assert_eq!(defended(10, 25), 8);
    assert_eq!(defended(10, 0), 10);
    assert_eq!(defended(10, 100), 0);
    // An average of 2.0, of 9.5, of 7.5 and of 8.5.
    let low = big_rune_buff(10, 5, 5, 0);
    assert_eq!((low.attack_pct, low.defense_pct, low.cooling_multiplier), (150, 25, 1));
    assert_eq!(low.expires_ns, 30_000_000_000);
    let top = big_rune_buff(95, 10, 10, 1);
    assert_eq!((top.attack_pct, top.defense_pct, top.cooling_multiplier), (300, 50, 5));
    assert_eq!(top.expires_ns, 60_000_000_001);
    assert_eq!(big_rune_buff(15, 2, 7, 0).expires_ns, 40_000_000_000);
    assert_eq!(big_rune_buff(17, 2, 12, 0).cooling_multiplier, 3);
}

#[test]
fn configuration_is_validated() {
    let new = |config: RefereeConfig, runes: usize| {
        Referee::new(config, vec![RuneKind::Small; runes], 2, BASE_TRAVEL_NS)
    };
    assert!(new(RefereeConfig::alternating(1, 2), 2).is_err());
    assert!(new(RefereeConfig::alternating(2, 1), 2).is_err());
    let mut lifeless = RefereeConfig::alternating(2, 2);
    lifeless.robot.fallback.max_hp = 0;
    assert!(new(lifeless, 2).is_err());
    // One outpost per team: the gameplay engine keeps one per team.
    let shared = RefereeConfig::owned(vec![], vec![Team::Red, Team::Red]);
    assert!(new(shared, 0).is_err());
    let mut longer = RefereeConfig::alternating(2, 2);
    longer.round_ns = ROUND_NS + 1;
    assert!(new(longer, 2).is_err());
    let mut twice = new_match();
    assert!(twice.add(0, Team::Red, RobotKind::Infantry, None).is_err());
    // Hero tables cannot describe an Infantry.
    assert!(twice.add(5, Team::Red, RobotKind::Infantry, Some(1)).is_err());
    assert!(twice.remove(0).is_ok() && twice.remove(0).is_err());
    let mut long = RefereeConfig::alternating(2, 2);
    long.round_ns = 0;
    assert!(new(long, 2).is_err());
    assert!(new_match().snapshot().robots.iter().all(|r| r.hp == 200));
}

#[test]
fn match_flow_grants_opportunities_and_runs_the_small_rune_buff() {
    let mut game = new_match();
    // Idle: the runes run their training policy.
    game.tick(1_000_000_000).unwrap();
    assert_eq!(game.runes[0].state(), RuneState::Activating);
    assert_eq!(
        game.command(RefereeCommand::ActivateRune { team: Team::Red }, 1_000_000_000),
        Err("the round is not running")
    );
    game.command(RefereeCommand::StartMatch, 2_000_000_000).unwrap();
    assert_eq!(game.referee.phase(), MatchPhase::Countdown);
    assert_eq!(game.runes[0].state(), RuneState::Inactive);
    assert!(game.command(RefereeCommand::StartMatch, 2_000_000_000).is_err());
    game.tick(4_500_000_000).unwrap();
    assert_eq!(game.snapshot().countdown_remaining_ns, 2_500_000_000);
    game.tick(6_999_999_999).unwrap();
    assert_eq!(game.referee.phase(), MatchPhase::Countdown);
    game.tick(7_000_000_000).unwrap();
    let snapshot = game.snapshot();
    assert_eq!(snapshot.phase, MatchPhase::Running);
    assert_eq!(snapshot.match_time_ns, 0);
    assert_eq!(snapshot.countdown_remaining_ns, 0);
    assert_eq!(snapshot.teams[0].rune_opportunities, 1);
    assert_eq!(snapshot.teams[1].rune_opportunities, 1);
    assert_eq!(snapshot.stage, RuneStage::Small);
    // Blue spends its opportunity and lets it expire after 20 s.
    game.command(RefereeCommand::ActivateRune { team: Team::Blue }, 8_000_000_000).unwrap();
    assert_eq!(game.runes[1].state(), RuneState::Activating);
    assert_eq!(game.runes[0].state(), RuneState::Inactive);
    assert!(game.command(RefereeCommand::ActivateRune { team: Team::Blue }, 8_000_000_000).is_err());
    game.tick(27_999_999_999).unwrap();
    assert_eq!(game.runes[1].state(), RuneState::Activating);
    game.tick(28_000_000_000).unwrap();
    assert_eq!(game.runes[1].state(), RuneState::Inactive);
    assert_eq!(game.snapshot().teams[1].rune_opportunities, 0);
    assert!(matches!(
        game.last_event(),
        RefereeEvent::RuneActivationExpired { team: Team::Blue }
    ));
    // Red activates its rune by hitting: 25 % defense for 45 s, then unavailable.
    game.command(RefereeCommand::ActivateRune { team: Team::Red }, 30_000_000_000).unwrap();
    let last = activate_by_hits(&mut game, 0, 30_100_000_000, [0.0, 0.0]);
    game.tick(last).unwrap();
    assert_eq!(game.runes[0].state(), RuneState::Activated);
    let red = game.snapshot().teams[0];
    let buff = red.buff.expect("buff granted");
    assert_eq!(buff.defense_pct, 25);
    assert_eq!(buff.source, RuneStage::Small);
    assert_eq!(buff.expires_ns - buff.started_ns, SMALL_RUNE_BUFF_NS);
    assert_eq!(game.engine.defense, [25, 0]);
    assert!(red.rune_activating_since_ns.is_none());
    // Buff times are on the round clock, which started at 7 s world time.
    game.tick(7_000_000_000 + buff.expires_ns - 1).unwrap();
    assert_eq!(game.runes[0].state(), RuneState::Activated);
    game.tick(7_000_000_000 + buff.expires_ns).unwrap();
    assert_eq!(game.runes[0].state(), RuneState::Inactive);
    assert!(game.snapshot().teams[0].buff.is_none());
    assert_eq!(game.engine.defense, [0, 0]);
    // The 1:30 opportunity arrives on the round clock.
    game.tick(7_000_000_000 + 89_999_999_999).unwrap();
    assert_eq!(game.snapshot().teams[0].rune_opportunities, 0);
    game.tick(7_000_000_000 + 90_000_000_000).unwrap();
    assert_eq!(game.snapshot().teams[0].rune_opportunities, 1);
    assert_eq!(game.snapshot().teams[1].rune_opportunities, 1);
    // Robot damage passes through the (absent) buff and defeats at zero.
    let damage = |amount: u32| RefereeCommand::DamageRobot { robot: 0, amount };
    game.command(damage(150), 100_000_000_000).unwrap();
    assert_eq!(game.snapshot().robots[0].hp, 50);
    game.command(damage(150), 100_000_000_000).unwrap();
    assert_eq!(game.snapshot().robots[0].hp, 0);
    assert!(game.command(damage(1), 100_000_000_000).is_err());
    game.command(RefereeCommand::ReviveRobot { robot: 0 }, 100_000_000_000).unwrap();
    assert_eq!(game.snapshot().robots[0].hp, 200);
    assert!(game.command(RefereeCommand::ReviveRobot { robot: 9 }, 100_000_000_000).is_err());
    // Reset returns the runes to training.
    game.command(RefereeCommand::ResetMatch, 101_000_000_000).unwrap();
    assert_eq!(game.referee.phase(), MatchPhase::Idle);
    assert_eq!(game.runes[0].state(), RuneState::Activating);
    assert_eq!(game.runes[0].kind(), RuneKind::Small);
    assert_eq!(game.snapshot().match_time_ns, 0);
}

#[test]
fn big_rune_stage_converts_runes_and_scores_from_rings() {
    let mut game = new_match();
    game.command(RefereeCommand::StartMatch, 0).unwrap();
    game.tick(5_000_000_000).unwrap();
    assert_eq!(game.referee.phase(), MatchPhase::Running);
    assert!(game.command(RefereeCommand::SkipTo { match_time_ns: 1 }, 4_000_000_000).is_err());
    game.command(RefereeCommand::SkipTo { match_time_ns: 179_999_999_999 }, 5_000_000_000).unwrap();
    game.tick(5_000_000_000).unwrap();
    assert_eq!(game.snapshot().stage, RuneStage::Small);
    assert_eq!(game.snapshot().teams[0].rune_opportunities, 2);
    game.tick(5_000_000_001).unwrap();
    let snapshot = game.snapshot();
    assert_eq!(snapshot.stage, RuneStage::Big);
    assert_eq!(snapshot.match_time_ns, 180_000_000_000);
    assert_eq!(snapshot.teams[0].rune_opportunities, 3);
    assert_eq!(game.runes[0].kind(), RuneKind::Big);
    assert_eq!(game.runes[0].state(), RuneState::Inactive);
    assert_eq!(game.referee.rune_min_ring(0), 1);
    // Activate with centre hits: five required hits, ring 10 each.
    game.command(RefereeCommand::ActivateRune { team: Team::Red }, 6_000_000_000).unwrap();
    assert_eq!(game.runes[0].state(), RuneState::Activating);
    let last = activate_by_hits(&mut game, 0, 6_100_000_000, [0.0, 0.0]);
    game.tick(last).unwrap();
    assert_eq!(game.runes[0].state(), RuneState::Activated);
    let red = game.snapshot().teams[0];
    let buff = red.buff.expect("big rune buff");
    assert_eq!(buff.source, RuneStage::Big);
    assert_eq!((buff.attack_pct, buff.defense_pct, buff.cooling_multiplier), (300, 50, 5));
    assert_eq!(buff.expires_ns - buff.started_ns, 30_000_000_000);
    assert_eq!(red.big_rune_activations, 1);
    assert_eq!(game.referee.rune_min_ring(0), 4);
    assert_eq!(game.referee.rune_min_ring(1), 1);
    let activated = game
        .snapshot()
        .events
        .iter()
        .rev()
        .find(|e| matches!(e.event, RefereeEvent::RuneActivated { .. }))
        .unwrap()
        .event;
    assert!(matches!(activated, RefereeEvent::RuneActivated { arms: 5, ring_sum: 50, .. }));
    // Outer-ring hits after the buff: average ring 1, weaker buff. The round
    // clock started at 5 s world time.
    let expiry_world_ns = 5_000_000_000 + buff.expires_ns;
    game.tick(expiry_world_ns).unwrap();
    assert_eq!(game.runes[0].state(), RuneState::Inactive);
    game.command(RefereeCommand::ActivateRune { team: Team::Red }, expiry_world_ns + 1).unwrap();
    let last = activate_by_hits(&mut game, 0, expiry_world_ns + 100_000_000, [0.14, 0.0]);
    game.tick(last).unwrap();
    let weak = game.snapshot().teams[0].buff.expect("second buff");
    assert_eq!((weak.attack_pct, weak.defense_pct, weak.cooling_multiplier), (150, 25, 1));
    assert_eq!(game.referee.rune_min_ring(0), 7);
    // The round ends at seven minutes and everything goes dark.
    game.command(RefereeCommand::SkipTo { match_time_ns: ROUND_NS - 1 }, last).unwrap();
    game.tick(last + 1).unwrap();
    let end = game.snapshot();
    assert_eq!(end.phase, MatchPhase::Finished);
    assert_eq!(end.match_time_ns, ROUND_NS);
    assert_eq!(end.remaining_ns, 0);
    assert!(end.teams[0].buff.is_none());
    assert_eq!(game.runes[0].state(), RuneState::Inactive);
    game.tick(last + 5_000_000_000).unwrap();
    assert_eq!(game.snapshot().match_time_ns, ROUND_NS);
    assert!(game.command(RefereeCommand::FinishMatch, last + 5_000_000_000).is_err());
}

#[test]
fn wrong_blade_and_timeouts_forget_the_rings_and_outposts_are_reported() {
    let mut game = new_match();
    game.command(RefereeCommand::StartMatch, 0).unwrap();
    game.tick(5_000_000_000).unwrap();
    game.command(RefereeCommand::ActivateRune { team: Team::Blue }, 5_000_000_000).unwrap();
    let arms = |game: &Match| game.referee.state.blue.team.attempt_arms;
    // One good hit, then a wrong blade.
    let blade = game.runes[1].snapshot().active_blade.unwrap();
    let outcome = game.runes[1].hit(5_100_000_000, blade).unwrap();
    game.referee.observe_hit(&rune_hit(5_100_000_000, 1, blade, outcome), 10);
    assert_eq!(arms(&game), 1);
    let wrong = (game.runes[1].snapshot().active_blade.unwrap() + 1) % 5;
    let outcome = game.runes[1].hit(5_200_000_000, wrong).unwrap();
    assert!(matches!(outcome, HitOutcome::WrongBlade { .. }));
    game.referee.observe_hit(&rune_hit(5_100_000_000, 1, wrong, outcome), 10);
    assert_eq!(arms(&game), 0);
    // A hit, then the 2.5 s window lapses inside the rune.
    let blade = game.runes[1].snapshot().active_blade.unwrap();
    let outcome = game.runes[1].hit(5_300_000_000, blade).unwrap();
    game.referee.observe_hit(&rune_hit(5_100_000_000, 1, blade, outcome), 10);
    game.tick(5_300_000_000).unwrap();
    assert_eq!(arms(&game), 1);
    game.tick(7_800_000_002).unwrap();
    assert_eq!(game.runes[1].snapshot().completed_groups, 0);
    assert_eq!(arms(&game), 0);
    // Hits on the other team's rune, or while not activating, are ignored.
    let accepted = HitOutcome::Accepted { blade: 0, next_blade: 1 };
    game.referee.observe_hit(&rune_hit(5_100_000_000, 0, 0, accepted), 10);
    assert_eq!(game.referee.state.red.team.attempt_arms, 0);
    for _ in 0..2 {
        game.command(RefereeCommand::SetOutpostHp { outpost: 1, hp: 0 }, 7_800_000_002).unwrap();
    }
    let snapshot = game.snapshot();
    let destroyed: Vec<_> = snapshot
        .events
        .iter()
        .filter(|e| matches!(e.event, RefereeEvent::OutpostDestroyed { .. }))
        .collect();
    assert_eq!(destroyed.len(), 1);
    // A lost outpost alone does not expand the base armor.
    assert_eq!(snapshot.base_open, [false, false]);
    assert!(matches!(
        destroyed[0].event,
        RefereeEvent::OutpostDestroyed { outpost: 1, team: Team::Blue }
    ));
    assert_eq!(destroyed[0].match_time_ns, Some(2_800_000_002));
    // Finish early and the clock freezes.
    game.command(RefereeCommand::FinishMatch, 8_000_000_000).unwrap();
    assert_eq!(game.snapshot().match_time_ns, 3_000_000_000);
    assert_eq!(game.tick(1), Err(RuneError::TimeReversal));
}

#[test]
fn hostile_amounts_and_skips_cannot_overflow() {
    assert_eq!(defended(u32::MAX, 0), u32::MAX);
    assert_eq!(defended(u32::MAX, 25), 3_221_225_471);
    assert_eq!(defended(u32::MAX, 100), 0);
    let mut game = new_match();
    game.command(RefereeCommand::StartMatch, 0).unwrap();
    game.tick(5_000_000_000).unwrap();
    game.command(RefereeCommand::DamageRobot { robot: 0, amount: u32::MAX }, 5_000_000_000).unwrap();
    assert_eq!(game.snapshot().robots[0].hp, 0);
    // A skip past the end of the round stops at the end of the round.
    game.command(RefereeCommand::SkipTo { match_time_ns: u64::MAX }, 5_000_000_000).unwrap();
    assert_eq!(game.snapshot().match_time_ns, ROUND_NS);
    game.tick(5_000_000_001).unwrap();
    assert_eq!(game.referee.phase(), MatchPhase::Finished);
    game.tick(u64::MAX).unwrap();
    assert_eq!(game.snapshot().match_time_ns, ROUND_NS);
}

#[test]
fn skipping_ages_buffs_and_activation_windows() {
    let mut game = new_match();
    game.command(RefereeCommand::StartMatch, 0).unwrap();
    game.tick(5_000_000_000).unwrap();
    game.command(RefereeCommand::ActivateRune { team: Team::Red }, 5_000_000_000).unwrap();
    let last = activate_by_hits(&mut game, 0, 5_100_000_000, [0.0, 0.0]);
    game.tick(last).unwrap();
    assert!(game.snapshot().teams[0].buff.is_some());
    // Skipping to 1:30 grants the opportunity and lets the 45 s buff lapse.
    game.command(RefereeCommand::SkipTo { match_time_ns: 90_000_000_000 }, last).unwrap();
    game.tick(last + 1).unwrap();
    let red = game.snapshot().teams[0];
    assert!(red.buff.is_none());
    assert_eq!(red.rune_opportunities, 1);
    assert_eq!(game.runes[0].state(), RuneState::Inactive);
    game.command(RefereeCommand::ActivateRune { team: Team::Red }, last + 1).unwrap();
    // Skipping 20 s while Activating spends the window.
    game.command(RefereeCommand::SkipTo { match_time_ns: 110_000_000_001 }, last + 1).unwrap();
    game.tick(last + 2).unwrap();
    assert_eq!(game.runes[0].state(), RuneState::Inactive);
    assert!(game.snapshot().teams[0].rune_activating_since_ns.is_none());
    assert!(
        game.snapshot()
            .events
            .iter()
            .any(|e| e.event == RefereeEvent::RuneActivationExpired { team: Team::Red })
    );
}

#[test]
fn base_armor_travels_and_reverses_continuously() {
    let mut game = new_match();
    let open = |open: bool| RefereeCommand::SetBaseOpen { team: Team::Red, open };
    let fraction = |game: &Match, t: u64| {
        let snapshot = game.snapshot();
        let travelled = snapshot.base_moved_ns[0].map_or(1.0, |moved| {
            (t.saturating_sub(moved) as f64 / BASE_TRAVEL_NS as f64).min(1.0)
        });
        if snapshot.base_open[0] { travelled } else { 1.0 - travelled }
    };
    assert_eq!(fraction(&game, 0), 0.0);
    game.command(open(true), 1_000).unwrap();
    let half = 1_000 + BASE_TRAVEL_NS / 2;
    assert_eq!(fraction(&game, half), 0.5);
    // Reversing at the half-way point closes from where it is.
    game.command(open(false), half).unwrap();
    assert!((fraction(&game, half) - 0.5).abs() < 1e-9);
    let quarter = half + BASE_TRAVEL_NS / 4;
    assert!(fraction(&game, quarter) < 0.5);
    assert!(fraction(&game, quarter) > 0.0);
    // It settles shut and stops carrying a stamp.
    let shut = half + BASE_TRAVEL_NS / 2;
    game.tick(shut).unwrap();
    assert_eq!(game.snapshot().base_moved_ns, [None; 2]);
    assert_eq!(fraction(&game, shut + 1), 0.0);
    // Repeating the resting state starts no travel.
    game.command(open(false), shut + 2).unwrap();
    assert_eq!(game.snapshot().base_moved_ns[0], None);
}

#[test]
fn robot_commands_and_granted_opportunities_are_reported() {
    let mut game = new_match();
    game.command(RefereeCommand::StartMatch, 0).unwrap();
    game.tick(5_000_000_000).unwrap();
    game.command(RefereeCommand::GrantRuneOpportunity { team: Team::Blue }, 5_000_000_000).unwrap();
    assert_eq!(game.snapshot().teams[1].rune_opportunities, 2);
    assert_eq!(
        game.last_event(),
        RefereeEvent::RuneOpportunity { team: Team::Blue, stage: RuneStage::Small, total: 2 }
    );
    // SetRobotHp clamps to the maximum and reports defeat and revival.
    game.command(RefereeCommand::SetRobotHp { robot: 1, hp: 0 }, 5_000_000_000).unwrap();
    assert_eq!(game.last_event(), RefereeEvent::RobotDefeated { robot: 1 });
    game.command(RefereeCommand::SetRobotHp { robot: 1, hp: 9_999 }, 5_000_000_000).unwrap();
    let snapshot = game.snapshot();
    assert_eq!(snapshot.robots[1].hp, snapshot.robots[1].max_hp);
    assert_eq!(game.last_event(), RefereeEvent::RobotRevived { robot: 1 });
    assert!(game.command(RefereeCommand::SetRobotHp { robot: 9, hp: 1 }, 5_000_000_000).is_err());
    // Penalty damage ignores the defense buff a team holds.
    game.command(RefereeCommand::ActivateRune { team: Team::Red }, 5_000_000_000).unwrap();
    let last = activate_by_hits(&mut game, 0, 5_100_000_000, [0.0, 0.0]);
    game.tick(last).unwrap();
    assert_eq!(game.snapshot().teams[0].buff.unwrap().defense_pct, 25);
    assert_eq!(game.snapshot().robots[0].team, Team::Red);
    game.command(RefereeCommand::DamageRobot { robot: 0, amount: 100 }, last).unwrap();
    assert_eq!(game.snapshot().robots[0].hp, 100);
    assert_eq!(
        game.last_event(),
        RefereeEvent::RobotDamaged { robot: 0, amount: 100, hp: 100, shooter: None }
    );
}

#[test]
fn big_stage_ends_attempts_expires_windows_and_counts_bonus_arms() {
    let mut game = new_match();
    game.command(RefereeCommand::StartMatch, 0).unwrap();
    game.tick(5_000_000_000).unwrap();
    game.command(RefereeCommand::SkipTo { match_time_ns: 179_999_999_999 }, 5_000_000_000).unwrap();
    game.tick(5_000_000_000).unwrap();
    // An attempt still running at 3:00 is lost with the conversion.
    game.command(RefereeCommand::ActivateRune { team: Team::Red }, 5_000_000_000).unwrap();
    assert_eq!(game.snapshot().teams[0].rune_opportunities, 1);
    game.tick(5_000_000_001).unwrap();
    let red = game.snapshot().teams[0];
    assert_eq!(game.snapshot().stage, RuneStage::Big);
    assert!(red.rune_activating_since_ns.is_none());
    assert_eq!(red.rune_opportunities, 2);
    assert_eq!(game.runes[0].kind(), RuneKind::Big);
    assert_eq!(game.runes[0].state(), RuneState::Inactive);
    // A Big Rune attempt also expires after 20 s.
    game.command(RefereeCommand::ActivateRune { team: Team::Red }, 6_000_000_000).unwrap();
    game.tick(25_999_999_999).unwrap();
    assert_eq!(game.runes[0].state(), RuneState::Activating);
    game.tick(26_000_000_000).unwrap();
    assert_eq!(game.runes[0].state(), RuneState::Inactive);
    assert_eq!(game.last_event(), RefereeEvent::RuneActivationExpired { team: Team::Red });
    assert_eq!(game.snapshot().teams[0].rune_opportunities, 1);
    // Hitting both targets of every group lights ten arms: the longest buff.
    game.command(RefereeCommand::ActivateRune { team: Team::Red }, 27_000_000_000).unwrap();
    let mut t = 27_100_000_000;
    for _ in 0..6 {
        game.tick(t).unwrap();
        let active = game.runes[0].snapshot().active_blades;
        if !active.iter().any(|lit| *lit) {
            break;
        }
        for blade in (0..5u32).filter(|b| active[*b as usize]) {
            let outcome = game.runes[0].hit(t, blade).unwrap();
            assert!(matches!(outcome, HitOutcome::GroupHit { .. }));
            game.referee.observe_hit(&rune_hit(t, 0, blade, outcome), ring([0.0, 0.0]));
            t += 50_000_000;
        }
        t += 1_000_000_001;
    }
    game.tick(t).unwrap();
    assert_eq!(game.runes[0].state(), RuneState::Activated);
    let buff = game.snapshot().teams[0].buff.expect("big rune buff");
    assert_eq!(buff.expires_ns - buff.started_ns, 60_000_000_000);
    assert_eq!((buff.attack_pct, buff.defense_pct, buff.cooling_multiplier), (300, 50, 5));
    assert!(game.snapshot().events.iter().any(|e| matches!(
        e.event,
        RefereeEvent::RuneActivated { team: Team::Red, arms: 10, .. }
    )));
}

#[test]
fn runes_are_seeded_for_the_match_and_train_unseeded() {
    let mut game = new_match();
    // Training: the lowest unhit blade, in order.
    game.tick(1_000_000_000).unwrap();
    assert_eq!(game.runes[0].snapshot().active_blade, Some(0));
    game.runes[0].hit(1_000_000_000, 0).unwrap();
    assert_eq!(game.runes[0].snapshot().active_blade, Some(1));
    game.command(RefereeCommand::StartMatch, 2_000_000_000).unwrap();
    game.tick(7_000_000_000).unwrap();
    game.command(RefereeCommand::ActivateRune { team: Team::Red }, 7_000_000_000).unwrap();
    let mut order = Vec::new();
    for i in 0..5u64 {
        let blade = game.runes[0].snapshot().active_blade.unwrap();
        order.push(blade);
        game.runes[0].hit(7_000_000_000 + i * 100_000_000, blade).unwrap();
    }
    assert_ne!(order, vec![0, 1, 2, 3, 4], "seeded order is not the training order");
    // The same seed replays the same order.
    let mut again = new_match();
    again.command(RefereeCommand::StartMatch, 2_000_000_000).unwrap();
    again.tick(7_000_000_000).unwrap();
    again.command(RefereeCommand::ActivateRune { team: Team::Red }, 7_000_000_000).unwrap();
    for (i, expected) in order.iter().enumerate() {
        assert_eq!(again.runes[0].snapshot().active_blade, Some(*expected));
        again.runes[0].hit(7_000_000_000 + i as u64 * 100_000_000, *expected).unwrap();
    }
    // Reset returns to the training order.
    game.command(RefereeCommand::ResetMatch, 8_000_000_000).unwrap();
    assert_eq!(game.runes[0].snapshot().active_blade, Some(0));
    game.runes[0].hit(8_000_000_000, 0).unwrap();
    assert_eq!(game.runes[0].snapshot().active_blade, Some(1));
}

#[test]
fn refused_commands_change_nothing() {
    let mut game = new_match();
    game.tick(1_000_000_000).unwrap();
    let before = (game.referee.clone(), game.runes.clone());
    for (command, now) in [
        (RefereeCommand::SetBaseOpen { team: Team::Red, open: true }, 999),
        (RefereeCommand::ActivateRune { team: Team::Red }, 2_000_000_000),
        (RefereeCommand::SkipTo { match_time_ns: 5 }, 2_000_000_000),
        (RefereeCommand::FinishMatch, 2_000_000_000),
        (RefereeCommand::SetOutpostHp { outpost: 7, hp: 0 }, 2_000_000_000),
    ] {
        assert!(game.command(command, now).is_err(), "{command:?}");
        assert_eq!((game.referee.clone(), game.runes.clone()), before);
    }
    assert!(game.engine.calls.iter().all(|c| matches!(c, GameCall::AddRobot { .. })));
    // The engine's own refusals come back in words.
    let buy = RefereeCommand::BuyAmmo { robot: 0, caliber: Caliber::Mm17, amount: 10 };
    assert_eq!(game.command(buy, 2_000_000_000), Err("not enough gold or allowance"));
}

#[test]
fn refusals_of_the_engine_have_words() {
    for (error, words) in [
        (GameError::Phase, "the command is not valid in this match phase"),
        (GameError::Robot, "unknown robot id"),
        (GameError::Invalid, "invalid value"),
        (GameError::Ineligible, "the robot is not eligible for that"),
        (GameError::Insufficient, "not enough gold or allowance"),
        (GameError::Limit, "exchange limit reached"),
        (GameError::ClockOverflow, "gameplay clock overflow"),
    ] {
        assert_eq!(error.message(), words);
    }
}

#[test]
fn launches_are_refused_with_their_reason() {
    let mut engine = Engine::new();
    let fallback = RobotConfig::default().fallback;
    let add = |kind: RobotKind| GameCall::AddRobot {
        robot: 4,
        team: Team::Red,
        kind,
        performance: None,
        fallback,
    };
    engine.call(add(RobotKind::Infantry)).unwrap();
    let robot = engine.view.robots[0];
    let check = |robot: RobotState, caliber: Caliber, phase: GamePhase| {
        check_launch(Some(robot), false, caliber, phase, 100)
    };
    let idle = GamePhase::Idle;
    assert_eq!(check_launch(Some(robot), true, Caliber::Mm42, GamePhase::Ended, 0), Ok(()));
    assert_eq!(check_launch(None, false, Caliber::Mm42, GamePhase::Ended, 0), Ok(()));
    let cases = [
        (RobotState { alive: false, ..robot }, Caliber::Mm17, idle, "the robot is defeated"),
        (robot, Caliber::Mm42, idle, "the robot has no launcher for that caliber"),
        (robot, Caliber::Mm17, GamePhase::Countdown, "the round is not running"),
        (RobotState { weakened: true, ..robot }, Caliber::Mm17, idle, "the robot is weakened"),
        (RobotState { overheated: true, ..robot }, Caliber::Mm17, idle, "the barrel is overheated"),
        (
            RobotState { speed_locked_until_ticks: 101, ..robot },
            Caliber::Mm17,
            idle,
            "launching is locked",
        ),
        (
            RobotState { irregularly_disconnected: true, ..robot },
            Caliber::Mm17,
            idle,
            "the robot is disconnected",
        ),
        (
            RobotState { kind: RobotKind::Drone, ..robot },
            Caliber::Mm17,
            idle,
            "the drone has no air support",
        ),
        (robot, Caliber::Mm17, idle, "no projectile allowance"),
    ];
    for (robot, caliber, phase, reason) in cases {
        assert_eq!(check(robot, caliber, phase), Err(reason));
    }
}

#[test]
fn zone_contacts_are_forwarded_when_they_change() {
    let mut game = new_match();
    let zone = Zone { kind: ZoneKind::Fortress, owner: Team::Blue, pad: 0 };
    let view = game.engine.view.clone();
    assert_eq!(game.referee.observe_zone(0, zone, true, &view), Progress::Done);
    game.command(RefereeCommand::StartMatch, 0).unwrap();
    game.tick(5_000_000_000).unwrap();
    let view = game.engine.view.clone();
    assert_eq!(game.referee.observe_zone(0, zone, false, &view), Progress::Done);
    assert_eq!(game.referee.observe_zone(9, zone, true, &view), Progress::Done);
    let progress = game.referee.observe_zone(0, zone, true, &view);
    assert_eq!(progress, Progress::Call(GameCall::ZoneDetection { robot: 0, zone, detected: true }));
    game.drive(progress).unwrap();
    let view = game.engine.view.clone();
    assert_eq!(game.referee.observe_zone(0, zone, true, &view), Progress::Done);
}

#[test]
fn launches_and_collisions_reach_the_engine() {
    let mut game = new_match();
    let view = game.engine.view.clone();
    assert_eq!(game.referee.record_launch(None, Caliber::Mm17, &view), Progress::Done);
    assert_eq!(game.referee.record_launch(Some(9), Caliber::Mm17, &view), Progress::Done);
    let progress = game.referee.record_launch(Some(0), Caliber::Mm17, &view);
    let launch = GameCall::Launch { robot: 0, caliber: Caliber::Mm17 };
    assert_eq!(progress, Progress::Call(launch));
    game.drive(progress).unwrap();
    let target = StrikeTarget::Robot(1);
    let kind = DamageKind::Collision;
    let progress = game.referee.damage(target, 2, kind);
    assert_eq!(progress, Progress::Call(GameCall::Damage { target, amount: 2, kind }));
    game.drive(progress).unwrap();
    assert_eq!(Referee::robot_defeated(0, &game.engine.view), Some(false));
    assert_eq!(Referee::robot_defeated(9, &game.engine.view), None);
}

#[test]
fn stamps_can_be_taken_out_and_put_back() {
    let mut game = new_match();
    game.command(RefereeCommand::StartMatch, 0).unwrap();
    game.tick(5_000_000_000).unwrap();
    game.command(RefereeCommand::ActivateRune { team: Team::Red }, 6_000_000_000).unwrap();
    let mut other = game.referee.clone();
    let field = game.referee.stamps(StampClock::Field);
    let round = game.referee.stamps(StampClock::Round);
    assert!(field.contains(&5_000_000_000));
    assert!(round.contains(&1_000_000_000));
    let zeros: Vec<u64> = field.iter().map(|_| 0).collect();
    other.set_stamps(StampClock::Field, &zeros);
    assert_ne!(other, game.referee);
    other.set_stamps(StampClock::Field, &field);
    assert_eq!(other, game.referee);
}

#[test]
fn a_new_referee_has_an_open_policy() {
    assert_eq!(
        Referee::initial_policy(),
        GameCall::SetPolicy { enforce_allowance: false, exchange_requires_zone: false }
    );
    let game = new_match();
    assert!(game.referee.is_consistent());
    assert_eq!(game.referee.match_time_ns(), 0);
    assert_eq!(game.referee.dart_target_since_ns(), None);
    assert_eq!(RuneStage::Big.kind(), RuneKind::Big);
    assert_eq!(RuneStage::Small.kind(), RuneKind::Small);
}

fn three_runes() -> Match {
    let owners = vec![Team::Red, Team::Blue, Team::Red];
    let config = RefereeConfig::owned(owners, vec![Team::Red, Team::Blue]);
    let rune = |x: f64| Rune::Small(SmallRune::new(hub(x), true).unwrap());
    let mut game = Match {
        referee: Referee::new(config, vec![RuneKind::Small; 3], 2, BASE_TRAVEL_NS).unwrap(),
        runes: vec![rune(5.), rune(-5.), rune(6.)],
        engine: Engine::new(),
    };
    game.command(RefereeCommand::StartMatch, 0).unwrap();
    game.tick(5_000_000_000).unwrap();
    game.tick(6_000_000_000).unwrap();
    assert_eq!(game.snapshot().phase, MatchPhase::Running);
    game
}

#[test]
fn a_tick_waits_only_for_the_runes_that_it_drives() {
    let mut game = three_runes();
    game.runes[2].advance_to(9_000_000_000).unwrap();
    // No team plays with its second rune.
    game.tick(7_000_000_000).unwrap();
    let skip = RefereeCommand::SkipTo { match_time_ns: 180_000_000_000 };
    game.command(skip, 7_000_000_000).unwrap();
    // It converts with the Big Rune stage.
    let before = game.referee.clone();
    assert_eq!(game.tick(8_000_000_000), Err(RuneError::TimeReversal));
    assert_eq!(game.referee, before);
    game.tick(9_000_000_000).unwrap();
    assert!(game.runes.iter().all(|rune| rune.kind() == RuneKind::Big));
    game.runes[2].advance_to(11_000_000_000).unwrap();
    game.tick(10_000_000_000).unwrap();
    // It goes dark when the round is over.
    game.command(RefereeCommand::SkipTo { match_time_ns: ROUND_NS }, 10_000_000_000).unwrap();
    assert_eq!(game.tick(10_500_000_000), Err(RuneError::TimeReversal));
    game.tick(11_000_000_000).unwrap();
    assert_eq!(game.snapshot().phase, MatchPhase::Finished);
    let mut game = three_runes();
    game.runes[0].advance_to(9_000_000_000).unwrap();
    assert_eq!(game.tick(7_000_000_000), Err(RuneError::TimeReversal));
}

#[test]
fn a_round_that_the_engine_ended_goes_on_while_a_rune_is_ahead() {
    let mut game = three_runes();
    game.runes[2].advance_to(9_000_000_000).unwrap();
    game.engine.view.phase = GamePhase::Ended;
    let view = game.engine.view.clone();
    let progress = game.referee.tick(7_000_000_000, &mut game.runes, &view).unwrap();
    assert_eq!(progress, Progress::Refused("rune rejected the referee's request"));
    assert_eq!(game.snapshot().phase, MatchPhase::Running);
    game.tick(9_000_000_000).unwrap();
    assert_eq!(game.snapshot().phase, MatchPhase::Finished);
}

#[test]
fn a_command_that_the_engines_phase_refuses_changes_nothing() {
    let mut game = three_runes();
    let view = game.engine.view.clone();
    let before = game.referee.clone();
    let runes = game.runes.clone();
    let buff = RefereeCommand::SetRuneBuff {
        team: Team::Red,
        defense_pct: 25,
        attack_pct: 150,
        cooling_multiplier: 2,
        duration_ns: 10_000_000_000,
    };
    let outpost = RefereeCommand::SetOutpostHp { outpost: 0, hp: 0 };
    let gold = RefereeCommand::SetGold { team: Team::Red, gold: 5 };
    let words = "the command is not valid in this match phase";
    for (command, reason) in
        [(buff, words), (outpost, "outpost HP must be at most 1500"), (gold, words)]
    {
        let progress = game.referee.command(command, 8_000_000_000, &mut game.runes, &view);
        assert!(matches!(progress, Progress::Call(_)));
        let refused = game.referee.resume(Err(GameError::Phase), &mut game.runes, &view);
        assert_eq!(refused, Progress::Refused(reason));
        assert_eq!(game.referee, before);
        assert_eq!(game.runes, runes);
    }
    // Any other refusal comes at the command's time.
    let progress = game.referee.command(gold, 8_000_000_000, &mut game.runes, &view);
    assert!(matches!(progress, Progress::Call(_)));
    let refused = game.referee.resume(Err(GameError::Invalid), &mut game.runes, &view);
    assert_eq!(refused, Progress::Refused("invalid value"));
    assert_eq!(game.referee.state.now_ns, 8_000_000_000);
    // A buff the engine takes darkens the rune and lasts.
    game.command(buff, 9_000_000_000).unwrap();
    assert_eq!(game.runes[0].state(), RuneState::Inactive);
    assert_eq!(game.snapshot().teams[0].buff.unwrap().defense_pct, 25);
}

#[test]
fn a_class_without_rulebook_values_falls_back() {
    let mut game = new_match();
    let view = game.engine.view.clone();
    let progress = game.referee.add_robot(7, Team::Red, RobotKind::Infantry, None, &view);
    let Progress::Call(GameCall::AddRobot { fallback, .. }) = progress else {
        panic!("a new robot is opened in the engine");
    };
    assert_eq!(fallback, RobotConfig::default().fallback);
    assert_eq!((fallback.max_hp, fallback.heat_limit, fallback.cooling_per_s), (200, 100, 20));
    game.drive(progress).unwrap();
    let target = StrikeTarget::Base(Team::Blue);
    let kind = DamageKind::Penalty;
    let progress = game.referee.damage(target, 9, kind);
    assert_eq!(progress, Progress::Call(GameCall::Damage { target, amount: 9, kind }));
}

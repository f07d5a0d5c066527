//! What happens on the field from tick to tick, and how a field begins.
use super::bodies::defeat_of;
use super::layout::{
    base_count, base_refusal, built_field, layout_refusal,
    one_rune_refusal, outpost_refusal, recorded_field, restore_refusal, rune_refusal, target_at,
    tower_refusal, FieldConfig, FieldRecord, OutpostConfig, RestoredBase, RestoredOutpost,
    RestoredRune, RuneConfig,
};
use super::memory::younger;
use super::run::{Demand, RunModel, Stage};
use super::scoring::Applied;
use super::{FieldError, FieldModel};
use crate::game::{
    robot_in, stands_on, DamageKind, GameCall, GameView, RobotState, StrikeTarget,
};
use crate::outpost::Outpost;
use crate::projectile::ArmorHit;
use crate::referee::{MatchPhase, RefereeCommand};
use crate::rune::{RuneKind, RuneState};
use crate::target::{ArmorTarget, Caliber, Team};
use crate::zones::ZoneArea;
use vstd::prelude::*;

verus! {

/// Contacts are forgotten after a second, to the nanosecond: one is kept exactly
/// where it is less than that old.
pub proof fn contacts_are_kept_for_a_second(hits: Seq<ArmorHit>, now: int, hit: ArmorHit)
    ensures
        younger(hits, now).contains(hit) <==> hits.contains(hit) && now - hit.time_ns
            < 1_000_000_000,
    decreases hits.len(),
{
    reveal(Seq::filter);
    if hits.len() > 0 {
        let rest = hits.drop_last();
        let last = hits.last();
        contacts_are_kept_for_a_second(rest, now, hit);
        let kept = younger(rest, now);
        assert(hits =~= rest.push(last));
        assert(hits[hits.len() - 1] == last);
        if hits.contains(hit) && hit != last {
            let i = choose|i: int| 0 <= i < hits.len() && hits[i] == hit;
            assert(rest[i] == hit);
        }
        if rest.contains(hit) {
            let i = choose|i: int| 0 <= i < rest.len() && rest[i] == hit;
            assert(hits[i] == hit);
        }
        if now - last.time_ns < 1_000_000_000 {
            assert(younger(hits, now) == kept.push(last));
            assert(kept.push(last)[kept.len() as int] == last);
            if kept.contains(hit) {
                let i = choose|i: int| 0 <= i < kept.len() && kept[i] == hit;
                assert(kept.push(last)[i] == hit);
            }
            if kept.push(last).contains(hit) && hit != last {
                let i = choose|i: int| 0 <= i < kept.push(last).len() && kept.push(last)[i] == hit;
                assert(kept[i] == hit);
            }
        } else {
            assert(younger(hits, now) == kept);
        }
    }
}

/// Time that only passes turns the runes, forgets old contacts and leaves
/// everything else as it is.
pub proof fn time_turns_the_runes(field: FieldModel, end: u64, i: int, hit: ArmorHit)
    requires
        field.wf(),
        end * field.tick_ns <= u64::MAX,
    ensures
        ({
            let after = field.jumped(end);
            let now = end * field.tick_ns;
            &&& after.tick == end
            &&& after.tick_ns == field.tick_ns
            &&& after.runes.len() == field.runes.len()
            &&& 0 <= i < field.runes.len() ==> after.runes[i] == field.runes[i].advanced(
                now as u64,
            )
            &&& after.hits.contains(hit) <==> field.hits.contains(hit) && now - hit.time_ns
                < 1_000_000_000
            &&& after.bases == field.bases
            &&& after.outposts == field.outposts
            &&& after.referee == field.referee
            &&& after.hits_detected == field.hits_detected
            &&& after.last_detection_ns == field.last_detection_ns
        }),
{
    contacts_are_kept_for_a_second(field.hits, end * field.tick_ns, hit);
}

/// Three minutes into a round, or as soon as the other team's base armor has
/// expanded, a team's outpost is sent home at the field's time; before that, and
/// for the other team's, nothing happens.
pub proof fn rotors_stop_at_three_minutes(
    field: FieldModel,
    team: Team,
    game: GameView,
    index: int,
    i: int,
)
    requires
        field.wf(),
        field.referee is Some,
        0 <= index < field.outposts.len(),
        field.referee->0.config.outpost_teams[index] == team,
        forall|k: int|
            0 <= k < index ==> #[trigger] field.referee->0.config.outpost_teams[k] != team,
        0 <= i < field.outposts.len(),
    ensures
        ({
            let after = field.rotor_checked(team, game);
            let due = field.referee->0.match_time() >= 180_000_000_000 || (team == Team::Red
                && game.blue.base_armor_expanded) || (team == Team::Blue
                && game.red.base_armor_expanded);
            let old = field.outposts[i];
            let new = after.outposts[i];
            &&& after.outposts.len() == field.outposts.len()
            &&& !due || i != index ==> new == old
            &&& due && i == index && old.in_match && old.stopped_ns is None ==> new.homing
                && new.stopped_ns == Some((field.tick * field.tick_ns) as u64)
            &&& due && i == index && (!old.in_match || old.stopped_ns is Some) ==> new == old
            &&& new.hp == old.hp
            &&& after == (FieldModel { outposts: after.outposts, ..field })
        }),
{
    crate::referee::conduct::owners_have_their_first(
        field.referee->0.config.outpost_teams,
        team,
        index,
    );
}

/// After the referee's tick the runes stand at the field's time and every base
/// has the HP the engine has for its team; rotors stop in a running round only.
pub proof fn a_tick_settles_the_structures(field: FieldModel, game: GameView, i: int)
    requires
        field.wf(),
        field.referee is Some,
    ensures
        ({
            let after = field.tick_settled(game);
            let now = (field.tick * field.tick_ns) as u64;
            &&& after.runes.len() == field.runes.len()
            &&& 0 <= i < field.runes.len() ==> after.runes[i] == field.runes[i].advanced(now)
            &&& after.bases.len() == field.bases.len()
            &&& 0 <= i < field.bases.len() && field.bases[i].config.team == Team::Red
                ==> after.bases[i].hp == game.red.base_hp && after.bases[i].shield_hp
                == game.red.base_shield_hp
            &&& 0 <= i < field.bases.len() && field.bases[i].config.team == Team::Blue
                ==> after.bases[i].hp == game.blue.base_hp && after.bases[i].shield_hp
                == game.blue.base_shield_hp
            &&& field.referee->0.state.phase != MatchPhase::Running && 0 <= i
                < field.outposts.len() ==> after.outposts[i].homing == field.outposts[i].homing
            &&& after.tick == field.tick
            &&& after.hits == field.hits
            &&& after.referee == field.referee
        }),
{
    if 0 <= i < field.outposts.len() {
        assert(field.outposts[i].wf());
    }
}

/// A match that starts makes every outpost whole and at rest until the countdown
/// is over; a reset makes them whole and turning. Whatever the command, the
/// engine's HP holds after it.
pub proof fn commands_settle_the_outposts(
    field: FieldModel,
    command: RefereeCommand,
    game: GameView,
    i: int,
)
    requires
        field.wf(),
        field.referee is Some,
        0 <= i < field.outposts.len(),
        field.time_ns() + field.referee->0.config.countdown_ns <= u64::MAX,
    ensures
        ({
            let after = field.command_settled(command, game);
            let old = field.outposts[i];
            let new = after.outposts[i];
            let team = if field.referee->0.config.outpost_teams[i] == Team::Red {
                game.red
            } else {
                game.blue
            };
            &&& team.outpost_hp <= 1500 ==> new.hp == team.outpost_hp
            &&& command == RefereeCommand::StartMatch ==> {
                &&& new.in_match
                &&& !new.homing
                &&& new.starts_ns == field.tick * field.tick_ns
                    + field.referee->0.config.countdown_ns
                &&& team.outpost_hp == 1500 ==> new.stopped_ns is None
            }
            &&& command == RefereeCommand::ResetMatch ==> {
                &&& !new.in_match
                &&& !new.homing
                &&& new.starts_ns == 0
                &&& team.outpost_hp == 1500 ==> new.stopped_ns is None
            }
            &&& !(command is StartMatch) && !(command is ResetMatch) ==> new.in_match
                == old.in_match && new.starts_ns == old.starts_ns && new.homing == old.homing
            &&& !(command is StartMatch) && !(command is ResetMatch) && team.outpost_hp == old.hp
                ==> new == old
        }),
{
    assert(field.outposts[i].wf());
}

/// A step of the field takes one tick at a time, and all at once only where
/// there is neither a referee nor anything in motion.
pub proof fn steps_take_a_tick_at_a_time(
    field: FieldModel,
    run: RunModel,
    idle: bool,
    game: GameView,
)
    requires
        field.wf(),
        field.tick < run.end,
        run.end * field.tick_ns <= u64::MAX,
    ensures
        ({
            let next = field.started(run, idle, game);
            &&& idle && field.referee is None ==> next.field.tick == run.end && next.demand
                is Finished
            &&& !idle || field.referee is Some ==> next.field.tick == field.tick + 1
            &&& !idle && field.referee is None ==> next.demand is Move && next.run.stage
                is Moving
        }),
{
}

/// Contacts are taken in their order. One with disabled armor is passed over;
/// one that is a strike goes to the engine before the next, and any other is
/// scored and reported at once.
pub proof fn contacts_are_taken_in_order(
    field: FieldModel,
    run: RunModel,
    areas: Seq<ZoneArea>,
    game: GameView,
)
    requires
        run.touches.len() > 0,
    ensures
        ({
            let touch = run.touches[0];
            let next = field.touching(run, areas, game);
            let off = field.disabled(touch.contact.target, touch.defeated);
            let strike = field.strike(touch.contact);
            let nothing = Applied { hp: 0, shield: 0 };
            let (scored, outcome) = field.scored(touch.contact, nothing, game);
            &&& off ==> next == field.touching(
                RunModel { touches: run.touches.subrange(1, run.touches.len() as int), ..run },
                areas,
                game,
            )
            &&& !off && strike is Some ==> {
                &&& next.demand == Demand::Call(GameCall::Projectile(strike->0))
                &&& next.run.stage == Stage::Striking(touch.contact)
                &&& next.run.touches == run.touches.subrange(1, run.touches.len() as int)
                &&& next.field.bases == field.bases && next.field.outposts == field.outposts
            }
            &&& !off && strike is None && outcome is Ok ==> {
                &&& next.demand == Demand::Report(outcome->Ok_0)
                &&& next.field.hits.len() > 0 && next.field.hits.last() == outcome->Ok_0
                &&& next.run.touches == run.touches.subrange(1, run.touches.len() as int)
            }
            &&& !off && strike is None && outcome is Err ==> next.demand == Demand::Failed(
                outcome->Err_0,
            )
        }),
{
    assert(run.touches.remove(0) =~= run.touches.subrange(1, run.touches.len() as int));
}

/// A collision that counts costs its robot two HP and starts its module's
/// interval; one that does not is passed over.
pub proof fn collisions_cost_two_hp(
    field: FieldModel,
    run: RunModel,
    areas: Seq<ZoneArea>,
    game: GameView,
)
    requires
        run.collisions.len() > 0,
        field.wf(),
    ensures
        ({
            let bump = run.collisions[0];
            let next = field.colliding(run, areas, game);
            let target = ArmorTarget::Chassis { chassis: bump.chassis, plate: bump.plate };
            let counts = field.collision_counts(bump.chassis, bump.plate, bump.defeated);
            &&& counts ==> {
                &&& next.demand == Demand::Call(
                    GameCall::Damage {
                        target: StrikeTarget::Robot(bump.chassis),
                        amount: 2,
                        kind: DamageKind::Collision,
                    },
                )
                &&& next.field.last_detection_ns.dom().contains(target)
                &&& next.field.last_detection_ns[target] == field.tick * field.tick_ns
                &&& next.run.collisions == run.collisions.subrange(
                    1,
                    run.collisions.len() as int,
                )
            }
            &&& !counts ==> next == field.colliding(
                RunModel {
                    collisions: run.collisions.subrange(1, run.collisions.len() as int),
                    ..run
                },
                areas,
                game,
            )
        }),
{
    assert(run.collisions.remove(0) =~= run.collisions.subrange(
        1,
        run.collisions.len() as int,
    ));
}

/// The engine hears of a robot on a buff point only when that is news: in a
/// running round, of a robot it knows, where it has it otherwise.
pub proof fn sightings_are_told_as_news(field: FieldModel, run: RunModel, game: GameView)
    requires
        run.sightings.len() > 0,
    ensures
        ({
            let seen = run.sightings[0];
            let next = field.sighting(run, game);
            let news = {
                &&& field.referee is Some
                &&& field.referee->0.state.phase == MatchPhase::Running
                &&& robot_in(game.robots@, seen.robot) is Some
                &&& stands_on(game.contacts@, seen.robot, seen.zone) != seen.detected
            };
            &&& news ==> next.demand == Demand::Call(
                GameCall::ZoneDetection {
                    robot: seen.robot,
                    zone: seen.zone,
                    detected: seen.detected,
                },
            ) && next.run.sightings == run.sightings.subrange(1, run.sightings.len() as int)
            &&& !news ==> next == field.sighting(
                RunModel {
                    sightings: run.sightings.subrange(1, run.sightings.len() as int),
                    ..run
                },
                game,
            )
        }),
{
    assert(run.sightings.remove(0) =~= run.sightings.subrange(1, run.sightings.len() as int));
}

/// A robot counts as defeated for the physics without HP or once it is sent off.
pub proof fn who_counts_as_defeated(robot: RobotState)
    ensures
        defeat_of(robot).robot == robot.id,
        defeat_of(robot).defeated <==> robot.hp == 0 || robot.ejected,
{
}

/// A launch is refused only with a referee, for a shooter that the engine knows
/// and does not let launch.
pub proof fn who_may_launch(
    field: FieldModel,
    shooter: Option<u32>,
    can_launch: bool,
    caliber: Caliber,
    game: GameView,
)
    ensures
        field.launch_check(shooter, can_launch, caliber, game) is Err <==> {
            &&& field.referee is Some
            &&& !can_launch
            &&& shooter is Some
            &&& robot_in(game.robots@, shooter->0) is Some
        },
        field.launch_check(shooter, can_launch, caliber, game) is Err ==> field.launch_check(
            shooter,
            can_launch,
            caliber,
            game,
        )->Err_0 == FieldError::Referee(
            crate::referee::rules::launch_refusal(
                robot_in(game.robots@, shooter->0)->0,
                caliber,
                game.phase,
                game.round_ticks,
            ),
        ),
{
}

/// A robot is found under its id where it is first listed, and one that is not
/// listed is not found.
pub proof fn robots_are_found_by_id(robots: Seq<RobotState>, id: u32, k: int)
    ensures
        0 <= k < robots.len() && robots[k].id == id && (forall|i: int|
            0 <= i < k ==> (#[trigger] robots[i]).id != id) ==> robot_in(robots, id) == Some(
            robots[k],
        ),
        (forall|i: int| 0 <= i < robots.len() ==> (#[trigger] robots[i]).id != id) ==> robot_in(
            robots,
            id,
        ) is None,
    decreases robots.len(),
{
    if robots.len() > 0 && robots[0].id != id {
        let rest = robots.subrange(1, robots.len() as int);
        robots_are_found_by_id(rest, id, k - 1);
        if forall|i: int| 0 <= i < k ==> (#[trigger] robots[i]).id != id {
            assert forall|i: int| 0 <= i < k - 1 && i < rest.len() implies (
            #[trigger] rest[i]).id != id by {
                assert(rest[i] == robots[i + 1]);
            }
        }
        if forall|i: int| 0 <= i < robots.len() ==> (#[trigger] robots[i]).id != id {
            assert forall|i: int| 0 <= i < rest.len() implies (#[trigger] rest[i]).id != id by {
                assert(rest[i] == robots[i + 1]);
            }
        }
    }
}

/// A field begins at tick zero with nothing hit: bases at 5000 HP with a shield
/// of 150, outposts at 1500 and turning, and runes in training, each where it
/// was placed; its referee, where it has one, in free practice.
pub proof fn fields_begin_whole(
    config: FieldConfig,
    tick_ns: u64,
    base_travel_ns: u64,
    i: int,
)
    ensures
        ({
            let field = built_field(config, tick_ns, base_travel_ns);
            &&& field.tick == 0
            &&& field.tick_ns == tick_ns
            &&& field.hits.len() == 0 && field.hits_detected == 0
            &&& field.last_detection_ns.dom() == Set::<ArmorTarget>::empty()
            &&& field.bases.len() == config.bases@.len()
            &&& field.runes.len() == config.runes@.len()
            &&& field.outposts.len() == config.outposts@.len()
            &&& 0 <= i < config.bases@.len() ==> field.bases[i].hp == 5000
                && field.bases[i].shield_hp == 150 && field.bases[i].config
                == config.bases@[i].config
            &&& 0 <= i < config.outposts@.len() ==> {
                let tower: Outpost = field.outposts[i];
                &&& tower.hp == 1500 && tower.stopped_ns is None && !tower.in_match
                    && !tower.homing && tower.starts_ns == 0
                &&& tower.origin == config.outposts@[i].origin
                &&& tower.speed_rad_s == config.outposts@[i].speed_rad_s
                &&& tower.pivot_cad_m == config.outposts@[i].pivot_cad_m
            }
            &&& 0 <= i < config.runes@.len() ==> {
                let rune = field.runes[i];
                &&& rune.kind() == config.runes@[i].kind
                &&& rune.hub == config.runes@[i].hub_pose
                &&& rune.state() == RuneState::Activating
                &&& rune.time_ns() == 0
                &&& rune.turns.len() == 0
                &&& config.runes@[i].cad_orbit ==> rune.target_radius_um == 698_500
                &&& !config.runes@[i].cad_orbit ==> rune.target_radius_um == 700_000
            }
            &&& field.referee is Some <==> config.referee is Some
            &&& config.referee is Some ==> {
                let referee = field.referee->0;
                &&& referee.config == config.referee->0@
                &&& referee.state.phase == MatchPhase::Idle
                &&& referee.events.len() == 0
                &&& referee.base_travel_ns == base_travel_ns
                &&& referee.training_kinds.len() == config.runes@.len()
                &&& 0 <= i < config.runes@.len() ==> referee.training_kinds[i]
                    == config.runes@[i].kind
            }
        }),
{
}

/// The first tower that cannot stand, if any.
proof fn towers_that_stand(outposts: Seq<OutpostConfig>, from: nat)
    requires
        from <= outposts.len(),
    ensures
        outpost_refusal(outposts, from) is None <==> forall|i: int|
            from <= i < outposts.len() ==> crate::outpost::stand_check(
                (#[trigger] outposts[i]).pivot_cad_m,
                outposts[i].origin,
                outposts[i].unit_rotation,
                outposts[i].speed_rad_s,
            ) is Ok,
    decreases outposts.len() - from,
{
    if from < outposts.len() {
        towers_that_stand(outposts, from + 1);
        let c = outposts[from as int];
        if outpost_refusal(outposts, from) is None {
            assert forall|i: int| from <= i < outposts.len() implies crate::outpost::stand_check(
                (#[trigger] outposts[i]).pivot_cad_m,
                outposts[i].origin,
                outposts[i].unit_rotation,
                outposts[i].speed_rad_s,
            ) is Ok by {}
        }
    }
}

/// A layout is taken exactly where every base, rune and tower can stand as
/// placed and, with a referee, it has its owners and no team two bases.
pub proof fn which_layouts_are_taken(config: FieldConfig)
    ensures
        layout_refusal(config) is None <==> {
            &&& forall|i: int|
                0 <= i < config.bases@.len() ==> (#[trigger] config.bases@[i]).unit_rotations
                    && config.bases@[i].config.valid()
            &&& forall|i: int|
                0 <= i < config.runes@.len() ==> (#[trigger] config.runes@[i]).unit_rotation
                    && config.runes@[i].hub_pose.finite()
            &&& forall|i: int|
                0 <= i < config.outposts@.len() ==> crate::outpost::stand_check(
                    (#[trigger] config.outposts@[i]).pivot_cad_m,
                    config.outposts@[i].origin,
                    config.outposts@[i].unit_rotation,
                    config.outposts@[i].speed_rad_s,
                ) is Ok
            &&& config.referee is Some ==> {
                &&& crate::referee::desk::config_refusal(
                    config.referee->0,
                    config.runes@.len(),
                    config.outposts@.len(),
                ) is None
                &&& base_count(config.bases@, Team::Red) <= 1
                &&& base_count(config.bases@, Team::Blue) <= 1
            }
        },
{
    towers_that_stand(config.outposts@, 0);
}

/// Whether every recorded base can be taken.
proof fn bases_that_stand(bases: Seq<RestoredBase>, from: nat)
    requires
        from <= bases.len(),
    ensures
        base_refusal(bases, from) is None <==> forall|i: int|
            from <= i < bases.len() ==> {
                let b = #[trigger] bases[i];
                b.unit_rotations && b.base.config.valid() && b.base.hp <= 5000 && b.base.shield_hp
                    <= 5000
            },
    decreases bases.len() - from,
{
    if from < bases.len() {
        bases_that_stand(bases, from + 1);
        if base_refusal(bases, from) is None {
            assert forall|i: int| from <= i < bases.len() implies ({
                let b = #[trigger] bases[i];
                b.unit_rotations && b.base.config.valid() && b.base.hp <= 5000 && b.base.shield_hp
                    <= 5000
            }) by {}
        } else {
            assert(!({
                let b = bases[from as int];
                b.unit_rotations && b.base.config.valid() && b.base.hp <= 5000 && b.base.shield_hp
                    <= 5000
            }) || base_refusal(bases, from + 1) is Some);
        }
    }
}

/// Whether every recorded rune can be taken.
proof fn runes_that_stand(runes: Seq<RestoredRune>, from: nat)
    requires
        from <= runes.len(),
    ensures
        rune_refusal(runes, from) is None <==> forall|i: int|
            from <= i < runes.len() ==> one_rune_refusal(#[trigger] runes[i]) is None,
    decreases runes.len() - from,
{
    if from < runes.len() {
        runes_that_stand(runes, from + 1);
        if rune_refusal(runes, from) is None {
            assert forall|i: int| from <= i < runes.len() implies one_rune_refusal(
                #[trigger] runes[i],
            ) is None by {}
        }
    }
}

/// Whether every recorded tower can be taken.
proof fn recorded_towers_that_stand(outposts: Seq<RestoredOutpost>, from: nat)
    requires
        from <= outposts.len(),
    ensures
        tower_refusal(outposts, from) is None <==> forall|i: int|
            from <= i < outposts.len() ==> (#[trigger] outposts[i]).unit_rotation
                && outposts[i].outpost.wf(),
    decreases outposts.len() - from,
{
    if from < outposts.len() {
        recorded_towers_that_stand(outposts, from + 1);
        if tower_refusal(outposts, from) is None {
            assert forall|i: int| from <= i < outposts.len() implies (
            #[trigger] outposts[i]).unit_rotation && outposts[i].outpost.wf() by {}
        }
    }
}

/// A record is restored exactly where it carries the rules' state, its tick and
/// time agree, the floor is finite, and every base, rune and tower in it could
/// have been placed; HP and shield of a base are at most 5000.
pub proof fn which_records_are_restored(
    record: FieldRecord,
    floor_height_m: u64,
    tick_ns: u64,
)
    ensures
        restore_refusal(record, floor_height_m, tick_ns) is None <==> {
            &&& record.restore is Some
            &&& crate::binary::finite(floor_height_m)
            &&& record.tick * tick_ns == record.time_ns
            &&& forall|i: int|
                0 <= i < record.bases@.len() ==> {
                    let b = #[trigger] record.bases@[i];
                    b.unit_rotations && b.base.config.valid() && b.base.hp <= 5000
                        && b.base.shield_hp <= 5000
                }
            &&& forall|i: int|
                0 <= i < record.restore->0.runes@.len() ==> one_rune_refusal(
                    #[trigger] record.restore->0.runes@[i],
                ) is None
            &&& forall|i: int|
                0 <= i < record.restore->0.outposts@.len() ==> (
                #[trigger] record.restore->0.outposts@[i]).unit_rotation
                    && record.restore->0.outposts@[i].outpost.wf()
        },
{
    bases_that_stand(record.bases@, 0);
    if record.restore is Some {
        runes_that_stand(record.restore->0.runes@, 0);
        recorded_towers_that_stand(record.restore->0.outposts@, 0);
    }
}

/// A restored field has what its record has, piece by piece.
pub proof fn records_are_restored_piece_by_piece(record: FieldRecord, tick_ns: u64, i: int)
    requires
        record.restore is Some,
    ensures
        ({
            let field = recorded_field(record, tick_ns);
            let rules = record.restore->0;
            &&& field.tick == record.tick
            &&& field.tick_ns == tick_ns
            &&& field.hits_detected == record.hits_detected
            &&& field.bases.len() == record.bases@.len()
            &&& field.runes.len() == rules.runes@.len()
            &&& field.outposts.len() == rules.outposts@.len()
            &&& 0 <= i < record.bases@.len() ==> field.bases[i] == record.bases@[i].base
            &&& 0 <= i < rules.runes@.len() ==> field.runes[i] == rules.runes@[i].rune@
            &&& 0 <= i < rules.outposts@.len() ==> field.outposts[i] == rules.outposts@[i].outpost
            &&& field.referee is Some <==> rules.referee is Some
            &&& rules.referee is Some ==> field.referee->0 == rules.referee->0@
        }),
{
}

/// Two modules of a field are never the same target: bases come first with seven
/// plates each, then outposts with three faces, then runes with five blades.
pub proof fn targets_are_numbered_in_order(bases: u32, outposts: u32, base: int, plate: int)
    requires
        0 <= base,
        0 <= plate,
    ensures
        base < bases && plate < 7 ==> target_at(
            bases as int,
            outposts as int,
            7 * base + plate,
        ) == (ArmorTarget::Base { base: base as u32, plate: plate as u32 }),
        base < outposts && plate < 3 ==> target_at(
            bases as int,
            outposts as int,
            7 * bases + 3 * base + plate,
        ) == (ArmorTarget::Outpost { outpost: base as u32, face: plate as u32 }),
        base <= u32::MAX && plate < 5 ==> target_at(
            bases as int,
            outposts as int,
            7 * bases + 3 * outposts + 5 * base + plate,
        ) == (ArmorTarget::Rune { rune: base as u32, blade: plate as u32 }),
{
}

/// The standard rune hangs six metres ahead and 1.6 m up, a Small Rune on the
/// nominal orbit.
pub proof fn the_standard_rune(config: RuneConfig)
    requires
        config.is_standard(),
    ensures
        config.kind == RuneKind::Small,
        !config.cad_orbit,
        config.unit_rotation,
        config.hub_pose.translation_m@ == seq![
            0x4018_0000_0000_0000u64,
            0u64,
            0x3ff9_9999_9999_999au64,
        ],
        config.hub_pose.rotation_wxyz@ == seq![0x3ff0_0000_0000_0000u64, 0u64, 0u64, 0u64],
{
}

/// A step is over at its end and not before; it jumps there only with nothing in
/// motion and no referee, and moves bodies exactly where something is in motion.
pub proof fn how_a_step_goes_on(field: FieldModel, end: u64, idle: bool)
    ensures
        ({
            let next = field.next_part(end, idle);
            &&& next is Finished <==> end <= field.tick
            &&& next is Jump <==> field.tick < end && idle && field.referee is None
            &&& next is Tick ==> (next->physics <==> !idle)
        }),
{
}

/// A strike that the engine answered is scored by what the engine took, kept and
/// reported; then the next contact is taken. A collision or a sighting that was
/// answered is followed by the next of its kind.
pub proof fn answers_lead_on(
    field: FieldModel,
    run: RunModel,
    contact: super::scoring::Contact,
    reply: Result<(), crate::game::GameError>,
    applied: Applied,
    areas: Seq<ZoneArea>,
    game: GameView,
)
    ensures
        ({
            let event = super::run::Event::Answer { reply, applied };
            let heard = field.heard(reply, game);
            let (scored, outcome) = heard.scored(contact, applied, game);
            let next = field.going(run.at(Stage::Striking(contact)), event, areas, game);
            &&& outcome is Ok ==> {
                &&& next.demand == Demand::Report(outcome->Ok_0)
                &&& next.field.hits.len() > 0
                &&& next.field.hits.last() == outcome->Ok_0
                &&& next.field.bases == scored.bases && next.field.outposts == scored.outposts
                &&& next.run.stage is Touching
                &&& next.run.touches == run.touches
            }
            &&& outcome is Err ==> next.demand == Demand::Failed(outcome->Err_0)
                && next.run.stage is Over
            &&& field.going(run.at(Stage::Touching), super::run::Event::Seen, areas, game)
                == field.touching(run.at(Stage::Touching), areas, game)
        }),
{
}

/// Between ticks a step is finished exactly at its end; otherwise it asks
/// whether anything is in motion.
pub proof fn steps_finish_at_their_end(field: FieldModel, run: RunModel)
    ensures
        field.between(run).field == field,
        field.tick >= run.end ==> field.between(run).demand is Finished,
        field.tick < run.end ==> field.between(run).demand is Idle,
{
}

/// A snapshot shows the field at its own time: every base, rune and outpost, the
/// contacts and the counters, and the match where there is one.
pub proof fn snapshots_show_the_field(
    snapshot: super::layout::FieldSnapshot,
    field: super::Field,
    game: GameView,
    i: int,
)
    requires
        snapshot.shows(field, game),
        field.wf(),
    ensures
        snapshot.tick == field.tick,
        snapshot.time_ns == field.tick * field.tick_ns,
        snapshot.bases@ == field.bases@,
        snapshot.hits@ == field.hits@,
        snapshot.hits_detected == field.hits_detected,
        snapshot.runes@.len() == field.runes@.len(),
        snapshot.outposts@.len() == field.outposts@.len(),
        0 <= i < field.outposts@.len() ==> {
            let shown = snapshot.outposts@[i];
            let tower: Outpost = field.outposts@[i];
            &&& shown.time_ns == field.tick * field.tick_ns
            &&& shown.hp == tower.hp
            &&& shown.destroyed <==> tower.hp == 0
            &&& shown.stopped_ns == tower.stopped_ns
            &&& shown.homing == tower.homing
            &&& shown.starts_ns == tower.starts_ns
        },
        0 <= i < field.runes@.len() ==> {
            let shown = snapshot.runes@[i];
            let rune = field.runes@[i]@;
            &&& shown.kind == rune.kind()
            &&& shown.state == rune.state()
            &&& shown.time_ns == rune.time_ns()
            &&& shown.hub_pose == rune.hub
            &&& shown.completed_groups == rune.progress()
        },
        snapshot.referee is Some <==> field.referee is Some,
        snapshot.restore is Some,
{
    if 0 <= i < field.runes@.len() {
        assert(field@.runes[i] == field.runes@[i]@);
        assert(field@.runes[i].wf());
    }
}

/// A recorded rune is taken where it hangs from finite numbers, has an orbit,
/// and, as a Big Rune, a speed within its bounds that started by now.
pub proof fn which_runes_are_restored(recorded: RestoredRune)
    ensures
        one_rune_refusal(recorded) is None <==> {
            let rune = recorded.rune@;
            &&& recorded.unit_rotation
            &&& rune.hub.finite()
            &&& rune.target_radius_um > 0
            &&& match rune.activation {
                crate::rune::runner::Activation::Small(_) => true,
                crate::rune::runner::Activation::Big(a) => a.motion.wf() && a.epoch_ns
                    <= a.time_ns,
            }
        },
{
}

/// A tick takes contacts first, then collisions, then looks for robots on buff
/// points, and at last follows the engine's HP.
pub proof fn a_tick_keeps_its_order(
    field: FieldModel,
    run: RunModel,
    areas: Seq<ZoneArea>,
    game: GameView,
)
    ensures
        run.touches.len() == 0 ==> field.touching(run, areas, game) == field.colliding(
            run,
            areas,
            game,
        ),
        run.collisions.len() == 0 ==> field.colliding(run, areas, game) == field.sighting(
            RunModel { sightings: field.sightings(areas, run.bodies), ..run },
            game,
        ),
        run.sightings.len() == 0 ==> field.sighting(run, game) == field.mirrored(game).between(
            run,
        ),
{
}

} // verus!

//! What the commands of players and operators lead to.
use super::command::{
    stream_goes_on, Action, Command, Facts, Robot, SimulationModel, WeaponConfig, WeaponLimits,
};
use super::laws::cancelling_empties_the_queue;
use super::shots::{AimedShot, FireTiming, ShotRefusal};
use crate::binary::{at_most, finite, Pose};
use crate::input::{ChassisCommand, InputFrame};
use crate::referee::RefereeCommand;
use crate::target::{Caliber, Team};
use vstd::prelude::*;

verus! {

/// A gun fires with the pilot's own settings where there are any, else with
/// the host's, but at the caliber of the robot where the chassis is one.
pub proof fn a_gun_fires_what_its_pilot_set(sim: SimulationModel, chassis: u32)
    ensures
        ({
            let gun = sim.weapon_of(chassis);
            &&& sim.robots.dom().contains(chassis) ==> gun.caliber == sim.robots[chassis].caliber
            &&& !sim.robots.dom().contains(chassis) ==> gun.caliber == sim.weapon.caliber
            &&& sim.pilot_weapons.dom().contains(chassis) ==> gun == (WeaponConfig {
                caliber: gun.caliber,
                ..sim.pilot_weapons[chassis]
            })
            &&& !sim.pilot_weapons.dom().contains(chassis) ==> gun == (WeaponConfig {
                caliber: gun.caliber,
                ..sim.weapon
            })
            &&& sim.caliber_of(chassis) == gun.caliber
        }),
{
}

/// A gun has rested long enough: none of its shots was meant within so short a
/// time of now.
pub open spec fn rested(sim: SimulationModel, shooter: u32, now_ns: u64, interval_ns: u64) -> bool {
    sim.shots.logs.dom().contains(shooter) ==> forall|i: int|
        0 <= i < sim.shots.logs[shooter].fired_ns.len() ==> {
            let then = #[trigger] sim.shots.logs[shooter].fired_ns[i];
            now_ns - then >= interval_ns || then - now_ns >= interval_ns
        }
}

/// A command to fire is answered with a shot exactly where the chassis is known
/// and its gun has rested for the interval of the weapon it fires. The weapon
/// is the pilot's own at the caliber of the pilot's robot, and the host's
/// default only where there is neither. The simulation itself does not change.
pub proof fn firing_uses_the_shooters_weapon(
    sim: SimulationModel,
    shooter: u32,
    timing: Option<FireTiming>,
    facts: Facts,
)
    ensures
        ({
            let (after, action) = sim.applied(Command::Fire { shooter, timing }, facts);
            let own = if sim.pilot_weapons.dom().contains(shooter) {
                sim.pilot_weapons[shooter]
            } else {
                sim.weapon
            };
            let ready = rested(sim, shooter, facts.now_ns, own.interval_ns);
            &&& after == sim
            &&& action is Fire <==> ready && facts.revision is Some
            &&& !ready ==> action == Action::RefusedShot(ShotRefusal::CoolingDown)
            &&& ready && facts.revision is None ==> action == Action::RefusedShot(
                ShotRefusal::NoChassis,
            )
            &&& match action {
                Action::Fire { shooter: by, timing: stamp, weapon } => {
                    &&& by == shooter
                    &&& stamp == timing
                    &&& sim.robots.dom().contains(shooter) ==> weapon.caliber
                        == sim.robots[shooter].caliber
                    &&& !sim.robots.dom().contains(shooter) ==> weapon.caliber
                        == sim.weapon.caliber
                    &&& weapon.speed_m_s == own.speed_m_s
                    &&& weapon.interval_ns == own.interval_ns
                    &&& weapon.speed_variation_m_s == own.speed_variation_m_s
                    &&& weapon.spread_angle_rad == own.spread_angle_rad
                    &&& weapon.spread_distribution == own.spread_distribution
                },
                _ => true,
            }
        }),
{
    let own = if sim.pilot_weapons.dom().contains(shooter) {
        sim.pilot_weapons[shooter]
    } else {
        sim.weapon
    };
    let fired = sim.shots.log(shooter).fired_ns;
    if rested(sim, shooter, facts.now_ns, own.interval_ns) {
        assert forall|i: int| 0 <= i < fired.len() implies super::shots::apart(
            #[trigger] fired[i],
            facts.now_ns,
        ) >= own.interval_ns by {
            assert(sim.shots.logs[shooter].fired_ns[i] == fired[i]);
        }
    } else {
        let i = choose|i: int|
            0 <= i < sim.shots.logs[shooter].fired_ns.len() && !{
                let then = #[trigger] sim.shots.logs[shooter].fired_ns[i];
                facts.now_ns - then >= own.interval_ns || then - facts.now_ns >= own.interval_ns
            };
        assert(super::shots::apart(fired[i], facts.now_ns) < own.interval_ns);
    }
}

/// The same holds of a shot that was aimed ahead: whether the gun may fire for
/// its time is decided by that time, not by now.
pub proof fn guns_rest_between_shots(
    sim: SimulationModel,
    shooter: u32,
    intended_ns: u64,
    revision: Option<u64>,
)
    ensures
        ({
            let own = if sim.pilot_weapons.dom().contains(shooter) {
                sim.pilot_weapons[shooter]
            } else {
                sim.weapon
            };
            let ready = rested(sim, shooter, intended_ns, own.interval_ns);
            let refusal = sim.fire_refusal(shooter, intended_ns, revision);
            &&& refusal is None <==> ready && revision is Some
            &&& !ready ==> refusal == Some(ShotRefusal::CoolingDown)
        }),
{
    let facts = Facts {
        now_ns: intended_ns,
        revision,
        defeated: None,
        team: None,
        spawner: false,
        referee: false,
    };
    firing_uses_the_shooters_weapon(sim, shooter, None, facts);
}

/// Weapon settings are passed on for the chassis they are meant for, at its
/// robot's caliber, and only for one that is on the field. Nothing changes yet.
pub proof fn settings_go_to_their_gun(
    sim: SimulationModel,
    chassis: u32,
    weapon: WeaponConfig,
    facts: Facts,
)
    ensures
        ({
            let (after, action) = sim.applied(
                Command::ConfigureWeapon { chassis, weapon },
                facts,
            );
            &&& after == sim
            &&& facts.revision is None ==> action == Action::Refused("no chassis with that id")
            &&& facts.revision is Some ==> match action {
                Action::ConfigureWeapon { chassis: of, caliber, weapon: settings } => {
                    &&& of == chassis
                    &&& settings == weapon
                    &&& sim.robots.dom().contains(chassis) ==> caliber
                        == sim.robots[chassis].caliber
                    &&& !sim.robots.dom().contains(chassis) ==> caliber == sim.weapon.caliber
                },
                _ => false,
            }
        }),
{
}

/// A sample of controls reaches its chassis unchanged, exactly where it is of
/// the present epoch and the chassis is on the field.
pub proof fn samples_reach_their_chassis(
    sim: SimulationModel,
    chassis: u32,
    frame: InputFrame,
    facts: Facts,
)
    ensures
        ({
            let (after, action) = sim.applied(Command::PilotInput { chassis, frame }, facts);
            let current = frame.input_epoch == sim.pacing.input_epoch;
            &&& after == sim
            &&& action is Receive <==> current && facts.revision is Some
            &&& action is Receive ==> action == (Action::Receive {
                chassis,
                frame,
                revision: facts.revision->0,
            })
            &&& !current ==> action == Action::Refused("input epoch expired")
            &&& current && facts.revision is None ==> action == Action::Refused(
                "no chassis with that id",
            )
        }),
{
}

/// A chassis is put where the operator says, for its own team, exactly where
/// every number is finite, the chassis is on the field and the field has a
/// spawner.
pub proof fn placements_are_finite(
    sim: SimulationModel,
    chassis: u32,
    position_m: [u64; 3],
    yaw_deg: u64,
    facts: Facts,
)
    ensures
        ({
            let command = Command::PlaceChassis { chassis, position_m, yaw_deg };
            let (after, action) = sim.applied(command, facts);
            let sound = (forall|i: int| 0 <= i < 3 ==> finite(#[trigger] position_m[i]))
                && finite(yaw_deg);
            &&& after == sim
            &&& action is Place <==> sound && facts.team is Some && facts.spawner
            &&& action is Place ==> action == (Action::Place {
                chassis,
                team: facts.team->0,
                position_m,
                yaw_deg,
            })
            &&& !sound ==> action == Action::Refused("placement must be finite")
            &&& sound && facts.team is None ==> action == Action::Refused(
                "no chassis with that id",
            )
            &&& sound && facts.team is Some && !facts.spawner ==> action == Action::Refused(
                "this field offers no chassis",
            )
        }),
{
}

/// Controls, projectiles that nobody fired and operators' commands go to the
/// field as they are.
pub proof fn plain_commands_are_passed_on(
    sim: SimulationModel,
    chassis: u32,
    controls: ChassisCommand,
    muzzle: Pose,
    caliber: Caliber,
    speed_m_s: u64,
    order: RefereeCommand,
    facts: Facts,
)
    ensures
        sim.applied(Command::Chassis { chassis, command: controls }, facts) == (
            sim,
            Action::Drive { chassis, command: controls },
        ),
        sim.applied(Command::SpawnProjectile { muzzle, caliber, speed_m_s }, facts) == (
            sim,
            Action::Launch { muzzle, caliber, speed_m_s },
        ),
        sim.applied(Command::Referee(order), facts) == (sim, Action::Referee(order)),
        sim.applied(Command::ClearBots, facts) == (sim, Action::RemoveBots),
{
}

/// A training bot joins the team it is meant for where it spins no faster than
/// 20 rad/s either way, there are fewer than thirty-two, and the field has a
/// spawner.
pub proof fn bots_are_few_and_slow(
    sim: SimulationModel,
    team: Team,
    spin_rad_s: u64,
    facts: Facts,
)
    ensures
        ({
            let (after, action) = sim.applied(Command::SpawnBot { team, spin_rad_s }, facts);
            let slow = at_most(spin_rad_s, 0x4034_0000_0000_0000) && at_most(
                0xc034_0000_0000_0000,
                spin_rad_s,
            );
            &&& after == sim
            &&& action is SpawnBot <==> slow && sim.bots.len() < 32 && facts.spawner
            &&& action is SpawnBot ==> action == (Action::SpawnBot { team, spin_rad_s })
            &&& !slow ==> action == Action::Refused(
                "bot spin must be finite and within +/-20 rad/s",
            )
            &&& slow && sim.bots.len() >= 32 ==> action == Action::Refused(
                "at most 32 training bots",
            )
            &&& slow && sim.bots.len() < 32 && !facts.spawner ==> action == Action::Refused(
                "this field offers no chassis",
            )
        }),
{
}

/// Only training bots can be removed as such.
pub proof fn only_bots_are_removed(sim: SimulationModel, chassis: u32, facts: Facts)
    ensures
        sim.applied(Command::RemoveBot { chassis }, facts) == (
            sim,
            if sim.bots.contains(chassis) {
                Action::Remove { chassis }
            } else {
                Action::Refused("not a training bot")
            },
        ),
{
}

/// A pilot's robot is respawned where it lies and only once it is defeated; a
/// reset brings it back to its spawn whether it is or not. The referee is asked
/// to revive it where there is one.
pub proof fn robots_recover(sim: SimulationModel, chassis: u32, facts: Facts)
    ensures
        ({
            let known = sim.pilot_spawns.dom().contains(chassis);
            let (after_respawn, respawn) = sim.applied(Command::Respawn { chassis }, facts);
            let (after_reset, reset) = sim.applied(Command::ResetRobot { chassis }, facts);
            let down = facts.defeated is Some && facts.defeated->0;
            &&& after_respawn == sim
            &&& after_reset == sim
            &&& !known ==> respawn == Action::Refused("no pilot with that chassis") && reset
                == Action::Refused("no pilot with that chassis")
            &&& known ==> reset == (Action::Recover {
                chassis,
                revive: facts.referee,
                place: Some(sim.pilot_spawns[chassis]),
            })
            &&& known && down ==> respawn == (Action::Recover {
                chassis,
                revive: facts.referee,
                place: None,
            })
            &&& known && !down ==> respawn == Action::Refused("robot is not defeated")
        }),
{
}

/// A purchase is ten 17 mm rounds or one 42 mm round, for the robot that asks.
pub proof fn rounds_come_in_lots(
    sim: SimulationModel,
    chassis: u32,
    caliber: Caliber,
    facts: Facts,
)
    ensures
        ({
            let (after, action) = sim.applied(Command::BuyAmmo { chassis, caliber }, facts);
            &&& after == sim
            &&& match action {
                Action::Referee(
                    RefereeCommand::BuyAmmo { robot, caliber: bought, amount },
                ) => {
                    &&& robot == chassis
                    &&& bought == caliber
                    &&& caliber == Caliber::Mm17 ==> amount == 10
                    &&& caliber == Caliber::Mm42 ==> amount == 1
                },
                _ => false,
            }
        }),
{
}

/// An operator steps as many ticks as asked, between one and sixty thousand.
pub proof fn steps_are_bounded(sim: SimulationModel, ticks: u64, facts: Facts)
    ensures
        sim.applied(Command::Step { ticks }, facts) == (
            sim,
            if 1 <= ticks <= 60_000 {
                Action::Step { ticks }
            } else {
                Action::Refused("step between 1 and 60000 ticks")
            },
        ),
{
}

/// A pause that begins or ends opens a new epoch, drops host time that is not
/// yet a tick and every queued shot, and neutralises the controls; one that
/// changes nothing does nothing. No gun, spawn or bot is lost.
pub proof fn a_pause_starts_afresh(sim: SimulationModel, paused: bool, facts: Facts)
    requires
        sim.pacing.input_epoch < u64::MAX,
    ensures
        ({
            let (after, action) = sim.applied(Command::Pause { paused }, facts);
            &&& paused == sim.pacing.paused ==> after == sim && action == Action::Done
            &&& paused != sim.pacing.paused ==> {
                &&& action == Action::Neutralise
                &&& after.pacing.paused == paused
                &&& after.pacing.input_epoch == sim.pacing.input_epoch + 1
                &&& after.pacing.carry_ns == 0
                &&& after.pacing.tick_ns == sim.pacing.tick_ns
                &&& after.shots.pending.len() == 0
                &&& after.bots == sim.bots
                &&& after.pilot_spawns == sim.pilot_spawns
                &&& after.robots == sim.robots
                &&& after.pilot_weapons == sim.pilot_weapons
                &&& after.weapon == sim.weapon
                &&& after.weapon_limits == sim.weapon_limits
            }
        }),
{
    cancelling_empties_the_queue(sim.shots, ShotRefusal::Paused, facts.now_ns);
}

/// An aimed shot touches the shot schedule and nothing else, and reaches the
/// field as it came.
pub proof fn aimed_shots_touch_the_schedule_only(
    sim: SimulationModel,
    shot: AimedShot,
    facts: Facts,
)
    ensures
        ({
            let (after, action) = sim.applied(Command::FireAimed(shot), facts);
            &&& after == (SimulationModel { shots: after.shots, ..sim })
            &&& action is FireAimed ==> action == Action::FireAimed(shot)
            &&& action is FireAimed || action is Done || action is RefusedShot
                || action is Refused
        }),
{
}

/// A chassis that is placed has its spawn and, as a robot, its robot; one that
/// leaves takes its spawn, robot, weapon and place among the bots along. No
/// other chassis notices.
pub proof fn chassis_come_and_go(
    sim: SimulationModel,
    chassis: u32,
    spawn: Pose,
    robot: Option<Robot>,
    now_ns: u64,
    other: u32,
)
    requires
        other != chassis,
    ensures
        ({
            let with = sim.placed(chassis, spawn, robot);
            let gone = sim.without(chassis, now_ns);
            &&& with.pilot_spawns.dom().contains(chassis)
            &&& with.pilot_spawns[chassis] == spawn
            &&& robot is Some ==> with.robots.dom().contains(chassis) && with.robots[chassis]
                == robot->0
            &&& robot is None ==> with.robots == sim.robots
            &&& !gone.pilot_spawns.dom().contains(chassis)
            &&& !gone.robots.dom().contains(chassis)
            &&& !gone.pilot_weapons.dom().contains(chassis)
            &&& !gone.bots.contains(chassis)
            &&& !gone.shots.logs.dom().contains(chassis)
            &&& gone.pacing == sim.pacing && gone.weapon == sim.weapon && gone.weapon_limits
                == sim.weapon_limits
            &&& gone.bots.contains(other) == sim.bots.contains(other)
            &&& gone.pilot_spawns.dom().contains(other) == sim.pilot_spawns.dom().contains(other)
            &&& gone.pilot_spawns[other] == sim.pilot_spawns[other]
            &&& gone.robots.dom().contains(other) == sim.robots.dom().contains(other)
            &&& gone.robots[other] == sim.robots[other]
            &&& gone.weapon_of(other) == sim.weapon_of(other)
            &&& with.weapon_of(other) == sim.weapon_of(other)
        }),
{
}

/// An input stream ends with the placement it belongs to, with its robot's
/// defeat and with its chassis.
pub proof fn streams_end_with_their_robot(belongs: bool, defeated: Option<bool>)
    ensures
        stream_goes_on(true, Some(false)),
        !belongs ==> !stream_goes_on(belongs, defeated),
        defeated is None ==> !stream_goes_on(belongs, defeated),
        defeated == Some(true) ==> !stream_goes_on(belongs, defeated),
{
}

/// Host settings that hold are taken, with caps at their own speed and interval,
/// and caps that admit the host's weapon are taken; what does not hold changes
/// nothing.
pub proof fn hosts_arm_and_limit(
    sim: SimulationModel,
    weapon: WeaponConfig,
    limits: WeaponLimits,
    checked: Result<WeaponConfig, &'static str>,
)
    ensures
        ({
            let (armed, a) = sim.armed(weapon, checked);
            let (limited, l) = sim.limited(limits, checked);
            &&& checked is Ok <==> a is Ok
            &&& checked is Ok <==> l is Ok
            &&& checked is Err ==> armed == sim && limited == sim && a->Err_0 == checked->Err_0
                && l->Err_0 == checked->Err_0
            &&& checked is Ok ==> {
                &&& armed.weapon == checked->Ok_0
                &&& armed.weapon_limits.max_speed_m_s == weapon.speed_m_s
                &&& armed.weapon_limits.min_interval_ns == weapon.interval_ns
                &&& armed.pilot_weapons == sim.pilot_weapons && armed.robots == sim.robots
                &&& limited.weapon_limits == limits && limited.weapon == sim.weapon
                &&& limited.pilot_weapons == sim.pilot_weapons
            }
        }),
{
}

/// Ticks are stepped at once only where no input stream runs and no shot waits.
pub proof fn quiet_ticks_pass_at_once(sim: SimulationModel, streams: bool)
    ensures
        sim.quiet(streams) ==> !streams,
        sim.shots.pending.len() > 0 ==> !sim.quiet(streams),
        !streams && sim.shots.pending.len() == 0 ==> sim.quiet(streams),
{
}

/// An aimed shot goes to the field at once exactly where it is new, may fire in
/// this epoch as its shooter stands now, and its time has come. One that waits is
/// acknowledged, and one that may not fire is refused for that reason.
pub proof fn aimed_shots_fire_when_they_may(
    sim: SimulationModel,
    shot: AimedShot,
    facts: Facts,
)
    ensures
        ({
            let action = sim.applied(Command::FireAimed(shot), facts).1;
            let known = super::shots::result_in(
                sim.shots.log(shot.shooter).results,
                shot.shot_id,
            );
            let waits = super::shots::pending_shot(
                sim.shots.pending,
                shot.shooter,
                shot.shot_id,
            );
            let refusal = sim.shots.shot_refusal(
                shot,
                super::shots::ShooterFacts {
                    revision: facts.revision,
                    defeated: facts.defeated,
                },
                sim.pacing.paused,
                sim.pacing.input_epoch,
                facts.now_ns,
            );
            let fresh = known is None && waits is None;
            let due = shot.input.sampled_time_ns <= facts.now_ns;
            &&& action is FireAimed <==> fresh && refusal is None && due
            &&& fresh && refusal is Some ==> action == Action::RefusedShot(refusal->0)
            &&& known is None && waits is Some && waits->0.same(shot) ==> action == Action::Done
            &&& known is None && waits is Some && !waits->0.same(shot) ==> action
                == Action::Refused("shot id changed contents")
            &&& fresh && refusal is None && !due && super::shots::count_of(
                sim.shots.pending,
                shot.shooter,
            ) < 32 ==> action == Action::Done
            &&& fresh && refusal is None && !due && super::shots::count_of(
                sim.shots.pending,
                shot.shooter,
            ) >= 32 ==> action == Action::RefusedShot(ShotRefusal::ScheduleFull)
        }),
{
}

} // verus!

//! The referee's tables: defense, rings, Big Rune buffs and launch checks.
use super::{BuffState, RuneStage};
use crate::game::{GamePhase, RobotKind, RobotState};
use crate::target::Caliber;
use vstd::prelude::*;

verus! {

/// The ring that lies so many whole bands from the centre.
pub open spec fn ring_at(bands: u64) -> u32 {
    if bands < 9 {
        (10 - bands) as u32
    } else {
        1
    }
}

/// The centre is ring 10, each band outward is one ring less, and none is below
/// ring 1.
pub proof fn rings_drop_band_by_band(bands: u64, further: u64)
    requires
        bands <= further,
    ensures
        ring_at(0) == 10,
        1 <= ring_at(further) <= ring_at(bands) <= 10,
        further <= 9 ==> ring_at(bands) - ring_at(further) == further - bands,
        9 <= bands ==> ring_at(bands) == 1,
{
}

/// Ring struck, from the whole 15 mm bands between the target centre and the
/// strike. Ring 10 is the centre; each band outward drops one ring, and the
/// outermost is ring 1.
pub fn ring_of(bands: u64) -> (r: u32)
    ensures
        r == ring_at(bands),
{
    if bands < 9 {
        10 - bands as u32
    } else {
        1
    }
}

/// A defense share, at most all of it.
pub open spec fn share(defense_pct: u32) -> int {
    if defense_pct > 100 {
        100
    } else {
        defense_pct as int
    }
}

/// Damage after a defense buff, rounded to the nearest integer: the half
/// rounds up.
pub open spec fn kept_damage(damage: u32, defense_pct: u32) -> int {
    (damage * (100 - share(defense_pct)) + 50) / 100
}

/// Damage after a defense buff, rounded to the nearest integer.
pub fn defended(damage: u32, defense_pct: u32) -> (r: u32)
    ensures
        r == kept_damage(damage, defense_pct),
{
    let kept_pct: u64 = if defense_pct > 100 {
        0
    } else {
        100 - defense_pct as u64
    };
    proof {
        let d = damage as int;
        let k = kept_pct as int;
        assert(0 <= d * k <= 0xffff_ffff * 100) by (nonlinear_arith)
            requires
                0 <= d <= 0xffff_ffff,
                0 <= k <= 100,
        ;
    }
    let kept: u64 = damage as u64 * kept_pct;
    ((kept + 50) / 100) as u32
}

/// A stronger defense never lets more through, none lets all through, and a
/// full one nothing.
pub proof fn defense_only_helps(damage: u32, weaker: u32, stronger: u32)
    requires
        weaker <= stronger,
    ensures
        0 <= kept_damage(damage, stronger) <= kept_damage(damage, weaker) <= damage,
        kept_damage(damage, 0) == damage,
        stronger >= 100 ==> kept_damage(damage, stronger) == 0,
{
    let a = 100 - share(weaker);
    let b = 100 - share(stronger);
    assert(0 <= damage * b <= damage * a <= damage * 100) by (nonlinear_arith)
        requires
            0 <= b <= a <= 100,
            0 <= damage,
    ;
    if stronger >= 100 {
        assert(damage * b == 0) by (nonlinear_arith)
            requires
                b == 0,
        ;
    }
}

/// Attack, defense and cooling of a Big Rune buff for the average of
/// `rings` recorded rings that sum to `ring_sum`.
pub open spec fn ring_effects(ring_sum: u64, rings: u32) -> (u32, u32, u32) {
    if ring_sum <= 3 * rings {
        (150, 25, 1)
    } else if ring_sum <= 7 * rings {
        (150, 25, 2)
    } else if ring_sum <= 8 * rings {
        (200, 25, 2)
    } else if ring_sum <= 9 * rings {
        (200, 25, 3)
    } else {
        (300, 50, 5)
    }
}

/// How long a Big Rune buff lasts for the number of lit arms.
pub open spec fn arms_duration_ns(arms: u32) -> u64 {
    if arms <= 5 {
        30_000_000_000
    } else if arms == 6 {
        35_000_000_000
    } else if arms == 7 {
        40_000_000_000
    } else if arms == 8 {
        45_000_000_000
    } else if arms == 9 {
        50_000_000_000
    } else {
        60_000_000_000
    }
}

/// The Big Rune buff for an attempt, granted at round time `match_time_ns`.
pub open spec fn big_buff(ring_sum: u64, rings: u32, arms: u32, match_time_ns: u64) -> BuffState {
    let effects = ring_effects(ring_sum, rings);
    BuffState {
        source: RuneStage::Big,
        attack_pct: effects.0,
        defense_pct: effects.1,
        cooling_multiplier: effects.2,
        started_ns: match_time_ns,
        expires_ns: match_time_ns.saturating_add(arms_duration_ns(arms)),
    }
}

/// Big Rune buff from the average ring and the lit arm count, granted at round
/// clock time `match_time_ns`. The average is `ring_sum` over `rings`, and
/// zero without any ring.
pub fn big_rune_buff(ring_sum: u64, rings: u32, arms: u32, match_time_ns: u64) -> (r: BuffState)
    ensures
        r == big_buff(ring_sum, rings, arms, match_time_ns),
{
    let n: u64 = rings as u64;
    let (attack_pct, defense_pct, cooling_multiplier): (u32, u32, u32) = if ring_sum <= 3 * n {
        (150, 25, 1)
    } else if ring_sum <= 7 * n {
        (150, 25, 2)
    } else if ring_sum <= 8 * n {
        (200, 25, 2)
    } else if ring_sum <= 9 * n {
        (200, 25, 3)
    } else {
        (300, 50, 5)
    };
    let duration_ns: u64 = if arms <= 5 {
        30_000_000_000
    } else if arms == 6 {
        35_000_000_000
    } else if arms == 7 {
        40_000_000_000
    } else if arms == 8 {
        45_000_000_000
    } else if arms == 9 {
        50_000_000_000
    } else {
        60_000_000_000
    };
    BuffState {
        source: RuneStage::Big,
        defense_pct,
        attack_pct,
        cooling_multiplier,
        started_ns: match_time_ns,
        expires_ns: match_time_ns.saturating_add(duration_ns),
    }
}

/// Whether a robot class launches a caliber.
pub open spec fn shoots(kind: RobotKind, caliber: Caliber) -> bool {
    match kind {
        RobotKind::Hero => caliber == Caliber::Mm42,
        RobotKind::Engineer => false,
        RobotKind::Infantry | RobotKind::Sentry | RobotKind::Drone => caliber == Caliber::Mm17,
    }
}

/// The first rule that speaks against a launch the engine refuses.
pub open spec fn launch_refusal(
    robot: RobotState,
    caliber: Caliber,
    phase: GamePhase,
    round_ticks: u64,
) -> &'static str {
    if !robot.alive {
        "the robot is defeated"
    } else if !shoots(robot.kind, caliber) {
        "the robot has no launcher for that caliber"
    } else if phase != GamePhase::Idle && phase != GamePhase::Running {
        "the round is not running"
    } else if robot.weakened {
        "the robot is weakened"
    } else if robot.overheated || robot.heat_locked_for_round {
        "the barrel is overheated"
    } else if robot.speed_locked_for_round || robot.speed_locked_until_ticks > round_ticks {
        "launching is locked"
    } else if robot.irregularly_disconnected {
        "the robot is disconnected"
    } else if robot.kind == RobotKind::Drone && !robot.air_support_active {
        "the drone has no air support"
    } else {
        "no projectile allowance"
    }
}

/// Refuse a launch the rules block, with the reason. `robot` is the shooter's
/// record and `can_launch` the engine's answer for it; a shot without a known
/// shooter is always allowed.
pub fn check_launch(
    robot: Option<RobotState>,
    can_launch: bool,
    caliber: Caliber,
    phase: GamePhase,
    round_ticks: u64,
) -> (r: Result<(), &'static str>)
    ensures
        r == (match robot {
            Some(state) if !can_launch => Err(launch_refusal(state, caliber, phase, round_ticks)),
            _ => Ok(()),
        }),
{
    let state = match robot {
        Some(state) => state,
        None => {
            return Ok(());
        },
    };
    if can_launch {
        return Ok(());
    }
    let launcher = match state.kind {
        RobotKind::Hero => caliber == Caliber::Mm42,
        RobotKind::Engineer => false,
        RobotKind::Infantry | RobotKind::Sentry | RobotKind::Drone => caliber == Caliber::Mm17,
    };
    Err(
        if !state.alive {
            "the robot is defeated"
        } else if !launcher {
            "the robot has no launcher for that caliber"
        } else if phase != GamePhase::Idle && phase != GamePhase::Running {
            "the round is not running"
        } else if state.weakened {
            "the robot is weakened"
        } else if state.overheated || state.heat_locked_for_round {
            "the barrel is overheated"
        } else if state.speed_locked_for_round || state.speed_locked_until_ticks > round_ticks {
            "launching is locked"
        } else if state.irregularly_disconnected {
            "the robot is disconnected"
        } else if state.kind == RobotKind::Drone && !state.air_support_active {
            "the drone has no air support"
        } else {
            "no projectile allowance"
        },
    )
}

/// What gets through is the unshielded share of the damage to the nearest whole
/// point, and a half counts as a whole.
pub proof fn damage_is_rounded_to_the_nearest(damage: u32, defense_pct: u32)
    requires
        defense_pct <= 100,
    ensures
        ({
            let through = 100 * kept_damage(damage, defense_pct);
            let exact = damage * (100 - defense_pct);
            -50 < through - exact <= 50
        }),
{
}

/// What a Big Rune attempt earns by its average ring: up to 3 the least, above 3
/// twice the cooling, above 7 an attack of 200 %, above 8 three times the
/// cooling, and above 9 the most. Nothing but the average counts.
pub proof fn the_average_ring_earns_the_buff(
    ring_sum: u64,
    rings: u32,
    arms: u32,
    match_time_ns: u64,
)
    requires
        rings > 0,
    ensures
        ({
            let buff = big_buff(ring_sum, rings, arms, match_time_ns);
            &&& buff.source == RuneStage::Big
            &&& buff.attack_pct == 150 <==> ring_sum <= 7 * rings
            &&& buff.attack_pct == 200 <==> 7 * rings < ring_sum <= 9 * rings
            &&& buff.attack_pct == 300 <==> 9 * rings < ring_sum
            &&& buff.defense_pct == 25 <==> ring_sum <= 9 * rings
            &&& buff.defense_pct == 50 <==> 9 * rings < ring_sum
            &&& buff.cooling_multiplier == 1 <==> ring_sum <= 3 * rings
            &&& buff.cooling_multiplier == 2 <==> 3 * rings < ring_sum <= 8 * rings
            &&& buff.cooling_multiplier == 3 <==> 8 * rings < ring_sum <= 9 * rings
            &&& buff.cooling_multiplier == 5 <==> 9 * rings < ring_sum
        }),
{
}

/// Better rings never earn less: neither attack, defense nor cooling falls as
/// the rings struck sum to more.
pub proof fn better_rings_never_earn_less(
    ring_sum: u64,
    better: u64,
    rings: u32,
    arms: u32,
    match_time_ns: u64,
)
    requires
        ring_sum <= better,
    ensures
        ({
            let less = big_buff(ring_sum, rings, arms, match_time_ns);
            let more = big_buff(better, rings, arms, match_time_ns);
            &&& less.attack_pct <= more.attack_pct
            &&& less.defense_pct <= more.defense_pct
            &&& less.cooling_multiplier <= more.cooling_multiplier
            &&& less.started_ns == more.started_ns
            &&& less.expires_ns == more.expires_ns
        }),
{
}

/// An attempt without a recorded ring counts as an average of zero; rings that
/// sum to nothing earn the least.
pub proof fn no_ring_earns_the_least(rings: u32, arms: u32, match_time_ns: u64)
    ensures
        ({
            let buff = big_buff(0, rings, arms, match_time_ns);
            buff.attack_pct == 150 && buff.defense_pct == 25 && buff.cooling_multiplier == 1
        }),
{
}

/// Lit arms buy time: five or fewer half a minute, each of the sixth to the
/// ninth five seconds more, and all ten a whole minute. It runs from the moment
/// the buff is granted.
pub proof fn lit_arms_buy_time(
    ring_sum: u64,
    rings: u32,
    arms: u32,
    more: u32,
    match_time_ns: u64,
)
    requires
        arms <= more,
        match_time_ns <= u64::MAX - 60_000_000_000,
    ensures
        ({
            let buff = big_buff(ring_sum, rings, arms, match_time_ns);
            let longer = big_buff(ring_sum, rings, more, match_time_ns);
            let lasts = buff.expires_ns - buff.started_ns;
            &&& buff.started_ns == match_time_ns
            &&& arms <= 5 ==> lasts == 30_000_000_000
            &&& 5 <= arms <= 9 ==> lasts == 30_000_000_000 + (arms - 5) * 5_000_000_000
            &&& arms >= 10 ==> lasts == 60_000_000_000
            &&& buff.expires_ns <= longer.expires_ns
        }),
{
}

/// Heroes launch 42 mm, engineers nothing, everyone else 17 mm.
pub proof fn every_launcher_has_one_caliber(kind: RobotKind, caliber: Caliber)
    ensures
        kind == RobotKind::Engineer ==> !shoots(kind, caliber),
        kind == RobotKind::Hero ==> (shoots(kind, caliber) <==> caliber == Caliber::Mm42),
        kind != RobotKind::Engineer && kind != RobotKind::Hero ==> (shoots(kind, caliber)
            <==> caliber == Caliber::Mm17),
{
}

/// The reason given for a blocked launch is the gravest that holds, and holds:
/// a robot free of all others lacks ammunition.
pub proof fn a_blocked_launch_is_told_why(
    robot: RobotState,
    caliber: Caliber,
    phase: GamePhase,
    round_ticks: u64,
)
    ensures
        ({
            let reason = launch_refusal(robot, caliber, phase, round_ticks);
            let armed = if caliber == Caliber::Mm42 {
                robot.kind == RobotKind::Hero
            } else {
                robot.kind == RobotKind::Infantry || robot.kind == RobotKind::Sentry || robot.kind
                    == RobotKind::Drone
            };
            let open = phase == GamePhase::Idle || phase == GamePhase::Running;
            let hot = robot.overheated || robot.heat_locked_for_round;
            let locked = robot.speed_locked_for_round || round_ticks
                < robot.speed_locked_until_ticks;
            let gone = robot.irregularly_disconnected;
            let grounded = robot.kind == RobotKind::Drone && !robot.air_support_active;
            &&& !robot.alive ==> reason == "the robot is defeated"
            &&& robot.alive && !armed ==> reason == "the robot has no launcher for that caliber"
            &&& robot.alive && armed && !open ==> reason == "the round is not running"
            &&& robot.alive && armed && open && robot.weakened ==> reason
                == "the robot is weakened"
            &&& robot.alive && armed && open && !robot.weakened && hot ==> reason
                == "the barrel is overheated"
            &&& robot.alive && armed && open && !robot.weakened && !hot && locked ==> reason
                == "launching is locked"
            &&& robot.alive && armed && open && !robot.weakened && !hot && !locked && gone
                ==> reason == "the robot is disconnected"
            &&& robot.alive && armed && open && !robot.weakened && !hot && !locked && !gone
                && grounded ==> reason == "the drone has no air support"
            &&& robot.alive && armed && open && !robot.weakened && !hot && !locked && !gone
                && !grounded ==> reason == "no projectile allowance"
        }),
{
}

} // verus!

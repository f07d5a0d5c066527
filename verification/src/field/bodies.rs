//! Where the rules and the bodies on the field meet: launches, buff points and
//! defeats.
use super::{Field, FieldError, FieldModel};
use crate::binary::{at_most, finite, is_at_most, is_finite};
use crate::game::{robot_in, GameCall, GameView, RobotState, Zone};
use crate::referee::desk::robot_frame;
use crate::referee::machine::Referee;
use crate::referee::model::{Pending, Progress};
use crate::referee::rules::{check_launch, launch_refusal};
use crate::referee::MatchPhase;
use crate::target::Caliber;
use crate::zones::ZoneArea;
use vstd::prelude::*;

verus! {

/// Two corners of a box, each coordinate as its binary64 pattern, span an
/// area: all are finite, and the first corner lies below the second in x and
/// y.
pub open spec fn bounds_hold(bounds_m: [[u64; 3]; 2]) -> bool {
    &&& forall|i: int|
        0 <= i < 3 ==> finite(#[trigger] bounds_m[0][i]) && finite(bounds_m[1][i])
    &&& !at_most(bounds_m[1][0], bounds_m[0][0])
    &&& !at_most(bounds_m[1][1], bounds_m[0][1])
}

/// Check the bounds beyond which projectiles are absorbed.
pub fn check_projectile_bounds(bounds_m: [[u64; 3]; 2]) -> (r: Result<(), FieldError>)
    ensures
        r == (if bounds_hold(bounds_m) {
            Ok(())
        } else {
            Err(FieldError::Mesh("invalid projectile bounds"))
        }),
{
    let lower: [u64; 3] = bounds_m[0];
    let upper: [u64; 3] = bounds_m[1];
    let all = is_finite(lower[0]) && is_finite(lower[1]) && is_finite(lower[2]) && is_finite(
        upper[0],
    ) && is_finite(upper[1]) && is_finite(upper[2]);
    proof {
        if !all {
            assert(!(finite(bounds_m[0][0]) && finite(bounds_m[1][0])) || !(finite(bounds_m[0][1])
                && finite(bounds_m[1][1])) || !(finite(bounds_m[0][2]) && finite(bounds_m[1][2])));
        }
    }
    if !all || is_at_most(upper[0], lower[0]) || is_at_most(upper[1], lower[1]) {
        return Err(FieldError::Mesh("invalid projectile bounds"));
    }
    Ok(())
}

/// Whether a robot stands on a buff point.
#[derive(Clone, Copy, Debug, PartialEq, Eq, Structural)]
pub struct ZoneSighting {
    /// The robot.
    pub robot: u32,
    /// The buff point.
    pub zone: Zone,
    /// It stands on it.
    pub detected: bool,
}

/// A body's place: its robot and its centre.
#[derive(Clone, Debug, PartialEq, Eq)]
pub struct BodyPlace {
    /// The robot.
    pub robot: u32,
    /// Its body centre, each coordinate as its binary64 pattern.
    pub position_m: [u64; 3],
    /// For every buff point, where each edge of its outline meets the height of
    /// the centre.
    pub meets_m: Vec<Vec<u64>>,
}

/// Where the edges of the `a`-th area meet the height of a body's centre.
pub open spec fn meets_of(body: BodyPlace, a: int) -> Seq<u64> {
    if 0 <= a < body.meets_m@.len() {
        body.meets_m@[a]@
    } else {
        Seq::empty()
    }
}

/// What one body's place says of one area.
pub open spec fn sighting(body: BodyPlace, area: ZoneArea, meets: Seq<u64>) -> ZoneSighting {
    ZoneSighting {
        robot: body.robot,
        zone: area@.zone,
        detected: area@.holds(
            body.position_m[0],
            body.position_m[1],
            body.position_m[2],
            meets,
        ),
    }
}

/// What one body's place says of every area.
pub open spec fn seen_by(areas: Seq<ZoneArea>, body: BodyPlace) -> Seq<ZoneSighting> {
    Seq::new(areas.len(), |a: int| sighting(body, areas[a], meets_of(body, a)))
}

/// What the places of bodies say of every area, body by body.
pub open spec fn seen(areas: Seq<ZoneArea>, bodies: Seq<BodyPlace>) -> Seq<ZoneSighting>
    decreases bodies.len(),
{
    if bodies.len() == 0 {
        Seq::empty()
    } else {
        seen(areas, bodies.drop_last()) + seen_by(areas, bodies.last())
    }
}

impl FieldModel {
    /// Whether the rules let a shooter launch, where the engine does not.
    pub open spec fn launch_check(
        self,
        shooter: Option<u32>,
        can_launch: bool,
        caliber: Caliber,
        game: GameView,
    ) -> Result<(), FieldError> {
        match shooter {
            Some(id) if self.referee is Some && !can_launch => match robot_in(game.robots@, id) {
                Some(robot) => Err(
                    FieldError::Referee(
                        launch_refusal(robot, caliber, game.phase, game.round_ticks),
                    ),
                ),
                None => Ok(()),
            },
            _ => Ok(()),
        }
    }

    /// What the buff points see of the bodies: only in a running round.
    pub open spec fn sightings(self, areas: Seq<ZoneArea>, bodies: Seq<BodyPlace>) -> Seq<
        ZoneSighting,
    > {
        if self.referee is Some && self.referee->0.state.phase == MatchPhase::Running {
            seen(areas, bodies)
        } else {
            Seq::empty()
        }
    }
}

/// Whether a robot counts as defeated for the physics.
#[derive(Clone, Copy, Debug, PartialEq, Eq, Structural)]
pub struct Defeat {
    /// The robot.
    pub robot: u32,
    /// It has no HP left.
    pub defeated: bool,
}

/// What a robot's record says of its defeat.
pub open spec fn defeat_of(robot: RobotState) -> Defeat {
    Defeat { robot: robot.id, defeated: robot.ejected || robot.hp == 0 }
}

impl Field {
    /// Refuse a launch that the rules block. `can_launch` is the engine's
    /// answer for the shooter; without a referee every launch is allowed.
    pub fn check_fire(
        &self,
        shooter: Option<u32>,
        can_launch: bool,
        caliber: Caliber,
        game: &GameView,
    ) -> (r: Result<(), FieldError>)
        ensures
            r == self@.launch_check(shooter, can_launch, caliber, *game),
    {
        if self.referee.is_none() {
            return Ok(());
        }
        let robot = match shooter {
            Some(id) => game.robot(id),
            None => None,
        };
        match check_launch(robot, can_launch, caliber, game.phase, game.round_ticks) {
            Ok(()) => Ok(()),
            Err(reason) => Err(FieldError::Referee(reason)),
        }
    }

    /// What the buff points see of the bodies on the field, body by body: only
    /// in a running round.
    pub fn observe_zones(&self, areas: &Vec<ZoneArea>, bodies: &Vec<BodyPlace>) -> (r: Vec<
        ZoneSighting,
    >)
        ensures
            r@ == self@.sightings(areas@, bodies@),
    {
        let mut out: Vec<ZoneSighting> = Vec::new();
        let running = match &self.referee {
            Some(referee) => referee.phase() == MatchPhase::Running,
            None => false,
        };
        if !running {
            proof {
                assert(out@ =~= Seq::empty());
            }
            return out;
        }
        let mut b: usize = 0;
        proof {
            assert(out@ =~= seen(areas@, bodies@.subrange(0, 0)));
        }
        while b < bodies.len()
            invariant
                b <= bodies@.len(),
                out@ == seen(areas@, bodies@.subrange(0, b as int)),
            decreases bodies@.len() - b,
        {
            let body = &bodies[b];
            let ghost before = out@;
            let mut k: usize = 0;
            proof {
                assert(out@ =~= before + seen_by(areas@, *body).subrange(0, 0));
            }
            while k < areas.len()
                invariant
                    k <= areas@.len(),
                    out@ == before + seen_by(areas@, *body).subrange(0, k as int),
                decreases areas@.len() - k,
            {
                let area = &areas[k];
                let detected = if k < body.meets_m.len() {
                    area.contains(body.position_m, &body.meets_m[k])
                } else {
                    let none: Vec<u64> = Vec::new();
                    proof {
                        assert(none@ =~= meets_of(*body, k as int));
                    }
                    area.contains(body.position_m, &none)
                };
                out.push(ZoneSighting { robot: body.robot, zone: area.zone(), detected });
                k += 1;
                proof {
                    assert(out@ =~= before + seen_by(areas@, *body).subrange(0, k as int));
                }
            }
            proof {
                let longer = bodies@.subrange(0, b + 1);
                assert(longer.drop_last() =~= bodies@.subrange(0, b as int));
                assert(longer.last() == *body);
                assert(out@ =~= before + seen_by(areas@, *body));
            }
            b += 1;
        }
        proof {
            assert(bodies@.subrange(0, b as int) =~= bodies@);
        }
        out
    }

    /// Which robots the physics must hold still, in join order; none without a
    /// referee.
    pub fn sync_defeats(&self, game: &GameView) -> (r: Vec<Defeat>)
        ensures
            self@.referee is None ==> r@.len() == 0,
            self@.referee is Some ==> r@.len() == game.robots@.len() && forall|i: int|
                0 <= i < r@.len() ==> #[trigger] r@[i] == defeat_of(game.robots@[i]),
    {
        let mut out: Vec<Defeat> = Vec::new();
        if self.referee.is_none() {
            return out;
        }
        let robots = Referee::robots(game);
        let mut i: usize = 0;
        while i < robots.len()
            invariant
                i <= robots@.len(),
                robots@ == game.robots@.map_values(
                    |robot: RobotState| robot_frame(robot),
                ),
                out@.len() == i,
                forall|k: int| 0 <= k < i ==> #[trigger] out@[k] == defeat_of(game.robots@[k]),
            decreases robots@.len() - i,
        {
            out.push(Defeat { robot: robots[i].id, defeated: !robots[i].alive() });
            i += 1;
        }
        out
    }

    /// Account a launch that was made. The referee may need the engine.
    pub fn record_fire(&mut self, shooter: Option<u32>, caliber: Caliber, game: &GameView) -> (r:
        Progress)
        requires
            old(self).wf(),
            old(self)@.referee is Some ==> old(self)@.referee->0.state.pending
                == Pending::Nothing,
        ensures
            match shooter {
                Some(robot) if old(self)@.referee is Some && robot_in(
                    game.robots@,
                    robot,
                ) is Some => r == Progress::Call(
                    GameCall::Launch { robot, caliber },
                ) && final(self)@ == (FieldModel {
                    referee: Some(old(self)@.referee->0.waiting(Pending::Noted)),
                    ..old(self)@
                }),
                _ => r == Progress::Done && final(self)@ == old(self)@,
            },
            final(self).wf(),
    {
        match &mut self.referee {
            None => Progress::Done,
            Some(referee) => referee.record_launch(shooter, caliber, game),
        }
    }
}

} // verus!

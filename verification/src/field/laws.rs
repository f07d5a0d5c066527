//! What a contact with armor leads to, whoever keeps the HP.
use super::bodies::{meets_of, seen, seen_by, BodyPlace, ZoneSighting};
use super::scoring::{Applied, Contact};
use super::FieldModel;
use crate::binary::at_most;
use crate::game::{GameView, Strike, StrikeTarget};
use crate::projectile::{ArmorHit, Rejection};
use crate::referee::MatchPhase;
use crate::target::{ArmorTarget, Caliber, Team};
use crate::zones::ZoneArea;
use vstd::prelude::*;

verus! {

/// An offset from the centre of at most 5 mm either way.
pub open spec fn within_5_mm(offset_m: u64) -> bool {
    at_most(offset_m, 0x3f74_7ae1_47ae_147b) && at_most(0xbf74_7ae1_47ae_147b, offset_m)
}

/// A point of the scoring face in the 10 mm square at its centre.
pub open spec fn in_the_centre(offset_m: [u64; 2]) -> bool {
    within_5_mm(offset_m[0]) && within_5_mm(offset_m[1])
}

/// A module took a strike so short a time ago.
pub open spec fn struck_within(field: FieldModel, target: ArmorTarget, ns: int) -> bool {
    field.last_detection_ns.dom().contains(target) && field.tick * field.tick_ns
        - field.last_detection_ns[target] < ns
}

/// A contact is detected exactly where it meets the scoring face faster than 12
/// m/s for 17 mm or 10 m/s for 42 mm, no sooner than 50 ms or 200 ms after the
/// module's last strike. A rune takes 17 mm only, and on rings that still count.
pub proof fn what_armor_detects(field: FieldModel, contact: Contact)
    ensures
        field.rejection(contact) is None <==> {
            &&& contact.offset_m is Some
            &&& contact.caliber == Caliber::Mm17 ==> {
                &&& !at_most(contact.normal_speed_m_s, 0x4028_0000_0000_0000)
                &&& !struck_within(field, contact.target, 50_000_000)
            }
            &&& contact.caliber == Caliber::Mm42 ==> {
                &&& !at_most(contact.normal_speed_m_s, 0x4024_0000_0000_0000)
                &&& !struck_within(field, contact.target, 200_000_000)
                &&& !(contact.target is Rune)
            }
            &&& contact.target is Rune && field.referee is Some ==> field.referee->0.min_ring(
                contact.target->Rune_rune,
            ) <= contact.ring
        },
{
}

/// The reason a contact is not detected holds of it.
pub proof fn rejections_are_true(field: FieldModel, contact: Contact)
    ensures
        match field.rejection(contact) {
            None => true,
            Some(Rejection::OutsideTarget) => contact.offset_m is None,
            Some(Rejection::Caliber) => contact.target is Rune && contact.caliber == Caliber::Mm42
                && contact.offset_m is Some,
            Some(Rejection::NormalSpeed) => at_most(
                contact.normal_speed_m_s,
                if contact.caliber == Caliber::Mm42 {
                    0x4024_0000_0000_0000
                } else {
                    0x4028_0000_0000_0000
                },
            ) && contact.offset_m is Some && !(contact.target is Rune && contact.caliber
                == Caliber::Mm42),
            Some(Rejection::DetectionInterval) => struck_within(
                field,
                contact.target,
                if contact.caliber == Caliber::Mm42 {
                    200_000_000
                } else {
                    50_000_000
                },
            ) && contact.offset_m is Some && !(contact.target is Rune && contact.caliber
                == Caliber::Mm42),
            Some(Rejection::DisabledRing) => contact.target is Rune && field.referee is Some
                && contact.ring < field.referee->0.min_ring(contact.target->Rune_rune)
                && contact.offset_m is Some,
        },
{
}

/// With a referee, every detected contact but one with a rune is a strike for
/// the engine: on the team that owns what was struck, or on the robot. It tells
/// a base's upper front plate, which is the fourth, from the rest, and a centre
/// strike on a base or outpost from another; the dart detector, the seventh
/// plate, knows no centre.
pub proof fn strikes_name_what_was_struck(field: FieldModel, contact: Contact)
    ensures
        field.strike(contact) is Some <==> field.referee is Some && field.rejection(contact)
            is None && !(contact.target is Rune),
        match field.strike(contact) {
            None => true,
            Some(strike) => {
                &&& strike.caliber == contact.caliber
                &&& strike.shooter == contact.shooter
                &&& match contact.target {
                    ArmorTarget::Base { base, plate } => {
                        &&& strike.target == StrikeTarget::Base(
                            field.bases[base as int].config.team,
                        )
                        &&& strike.upper_front <==> plate == 3
                        &&& strike.critical <==> plate != 6 && in_the_centre(contact.offset_m->0)
                    },
                    ArmorTarget::Outpost { outpost, .. } => {
                        &&& strike.target == StrikeTarget::Outpost(
                            field.referee->0.config.outpost_teams[outpost as int],
                        )
                        &&& !strike.upper_front
                        &&& strike.critical <==> in_the_centre(contact.offset_m->0)
                    },
                    ArmorTarget::Chassis { chassis, .. } => {
                        &&& strike.target == StrikeTarget::Robot(chassis)
                        &&& !strike.upper_front
                        &&& !strike.critical
                    },
                    ArmorTarget::Rune { .. } => false,
                }
            },
        },
{
}

/// What a strike is worth on a base or outpost, before anything the engine
/// knows besides: 42 mm is worth 200, 17 mm 20, or 5 on the upper front, and
/// a centre strike half as much again, a half point counted whole.
pub open spec fn plain_worth(strike: Strike) -> int {
    let plain: int = if strike.caliber == Caliber::Mm42 {
        200
    } else if strike.upper_front {
        5
    } else {
        20
    };
    if strike.critical {
        plain + (plain + 1) / 2
    } else {
        plain
    }
}

/// Bases and outposts lose the same to a contact whoever keeps their HP: where
/// there is no referee, the field takes what the strike that it would name to
/// the engine is worth, as far as there is HP. A base's shield goes first, a
/// destroyed structure loses nothing, and no other structure loses anything.
pub proof fn strikes_cost_what_they_are_worth(
    field: FieldModel,
    refereed: FieldModel,
    contact: Contact,
    applied: Applied,
    game: GameView,
)
    requires
        field.wf(),
        field.referee is None,
        field.has_target(contact.target),
        field.rejection(contact) is None,
        refereed == (FieldModel { referee: refereed.referee, ..field }),
        refereed.referee is Some,
    ensures
        ({
            let (after, r) = field.scored(contact, applied, game);
            let worth = plain_worth(refereed.strike(contact)->0);
            match contact.target {
                ArmorTarget::Base { base, .. } => {
                    let old = field.bases[base as int];
                    let new = after.bases[base as int];
                    &&& r is Ok
                    &&& r->Ok_0.damage == old.hp + old.shield_hp - new.hp - new.shield_hp
                    &&& old.hp == 0 ==> r->Ok_0.damage == 0
                    &&& 0 < old.hp && worth <= old.hp + old.shield_hp ==> r->Ok_0.damage == worth
                    &&& 0 < old.hp && old.hp + old.shield_hp < worth ==> new.hp == 0
                        && new.shield_hp == 0
                    &&& new.hp < old.hp ==> new.shield_hp == 0
                    &&& new.hp <= old.hp && new.shield_hp <= old.shield_hp
                    &&& new.config == old.config
                    &&& after.bases.len() == field.bases.len()
                    &&& forall|i: int|
                        0 <= i < field.bases.len() && i != base ==> #[trigger] after.bases[i]
                            == field.bases[i]
                    &&& after.outposts == field.outposts
                },
                ArmorTarget::Outpost { outpost, .. } => {
                    let old = field.outposts[outpost as int];
                    let new = after.outposts[outpost as int];
                    &&& r is Ok
                    &&& r->Ok_0.damage == old.hp - new.hp
                    &&& worth <= old.hp ==> r->Ok_0.damage == worth
                    &&& old.hp < worth ==> new.hp == 0
                    &&& after.outposts.len() == field.outposts.len()
                    &&& forall|i: int|
                        0 <= i < field.outposts.len() && i != outpost ==> #[trigger]
                            after.outposts[i] == field.outposts[i]
                    &&& after.bases == field.bases
                },
                _ => after.bases == field.bases && after.outposts == field.outposts,
            }
        }),
{
    assert(refereed.rejection(contact) is None || contact.target is Rune);
}

/// With a referee the engine's word counts: the report says what the engine
/// took, and every base and outpost then has the HP the engine has for its
/// team.
pub proof fn the_engine_keeps_the_hp(
    field: FieldModel,
    contact: Contact,
    applied: Applied,
    game: GameView,
    i: int,
)
    requires
        field.wf(),
        field.referee is Some,
        field.rejection(contact) is None,
        contact.target is Base || contact.target is Outpost,
    ensures
        ({
            let (after, r) = field.scored(contact, applied, game);
            &&& r is Ok
            &&& contact.target is Base && applied.hp + applied.shield <= u32::MAX
                ==> r->Ok_0.damage == applied.hp + applied.shield
            &&& contact.target is Outpost ==> r->Ok_0.damage == applied.hp
            &&& 0 <= i < field.bases.len() ==> {
                let team = if field.bases[i].config.team == Team::Red {
                    game.red
                } else {
                    game.blue
                };
                &&& after.bases[i].hp == team.base_hp
                &&& after.bases[i].shield_hp == team.base_shield_hp
                &&& after.bases[i].config == field.bases[i].config
            }
            &&& 0 <= i < field.outposts.len() ==> {
                let team = if field.referee->0.config.outpost_teams[i] == Team::Red {
                    game.red
                } else {
                    game.blue
                };
                team.outpost_hp <= 1500 ==> after.outposts[i].hp == team.outpost_hp
            }
            &&& after.bases.len() == field.bases.len()
            &&& after.outposts.len() == field.outposts.len()
        }),
{
    if 0 <= i < field.outposts.len() {
        assert(field.outposts[i].wf());
    }
}

/// A robot's armor costs it what the engine took, or what the contact is worth
/// without a referee. No structure is touched.
pub proof fn robots_lose_what_the_engine_takes(
    field: FieldModel,
    contact: Contact,
    applied: Applied,
    game: GameView,
)
    requires
        contact.target is Chassis,
        field.rejection(contact) is None,
    ensures
        ({
            let (after, r) = field.scored(contact, applied, game);
            &&& r is Ok
            &&& field.referee is Some ==> r->Ok_0.damage == applied.hp
            &&& field.referee is None ==> r->Ok_0.damage == contact.robot_damage
            &&& after.bases == field.bases
            &&& after.outposts == field.outposts
            &&& after.runes == field.runes
        }),
{
}

/// A detected contact is counted and starts its own module's interval anew, at
/// the field's time; no other module's moves. It leaves the clock and the hit
/// list alone.
pub proof fn detected_contacts_are_counted(
    field: FieldModel,
    contact: Contact,
    applied: Applied,
    game: GameView,
    other: ArmorTarget,
)
    requires
        field.wf(),
        field.rejection(contact) is None,
        field.hits_detected < u64::MAX,
    ensures
        ({
            let after = field.scored(contact, applied, game).0;
            &&& after.hits_detected == field.hits_detected + 1
            &&& after.last_detection_ns.dom().contains(contact.target)
            &&& after.last_detection_ns[contact.target] == field.tick * field.tick_ns
            &&& other != contact.target ==> {
                &&& after.last_detection_ns.dom().contains(other)
                    == field.last_detection_ns.dom().contains(other)
                &&& after.last_detection_ns[other] == field.last_detection_ns[other]
            }
            &&& after.tick == field.tick
            &&& after.tick_ns == field.tick_ns
            &&& after.hits == field.hits
            &&& after.referee == field.referee
        }),
{
}

/// A report repeats the contact it is about, with the field's time, and says
/// whether it was detected; a contact that was not costs nothing.
pub proof fn reports_repeat_the_contact(
    field: FieldModel,
    contact: Contact,
    applied: Applied,
    game: GameView,
)
    requires
        field.wf(),
    ensures
        match field.scored(contact, applied, game).1 {
            Ok(hit) => {
                &&& hit.time_ns == field.tick * field.tick_ns
                &&& hit.projectile == contact.projectile
                &&& hit.shooter == contact.shooter
                &&& hit.caliber == contact.caliber
                &&& hit.target == contact.target
                &&& hit.position_m == contact.position_m
                &&& hit.normal_speed_m_s == contact.normal_speed_m_s
                &&& hit.rejection == field.rejection(contact)
                &&& hit.detected <==> hit.rejection is None
                &&& hit.detected ==> hit.local_offset_m == contact.offset_m->0
                &&& !hit.detected ==> hit.local_offset_m == [
                    contact.local_m[1],
                    contact.local_m[2],
                ]
                &&& !hit.detected ==> hit.damage == 0 && hit.rune_outcome is None
                &&& hit.rune_outcome is Some <==> hit.detected && contact.target is Rune
                &&& contact.target is Rune ==> hit.damage == 0
            },
            Err(error) => contact.target is Rune && contact.target->Rune_blade >= 5,
        },
{
}

/// A rune strike reaches the rune it met and no other, at the field's time.
pub proof fn rune_strikes_reach_their_rune(
    field: FieldModel,
    contact: Contact,
    applied: Applied,
    game: GameView,
)
    requires
        field.wf(),
        contact.target is Rune,
        field.has_target(contact.target),
        contact.target->Rune_blade < 5,
        field.rejection(contact) is None,
    ensures
        ({
            let (after, r) = field.scored(contact, applied, game);
            let rune = contact.target->Rune_rune as int;
            let blade = contact.target->Rune_blade;
            let now = field.runes[rune].advanced((field.tick * field.tick_ns) as u64);
            &&& r is Ok && r->Ok_0.rune_outcome == Some(now.outcome(blade))
            &&& after.runes[rune] == now.struck(blade)
            &&& after.runes.len() == field.runes.len()
            &&& forall|i: int|
                0 <= i < field.runes.len() && i != rune ==> #[trigger] after.runes[i]
                    == field.runes[i]
            &&& after.bases == field.bases
            &&& after.outposts == field.outposts
        }),
{
}

/// A contact goes to the end of the hit list, and nothing else of the field but
/// the referee hears of it.
pub proof fn contacts_are_kept_in_order(field: FieldModel, hit: ArmorHit, ring: u32)
    ensures
        ({
            let after = field.kept(hit, ring);
            let n = field.hits.len() as int;
            &&& after.hits.len() == n + 1
            &&& after.hits[n] == hit
            &&& forall|i: int| 0 <= i < n ==> #[trigger] after.hits[i] == field.hits[i]
            &&& field == (FieldModel { hits: field.hits, referee: field.referee, ..after })
            &&& after.referee is Some <==> field.referee is Some
        }),
{
}

/// A collision costs a robot HP in a running round only, while it stands, and
/// not within 50 ms of the last strike on the same module.
pub proof fn collisions_count_in_a_running_round(
    field: FieldModel,
    chassis: u32,
    plate: u32,
    defeated: Option<bool>,
)
    ensures
        field.collision_counts(chassis, plate, defeated) <==> {
            &&& field.referee is Some
            &&& field.referee->0.state.phase == MatchPhase::Running
            &&& defeated is Some && !defeated->0
            &&& !struck_within(field, ArmorTarget::Chassis { chassis, plate }, 50_000_000)
        },
{
}

/// Armor is disabled with the HP of what it belongs to; a rune's never is, and
/// what is not on the field has none.
pub proof fn armor_lives_with_its_hp(
    field: FieldModel,
    target: ArmorTarget,
    defeated: Option<bool>,
)
    ensures
        target is Rune ==> !field.disabled(target, defeated),
        target is Chassis ==> (field.disabled(target, defeated) <==> defeated is None
            || defeated->0),
        target is Base ==> (!field.disabled(target, defeated) <==> {
            &&& target->Base_base < field.bases.len()
            &&& field.bases[target->Base_base as int].hp > 0
        }),
        target is Outpost ==> (!field.disabled(target, defeated) <==> {
            &&& target->Outpost_outpost < field.outposts.len()
            &&& field.outposts[target->Outpost_outpost as int].hp > 0
        }),
{
}

/// How many sightings bodies make.
proof fn sightings_in_all(areas: Seq<ZoneArea>, bodies: Seq<BodyPlace>, b: int, a: int)
    requires
        0 <= b < bodies.len(),
        0 <= a < areas.len(),
    ensures
        seen(areas, bodies).len() == bodies.len() * areas.len(),
        b * areas.len() + a < seen(areas, bodies).len(),
        0 <= b * areas.len(),
        seen(areas, bodies)[b * areas.len() + a] == seen_by(areas, bodies[b])[a],
    decreases bodies.len(),
{
    let head = bodies.drop_last();
    let n = areas.len() as int;
    assert(bodies.len() * n == head.len() * n + n) by (nonlinear_arith)
        requires
            bodies.len() == head.len() + 1,
    ;
    assert(0 <= b * n <= head.len() * n) by (nonlinear_arith)
        requires
            0 <= b <= head.len(),
            0 <= n,
    ;
    if head.len() > 0 {
        sightings_in_all(areas, head, 0, 0);
    } else {
        assert(seen(areas, head).len() == 0);
        assert(head.len() * n == 0) by (nonlinear_arith)
            requires
                head.len() == 0,
        ;
    }
    if b < head.len() {
        sightings_in_all(areas, head, b, a);
        assert(head[b] == bodies[b]);
    }
}

/// In a running round every body is looked for on every buff point, and outside
/// one none is: one sighting for each body and point, body by body, names the
/// robot, the point, and whether the point's footprint holds the body's centre.
pub proof fn every_body_is_looked_for_everywhere(
    field: FieldModel,
    areas: Seq<ZoneArea>,
    bodies: Seq<BodyPlace>,
    b: int,
    a: int,
)
    requires
        0 <= b < bodies.len(),
        0 <= a < areas.len(),
    ensures
        ({
            let all = field.sightings(areas, bodies);
            let running = field.referee is Some && field.referee->0.state.phase
                == MatchPhase::Running;
            let place = bodies[b].position_m;
            &&& !running ==> all.len() == 0
            &&& running ==> {
                let one: ZoneSighting = all[b * areas.len() + a];
                &&& all.len() == bodies.len() * areas.len()
                &&& b * areas.len() + a < all.len()
                &&& one.robot == bodies[b].robot
                &&& one.zone.kind == areas[a].kind
                &&& one.zone.owner == areas[a].owner
                &&& one.zone.pad == areas[a].pad
                &&& one.detected == areas[a]@.holds(
                    place[0],
                    place[1],
                    place[2],
                    meets_of(bodies[b], a),
                )
            }
        }),
{
    sightings_in_all(areas, bodies, b, a);
}

/// A kept contact counts towards the attempt it belongs to, with the ring it
/// struck, and towards no other; where it belongs to none the referee is left
/// alone.
pub proof fn kept_contacts_count_for_their_attempt(
    field: FieldModel,
    hit: ArmorHit,
    ring: u32,
)
    requires
        field.referee is Some,
    ensures
        ({
            let before = field.referee->0;
            let after = field.kept(hit, ring).referee->0;
            match before.attempt_of(hit) {
                None => after == before,
                Some(team) => {
                    &&& team == Team::Red ==> after.state.red.team
                        == crate::referee::desk::observed(
                        before.state.red.team,
                        hit.rune_outcome,
                        ring,
                    ) && after.state.blue == before.state.blue
                    &&& team == Team::Blue ==> after.state.blue.team
                        == crate::referee::desk::observed(
                        before.state.blue.team,
                        hit.rune_outcome,
                        ring,
                    ) && after.state.red == before.state.red
                    &&& after.events == before.events
                },
            }
        }),
{
}

} // verus!

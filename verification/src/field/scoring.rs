//! Contact detection and gameplay consequences, applied in contact order.
use super::memory::recent;
use super::{Field, FieldError, FieldModel};
use crate::base;
use crate::base::{lesser, plain_damage, BaseSnapshot};
use crate::binary::{at_most, is_at_most};
use crate::game::{GameView, Strike, StrikeTarget};
use crate::outpost::Outpost;
use crate::projectile::{
    central, in_centre_square, outpost_damage, with_bonus, ArmorHit, Rejection,
};
use crate::referee::model::models;
use crate::referee::MatchPhase;
use crate::rune::RuneError;
use crate::target::{ArmorTarget, Caliber};
use vstd::prelude::*;

verus! {

/// One raw contact of a projectile with an armor module, as the physics saw it.
#[derive(Clone, Copy, Debug, PartialEq, Eq)]
pub struct Contact {
    /// Identity of the ball.
    pub projectile: u64,
    /// The chassis that fired, when a pilot did.
    pub shooter: Option<u32>,
    /// Projectile caliber.
    pub caliber: Caliber,
    /// Which armor module was touched.
    pub target: ArmorTarget,
    /// Contact point in metres.
    pub position_m: [u64; 3],
    /// Contact point in the module's own frame.
    pub local_m: [u64; 3],
    /// Width and height offset from the centre of the scoring face; `None` on
    /// the housing, edge or back.
    pub offset_m: Option<[u64; 2]>,
    /// The ring struck, on a rune target.
    pub ring: u32,
    /// Closing speed along the plate's outward normal.
    pub normal_speed_m_s: u64,
    /// HP the strike costs a robot when no referee keeps its HP.
    pub robot_damage: u32,
}

/// What the gameplay engine removed for a strike.
#[derive(Clone, Copy, Debug, PartialEq, Eq, Structural)]
pub struct Applied {
    /// HP removed.
    pub hp: u32,
    /// Shield removed.
    pub shield: u32,
}

impl FieldModel {
    /// The target of a contact is on the field.
    pub open spec fn has_target(self, target: ArmorTarget) -> bool {
        match target {
            ArmorTarget::Base { base, .. } => base < self.bases.len(),
            ArmorTarget::Outpost { outpost, .. } => outpost < self.outposts.len(),
            ArmorTarget::Rune { rune, .. } => rune < self.runes.len(),
            ArmorTarget::Chassis { .. } => true,
        }
    }

    /// A strike on a module at the field's time falls within `interval_ns` of
    /// its last.
    pub open spec fn too_soon(self, target: ArmorTarget, interval_ns: u64) -> bool {
        self.last_detection_ns.contains_key(target) && self.time_ns()
            - self.last_detection_ns[target] < interval_ns
    }

    /// The first detection condition that a contact fails, if any: it meets
    /// the scoring face, a rune takes 17 mm only, the normal speed exceeds the
    /// caliber's threshold, the module's last strike is long enough ago, and a
    /// rune's ring still detects.
    pub open spec fn rejection(self, contact: Contact) -> Option<Rejection> {
        if contact.offset_m is None {
            Some(Rejection::OutsideTarget)
        } else if contact.target is Rune && contact.caliber != Caliber::Mm17 {
            Some(Rejection::Caliber)
        } else if at_most(contact.normal_speed_m_s, contact.caliber.threshold()) {
            Some(Rejection::NormalSpeed)
        } else if self.too_soon(contact.target, contact.caliber.interval_ns()) {
            Some(Rejection::DetectionInterval)
        } else {
            match (contact.target, self.referee) {
                (ArmorTarget::Rune { rune, .. }, Some(referee)) => if contact.ring
                    < referee.min_ring(rune) {
                    Some(Rejection::DisabledRing)
                } else {
                    None
                },
                _ => None,
            }
        }
    }

    /// The strike that the engine has to apply for a contact, if any: a
    /// detected contact with anything but a rune, when there is a referee.
    pub open spec fn strike(self, contact: Contact) -> Option<Strike> {
        match self.referee {
            Some(referee) if self.rejection(contact) is None => {
                let offset = contact.offset_m->0;
                match contact.target {
                    ArmorTarget::Base { base, plate } => Some(
                        Strike {
                            target: StrikeTarget::Base(self.bases[base as int].config.team),
                            caliber: contact.caliber,
                            shooter: contact.shooter,
                            upper_front: plate == base::UPPER_FRONT,
                            critical: plate != base::DART_PLATE && central(offset),
                        },
                    ),
                    ArmorTarget::Outpost { outpost, .. } => Some(
                        Strike {
                            target: StrikeTarget::Outpost(
                                referee.config.outpost_teams[outpost as int],
                            ),
                            caliber: contact.caliber,
                            shooter: contact.shooter,
                            upper_front: false,
                            critical: central(offset),
                        },
                    ),
                    ArmorTarget::Chassis { chassis, .. } => Some(
                        Strike {
                            target: StrikeTarget::Robot(chassis),
                            caliber: contact.caliber,
                            shooter: contact.shooter,
                            upper_front: false,
                            critical: false,
                        },
                    ),
                    ArmorTarget::Rune { .. } => None,
                }
            },
            _ => None,
        }
    }

    /// The bases and outposts with the HP that the engine has for them; a
    /// tower whose HP agrees is left alone.
    pub open spec fn mirrored(self, game: GameView) -> FieldModel {
        match self.referee {
            None => self,
            Some(referee) => FieldModel {
                bases: Seq::new(
                    self.bases.len(),
                    |i: int|
                        {
                            let base = self.bases[i];
                            let team = game.team_state(base.config.team);
                            BaseSnapshot {
                                hp: team.base_hp,
                                shield_hp: team.base_shield_hp,
                                ..base
                            }
                        },
                ),
                outposts: Seq::new(
                    self.outposts.len(),
                    |i: int|
                        {
                            let team = game.team_state(referee.config.outpost_teams[i]);
                            mirrored_outpost(
                                self.outposts[i],
                                self.time_ns() as u64,
                                team.outpost_hp,
                            )
                        },
                ),
                ..self
            },
        }
    }

    /// The report of a contact before anything else is known.
    pub open spec fn bare_hit(self, contact: Contact) -> ArmorHit {
        ArmorHit {
            time_ns: self.time_ns() as u64,
            projectile: contact.projectile,
            shooter: contact.shooter,
            caliber: contact.caliber,
            target: contact.target,
            position_m: contact.position_m,
            local_offset_m: match contact.offset_m {
                Some(offset) if self.rejection(contact) is None => offset,
                _ => [contact.local_m[1], contact.local_m[2]],
            },
            normal_speed_m_s: contact.normal_speed_m_s,
            detected: self.rejection(contact) is None,
            rejection: self.rejection(contact),
            rune_outcome: None,
            damage: 0,
        }
    }

    /// The field once a module registered a contact.
    pub open spec fn registered(self, contact: Contact) -> FieldModel {
        FieldModel {
            last_detection_ns: self.last_detection_ns.insert(
                contact.target,
                self.time_ns() as u64,
            ),
            hits_detected: self.hits_detected.saturating_add(1),
            ..self
        }
    }

    /// HP plus shield that a base without a referee loses to a strike.
    pub open spec fn base_loss(self, base: u32, plate: u32, contact: Contact) -> int {
        let state = self.bases[base as int];
        let amount = base_worth(contact.caliber, plate, contact.offset_m->0);
        if state.hp == 0 {
            0
        } else {
            lesser(amount, state.hp + state.shield_hp)
        }
    }

    /// A base without a referee after a strike: the shield is spent first.
    pub open spec fn base_struck(self, base: u32, plate: u32, contact: Contact) -> BaseSnapshot {
        let state = self.bases[base as int];
        let loss = self.base_loss(base, plate, contact);
        let shield = lesser(loss, state.shield_hp as int);
        BaseSnapshot {
            shield_hp: (state.shield_hp - shield) as u32,
            hp: (state.hp - (loss - shield)) as u32,
            ..state
        }
    }

    /// What a contact does to the field and what is reported of it. `applied`
    /// is what the engine removed for the contact's strike, and `game` the
    /// engine's state after it.
    pub open spec fn scored(self, contact: Contact, applied: Applied, game: GameView) -> (
        FieldModel,
        Result<ArmorHit, FieldError>,
    ) {
        let hit = self.bare_hit(contact);
        if self.rejection(contact) is Some {
            (self, Ok(hit))
        } else {
            let f = self.registered(contact);
            match contact.target {
                ArmorTarget::Base { base, plate } => if self.referee is Some {
                    (
                        f.mirrored(game),
                        Ok(ArmorHit { damage: applied.hp.saturating_add(applied.shield), ..hit }),
                    )
                } else {
                    (
                        FieldModel {
                            bases: self.bases.update(
                                base as int,
                                self.base_struck(base, plate, contact),
                            ),
                            ..f
                        },
                        Ok(
                            ArmorHit {
                                damage: self.base_loss(base, plate, contact) as u32,
                                ..hit
                            },
                        ),
                    )
                },
                ArmorTarget::Outpost { outpost, .. } => if self.referee is Some {
                    (f.mirrored(game), Ok(ArmorHit { damage: applied.hp, ..hit }))
                } else {
                    let tower = self.outposts[outpost as int];
                    let amount = outpost_worth(contact.caliber, contact.offset_m->0) as u32;
                    (
                        FieldModel {
                            outposts: self.outposts.update(
                                outpost as int,
                                tower.damaged(self.time_ns() as u64, amount),
                            ),
                            ..f
                        },
                        Ok(
                            ArmorHit {
                                damage: lesser(amount as int, tower.hp as int) as u32,
                                ..hit
                            },
                        ),
                    )
                },
                ArmorTarget::Rune { rune, blade } => if blade >= 5 {
                    (f, Err(FieldError::Rune(RuneError::Blade)))
                } else {
                    let now = self.runes[rune as int].advanced(self.time_ns() as u64);
                    (
                        FieldModel {
                            runes: self.runes.update(rune as int, now.struck(blade)),
                            ..f
                        },
                        Ok(ArmorHit { rune_outcome: Some(now.outcome(blade)), ..hit }),
                    )
                },
                ArmorTarget::Chassis { .. } => (
                    f,
                    Ok(
                        ArmorHit {
                            damage: if self.referee is Some {
                                applied.hp
                            } else {
                                contact.robot_damage
                            },
                            ..hit
                        },
                    ),
                ),
            }
        }
    }
}

/// What a strike on a base plate is worth.
pub open spec fn base_worth(caliber: Caliber, plate: u32, offset_m: [u64; 2]) -> int {
    if plate != base::DART_PLATE && central(offset_m) {
        with_bonus(plain_damage(caliber, plate))
    } else {
        plain_damage(caliber, plate) as int
    }
}

/// What a strike on an outpost is worth.
pub open spec fn outpost_worth(caliber: Caliber, offset_m: [u64; 2]) -> int {
    if central(offset_m) {
        with_bonus(caliber.outpost_hp())
    } else {
        caliber.outpost_hp() as int
    }
}

/// A tower with the HP that the engine has for it.
pub open spec fn mirrored_outpost(tower: Outpost, time_ns: u64, hp: u32) -> Outpost {
    if hp == tower.hp || hp > crate::outpost::INITIAL_HP {
        tower
    } else {
        tower.with_hp(time_ns, hp)
    }
}

impl Field {
    /// The first detection condition that a contact fails, if any.
    pub fn detect(&self, contact: &Contact) -> (r: Option<Rejection>)
        requires
            self.wf(),
        ensures
            r == self@.rejection(*contact),
    {
        if contact.offset_m.is_none() {
            return Some(Rejection::OutsideTarget);
        }
        if let ArmorTarget::Rune { .. } = contact.target {
            if contact.caliber != Caliber::Mm17 {
                return Some(Rejection::Caliber);
            }
        }
        if is_at_most(contact.normal_speed_m_s, contact.caliber.armor_detection_speed_m_s()) {
            return Some(Rejection::NormalSpeed);
        }
        if self.detected_within(contact.target, contact.caliber.detection_interval_ns()) {
            return Some(Rejection::DetectionInterval);
        }
        if let ArmorTarget::Rune { rune, .. } = contact.target {
            if let Some(referee) = &self.referee {
                if contact.ring < referee.rune_min_ring(rune) {
                    return Some(Rejection::DisabledRing);
                }
            }
        }
        None
    }

    /// Whether a strike on a module now falls within `interval_ns` of its
    /// last.
    fn detected_within(&self, target: ArmorTarget, interval_ns: u64) -> (r: bool)
        requires
            self.wf(),
            interval_ns > 0,
        ensures
            r == self@.too_soon(target, interval_ns),
    {
        match self.last_detection_ns.get(target) {
            Some(last) => self.time_ns().saturating_sub(last) < interval_ns,
            None => false,
        }
    }

    /// The strike that the engine has to apply for a contact, if any.
    pub fn strike(&self, contact: &Contact) -> (r: Option<Strike>)
        requires
            self.wf(),
            self@.has_target(contact.target),
        ensures
            r == self@.strike(*contact),
    {
        let referee = match &self.referee {
            Some(referee) => referee,
            None => {
                return None;
            },
        };
        if self.detect(contact).is_some() {
            return None;
        }
        let offset: [u64; 2] = match contact.offset_m {
            Some(offset) => offset,
            None => {
                return None;
            },
        };
        match contact.target {
            ArmorTarget::Base { base, plate } => Some(
                Strike {
                    target: StrikeTarget::Base(self.bases[base as usize].config.team),
                    caliber: contact.caliber,
                    shooter: contact.shooter,
                    upper_front: plate == base::UPPER_FRONT,
                    critical: plate != base::DART_PLATE && in_centre_square(offset),
                },
            ),
            ArmorTarget::Outpost { outpost, .. } => Some(
                Strike {
                    target: StrikeTarget::Outpost(
                        referee.config.outpost_teams[outpost as usize],
                    ),
                    caliber: contact.caliber,
                    shooter: contact.shooter,
                    upper_front: false,
                    critical: in_centre_square(offset),
                },
            ),
            ArmorTarget::Chassis { chassis, .. } => Some(
                Strike {
                    target: StrikeTarget::Robot(chassis),
                    caliber: contact.caliber,
                    shooter: contact.shooter,
                    upper_front: false,
                    critical: false,
                },
            ),
            ArmorTarget::Rune { .. } => None,
        }
    }

    /// Mirror the engine's base and outpost HP onto the physical bases and
    /// outposts. Without a referee the physical objects are their own
    /// authority.
    pub fn sync_structures(&mut self, game: &GameView)
        requires
            old(self).wf(),
        ensures
            final(self)@ == old(self)@.mirrored(*game),
            final(self).wf(),
    {
        if self.referee.is_none() {
            return;
        }
        let time_ns: u64 = self.time_ns();
        let ghost start = *self;
        let ghost after = self@.mirrored(*game);
        let mut i: usize = 0;
        while i < self.bases.len()
            invariant
                i <= self.bases@.len(),
                self@ == (FieldModel { bases: self.bases@, ..start@ }),
                self.last_detection_ns == start.last_detection_ns,
                self.bases@.len() == start.bases@.len(),
                after == start@.mirrored(*game),
                start@.referee is Some,
                forall|k: int| 0 <= k < i ==> (#[trigger] self.bases@[k]) == after.bases[k],
                forall|k: int|
                    i <= k < self.bases@.len() ==> (#[trigger] self.bases@[k]) == start.bases@[k],
            decreases self.bases@.len() - i,
        {
            let mut state = self.bases[i];
            let team = game.team(state.config.team);
            state.hp = team.base_hp;
            state.shield_hp = team.base_shield_hp;
            self.bases.set(i, state);
            i += 1;
        }
        let ghost bases = self.bases@;
        let mut k: usize = 0;
        while k < self.outposts.len()
            invariant
                k <= self.outposts@.len(),
                self@ == (FieldModel { bases, outposts: self.outposts@, ..start@ }),
                self.last_detection_ns == start.last_detection_ns,
                self.outposts@.len() == start.outposts@.len(),
                after == start@.mirrored(*game),
                start.wf(),
                start@.referee is Some,
                time_ns == start@.time_ns(),
                forall|j: int| 0 <= j < self.outposts@.len() ==> (#[trigger] self.outposts@[j]).wf(),
                forall|j: int| 0 <= j < k ==> (#[trigger] self.outposts@[j]) == after.outposts[j],
                forall|j: int|
                    k <= j < self.outposts@.len() ==> (#[trigger] self.outposts@[j])
                        == start.outposts@[j],
            decreases self.outposts@.len() - k,
        {
            let hp = match &self.referee {
                Some(referee) => referee.outpost_hp(k, game),
                None => None,
            };
            if let Some(hp) = hp {
                if hp != self.outposts[k].hp() {
                    // The engine bounds outpost HP, and a tower keeps its own otherwise.
                    let _ = self.outposts[k].set_hp(time_ns, hp);
                }
            }
            k += 1;
        }
        proof {
            assert(bases =~= after.bases);
            assert(self.outposts@ =~= after.outposts);
        }
    }

    /// Apply the detection conditions to one raw contact and what a detected
    /// strike does. `applied` is what the engine removed for the contact's
    /// strike, and `game` the engine's state after it; both matter only where
    /// [`Field::strike`] names a strike.
    pub fn score(&mut self, contact: &Contact, applied: Applied, game: &GameView) -> (r: Result<
        ArmorHit,
        FieldError,
    >)
        requires
            old(self).wf(),
            old(self)@.has_target(contact.target),
        ensures
            (final(self)@, r) == old(self)@.scored(*contact, applied, *game),
            final(self).wf(),
    {
        let ghost start = self@;
        let time_ns: u64 = self.time_ns();
        let mut hit = ArmorHit {
            time_ns,
            projectile: contact.projectile,
            shooter: contact.shooter,
            caliber: contact.caliber,
            target: contact.target,
            position_m: contact.position_m,
            local_offset_m: [contact.local_m[1], contact.local_m[2]],
            normal_speed_m_s: contact.normal_speed_m_s,
            detected: false,
            rejection: None,
            rune_outcome: None,
            damage: 0,
        };
        let rejection = self.detect(contact);
        if rejection.is_some() {
            hit.rejection = rejection;
            return Ok(hit);
        }
        let offset: [u64; 2] = match contact.offset_m {
            Some(offset) => offset,
            None => {
                return Ok(hit);
            },
        };
        hit.local_offset_m = offset;
        self.last_detection_ns.insert(contact.target, time_ns);
        hit.detected = true;
        self.hits_detected = self.hits_detected.saturating_add(1);
        let ghost f = self@;
        proof {
            assert(f == start.registered(*contact));
            assert(f.wf());
        }
        match contact.target {
            ArmorTarget::Base { base, plate } => {
                if self.referee.is_some() {
                    hit.damage = applied.hp.saturating_add(applied.shield);
                    self.sync_structures(game);
                } else {
                    let mut state = self.bases[base as usize];
                    hit.damage = state.damage(base::damage(contact.caliber, plate, offset));
                    self.bases.set(base as usize, state);
                    proof {
                        assert(state == start.base_struck(base, plate, *contact));
                    }
                }
            },
            ArmorTarget::Outpost { outpost, .. } => {
                if self.referee.is_some() {
                    hit.damage = applied.hp;
                    self.sync_structures(game);
                } else {
                    let amount: u32 = outpost_damage(contact.caliber, offset);
                    proof {
                        assert(start.outposts[outpost as int].wf());
                    }
                    hit.damage = self.outposts[outpost as usize].damage(time_ns, amount);
                    proof {
                        assert(self.outposts@ =~= start.outposts.update(
                            outpost as int,
                            start.outposts[outpost as int].damaged(time_ns, amount),
                        ));
                        lemma_outposts_changed(f, self@, outpost as int);
                    }
                }
            },
            ArmorTarget::Rune { rune, blade } => {
                proof {
                    assert(start.runes[rune as int].wf());
                    assert(start.runes[rune as int] == self.runes@[rune as int]@);
                }
                match self.runes[rune as usize].hit(time_ns, blade) {
                    Ok(outcome) => {
                        hit.rune_outcome = Some(outcome);
                        proof {
                            let now = start.runes[rune as int].advanced(time_ns);
                            assert(models(self.runes@) =~= start.runes.update(
                                rune as int,
                                now.struck(blade),
                            ));
                            lemma_rune_changed(f, self@, rune as int);
                        }
                    },
                    Err(error) => {
                        proof {
                            assert(models(self.runes@) =~= start.runes);
                        }
                        return Err(FieldError::Rune(error));
                    },
                }
            },
            ArmorTarget::Chassis { .. } => {
                hit.damage = if self.referee.is_some() {
                    applied.hp
                } else {
                    contact.robot_damage
                };
            },
        }
        Ok(hit)
    }

    /// Keep a scored contact, after telling the referee of it. `ring` is the
    /// ring it struck, on a rune target.
    pub fn keep_hit(&mut self, hit: ArmorHit, ring: u32)
        requires
            old(self).wf(),
            hit.time_ns == old(self)@.time_ns(),
        ensures
            final(self)@ == old(self)@.kept(hit, ring),
            final(self).wf(),
    {
        if let Some(referee) = &mut self.referee {
            referee.observe_hit(&hit, ring);
        }
        self.hits.push(hit);
        proof {
            let before = old(self)@.hits;
            let now = self@.time_ns();
            assert forall|i: int| 0 <= i < self@.hits.len() implies (
            #[trigger] self@.hits[i]).time_ns <= now && recent(self@.hits[i], now) by {
                if i < before.len() {
                    assert(self@.hits[i] == before[i]);
                }
            }
        }
    }

    /// Whether a chassis armor module that struck something costs its robot
    /// HP: in a running round, for a robot in play, at most once per module
    /// per 17 mm detection interval. `defeated` is what the physics has of the
    /// robot.
    pub fn collide(&mut self, chassis: u32, plate: u32, defeated: Option<bool>) -> (r: bool)
        requires
            old(self).wf(),
        ensures
            r == old(self)@.collision_counts(chassis, plate, defeated),
            final(self)@ == (if r {
                FieldModel {
                    last_detection_ns: old(self)@.last_detection_ns.insert(
                        (ArmorTarget::Chassis { chassis, plate }),
                        old(self)@.time_ns() as u64,
                    ),
                    ..old(self)@
                }
            } else {
                old(self)@
            }),
            final(self).wf(),
    {
        match &self.referee {
            Some(referee) => {
                if referee.phase() != MatchPhase::Running {
                    return false;
                }
            },
            None => {
                return false;
            },
        }
        match defeated {
            Some(false) => {},
            _ => {
                return false;
            },
        }
        let target = ArmorTarget::Chassis { chassis, plate };
        if self.detected_within(target, Caliber::Mm17.detection_interval_ns()) {
            return false;
        }
        let time_ns: u64 = self.time_ns();
        self.last_detection_ns.insert(target, time_ns);
        true
    }

    /// Disabled armor remains physical but does not register hits. A base or
    /// outpost is disabled once its HP reaches zero or when there is none, and
    /// a chassis module once its robot is defeated or unknown. Rune targets
    /// are never disabled.
    pub fn armor_disabled(&self, target: ArmorTarget, defeated: Option<bool>) -> (r: bool)
        ensures
            r == self@.disabled(target, defeated),
    {
        match target {
            ArmorTarget::Base { base, .. } => base as usize >= self.bases.len()
                || self.bases[base as usize].hp == 0,
            ArmorTarget::Outpost { outpost, .. } => outpost as usize >= self.outposts.len()
                || self.outposts[outpost as usize].hp == 0,
            ArmorTarget::Chassis { .. } => match defeated {
                Some(down) => down,
                None => true,
            },
            ArmorTarget::Rune { .. } => false,
        }
    }
}

impl FieldModel {
    /// The field that keeps a contact and has told its referee.
    pub open spec fn kept(self, hit: ArmorHit, ring: u32) -> FieldModel {
        FieldModel {
            hits: self.hits.push(hit),
            referee: match self.referee {
                Some(referee) => Some(
                    match referee.attempt_of(hit) {
                        Some(team) => referee.with_team(
                            team,
                            crate::referee::desk::observed(
                                referee.state.side(team).team,
                                hit.rune_outcome,
                                ring,
                            ),
                        ),
                        None => referee,
                    },
                ),
                None => None,
            },
            ..self
        }
    }

    /// A collision of a chassis module costs HP.
    pub open spec fn collision_counts(self, chassis: u32, plate: u32, defeated: Option<bool>) -> bool {
        &&& match self.referee {
            Some(referee) => referee.state.phase == MatchPhase::Running,
            None => false,
        }
        &&& defeated == Some(false)
        &&& !self.too_soon(
            ArmorTarget::Chassis { chassis, plate },
            Caliber::Mm17.interval_ns(),
        )
    }

    /// A module does not register hits.
    pub open spec fn disabled(self, target: ArmorTarget, defeated: Option<bool>) -> bool {
        match target {
            ArmorTarget::Base { base, .. } => base >= self.bases.len() || self.bases[base as int].hp
                == 0,
            ArmorTarget::Outpost { outpost, .. } => outpost >= self.outposts.len()
                || self.outposts[outpost as int].hp == 0,
            ArmorTarget::Chassis { .. } => match defeated {
                Some(down) => down,
                None => true,
            },
            ArmorTarget::Rune { .. } => false,
        }
    }
}

/// A change of one tower that keeps its invariant keeps the field's.
proof fn lemma_outposts_changed(before: FieldModel, after: FieldModel, index: int)
    requires
        before.wf(),
        0 <= index < before.outposts.len(),
        after == (FieldModel {
            outposts: before.outposts.update(index, after.outposts[index]),
            ..before
        }),
        after.outposts[index].wf(),
    ensures
        after.wf(),
{
    assert forall|i: int| 0 <= i < after.outposts.len() implies (
    #[trigger] after.outposts[i]).wf() by {
        if i != index {
            assert(before.outposts[i].wf());
        }
    }
}

/// A change of one rune that keeps its invariant and clock keeps the field's.
pub(crate) proof fn lemma_rune_changed(before: FieldModel, after: FieldModel, index: int)
    requires
        before.wf(),
        0 <= index < before.runes.len(),
        after == (FieldModel {
            runes: before.runes.update(index, after.runes[index]),
            ..before
        }),
        after.runes[index].wf(),
        after.runes[index].time_ns() <= before.time_ns(),
    ensures
        after.wf(),
{
    assert forall|i: int| 0 <= i < after.runes.len() implies (#[trigger] after.runes[i]).wf()
        && after.runes[i].time_ns() <= after.time_ns() by {
        if i != index {
            assert(before.runes[i].wf());
        }
    }
}

/// Two detected strikes on one module lie at least its detection interval
/// apart: once a contact is registered, any contact of the same caliber with
/// that module within the interval is not detected.
pub proof fn strikes_keep_their_interval(
    field: FieldModel,
    first: Contact,
    later: FieldModel,
    second: Contact,
)
    requires
        field.wf(),
        later.wf(),
        later.last_detection_ns == field.registered(first).last_detection_ns,
        second.target == first.target,
        field.time_ns() <= later.time_ns() < field.time_ns() + second.caliber.interval_ns(),
    ensures
        later.rejection(second) is Some,
{
}

/// A contact that a module does not register changes nothing on the field.
pub proof fn rejected_contacts_change_nothing(
    field: FieldModel,
    contact: Contact,
    applied: Applied,
    game: GameView,
)
    requires
        field.rejection(contact) is Some,
    ensures
        field.scored(contact, applied, game).0 == field,
        field.scored(contact, applied, game).1 is Ok,
        !(field.scored(contact, applied, game).1->Ok_0.detected),
        field.scored(contact, applied, game).1->Ok_0.damage == 0,
{
}

} // verus!

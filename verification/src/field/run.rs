//! One step of the field, tick by tick: the clock and the runes, the
//! referee's part, the physics, then contacts, collisions and buff points in
//! that order.
//!
//! Neither the engine nor the physics is here. A step says what it needs next
//! and goes on with what came of it.
use super::bodies::{BodyPlace, ZoneSighting};
use super::layout::bases_in_range;
use super::scoring::{Applied, Contact};
use super::stepping::StepAction;
use super::{Field, FieldError, FieldModel};
use crate::base::INITIAL_HP;
use crate::game::{
    robot_in, stands_on, DamageKind, GameCall, GameError, GameView, StrikeTarget,
};
use crate::projectile::ArmorHit;
use crate::referee::model::{Pending, Progress};
use crate::referee::{MatchPhase, COLLISION_DAMAGE_HP};
use crate::target::{ArmorTarget, Team};
use crate::zones::ZoneArea;
use vstd::prelude::*;

verus! {

/// A contact, with what the physics has of the robot that was touched.
#[derive(Clone, Copy, Debug, PartialEq, Eq)]
pub struct Touch {
    /// The contact.
    pub contact: Contact,
    /// Whether the robot touched is defeated; `None` for no known robot.
    pub defeated: Option<bool>,
}

/// A chassis armor module that struck something.
#[derive(Clone, Copy, Debug, PartialEq, Eq, Structural)]
pub struct Collision {
    /// Chassis id.
    pub chassis: u32,
    /// The module.
    pub plate: u32,
    /// Whether the robot is defeated; `None` for no known robot.
    pub defeated: Option<bool>,
}

/// Where a step stands.
#[derive(Clone, Copy, Debug, PartialEq, Eq)]
pub enum Stage {
    /// Between two ticks.
    Ready,
    /// The referee waits for the engine; bodies are in motion or not.
    Refereeing {
        /// Bodies are in motion.
        physics: bool,
    },
    /// The bodies move.
    Moving,
    /// Contacts are left.
    Touching,
    /// The engine applies the strike of a contact.
    Striking(Contact),
    /// The engine applies a collision's damage.
    Colliding,
    /// The engine takes a sighting.
    Sighting,
    /// The step is over.
    Over,
}

/// What a step needs next.
#[derive(Clone, Copy, Debug, PartialEq, Eq)]
pub enum Demand {
    /// To know whether any body is in motion.
    Idle,
    /// A call of the engine.
    Call(GameCall),
    /// The bodies to move to the field's time.
    Move,
    /// A scored contact to be seen by whoever watches.
    Report(ArmorHit),
    /// Nothing: the step is over.
    Finished,
    /// Nothing: the step failed.
    Failed(FieldError),
}

/// What came of a demand.
#[derive(Debug, PartialEq, Eq)]
pub enum Event {
    /// Whether no body is in motion.
    Idle(bool),
    /// The engine's answer, and what it removed for a strike.
    Answer {
        /// How the call went.
        reply: Result<(), GameError>,
        /// What a strike removed.
        applied: Applied,
    },
    /// The bodies moved.
    Moved {
        /// Contacts in order.
        touches: Vec<Touch>,
        /// Collisions in order.
        collisions: Vec<Collision>,
        /// Where the robots' bodies are.
        bodies: Vec<BodyPlace>,
    },
    /// The contact was seen.
    Seen,
}

/// A step under way.
#[derive(Clone, Debug, PartialEq, Eq)]
pub struct StepRun {
    /// The tick at which it ends.
    pub end: u64,
    /// Where it stands.
    pub stage: Stage,
    /// Contacts left of this tick.
    pub touches: Vec<Touch>,
    /// Collisions left of this tick.
    pub collisions: Vec<Collision>,
    /// Where the robots' bodies are at this tick.
    pub bodies: Vec<BodyPlace>,
    /// Sightings left of this tick.
    pub sightings: Vec<ZoneSighting>,
}

/// A step under way as a value.
pub ghost struct RunModel {
    pub end: u64,
    pub stage: Stage,
    pub touches: Seq<Touch>,
    pub collisions: Seq<Collision>,
    pub bodies: Seq<BodyPlace>,
    pub sightings: Seq<ZoneSighting>,
}

impl View for StepRun {
    type V = RunModel;

    open spec fn view(&self) -> RunModel {
        RunModel {
            end: self.end,
            stage: self.stage,
            touches: self.touches@,
            collisions: self.collisions@,
            bodies: self.bodies@,
            sightings: self.sightings@,
        }
    }
}

impl RunModel {
    /// The step at another stage.
    pub open spec fn at(self, stage: Stage) -> RunModel {
        RunModel { stage, ..self }
    }

    /// Without its first contact.
    pub open spec fn touched(self) -> RunModel {
        RunModel { touches: self.touches.remove(0), ..self }
    }

    /// Without its first collision.
    pub open spec fn collided(self) -> RunModel {
        RunModel { collisions: self.collisions.remove(0), ..self }
    }

    /// Without its first sighting.
    pub open spec fn sighted(self) -> RunModel {
        RunModel { sightings: self.sightings.remove(0), ..self }
    }
}

impl Event {
    /// The event answers what a step at a stage asked for, and its contacts
    /// are with armor on the field.
    pub open spec fn answers(self, stage: Stage, field: FieldModel) -> bool {
        match stage {
            Stage::Ready => self is Idle,
            Stage::Refereeing { .. } | Stage::Striking(_) | Stage::Colliding | Stage::Sighting => {
                self is Answer
            },
            Stage::Moving => match self {
                Event::Moved { touches, .. } => on_field(touches@, field),
                _ => false,
            },
            Stage::Touching => self is Seen,
            Stage::Over => false,
        }
    }
}

/// Contacts are with armor on the field.
pub open spec fn on_field(touches: Seq<Touch>, field: FieldModel) -> bool {
    forall|i: int| 0 <= i < touches.len() ==> field.has_target((#[trigger] touches[i]).contact.target)
}

/// A field and a step on it.
pub ghost struct Going {
    pub field: FieldModel,
    pub run: RunModel,
    pub demand: Demand,
}

impl FieldModel {
    /// The field while its referee waits for a call whose answer does not
    /// matter.
    pub open spec fn noting(self) -> FieldModel {
        FieldModel { referee: Some(self.referee->0.waiting(Pending::Noted)), ..self }
    }

    /// A sighting has to be told to the engine: in a running round, of a known
    /// robot, when it changes what the engine has.
    pub open spec fn sighting_counts(self, seen: ZoneSighting, game: GameView) -> bool {
        &&& self.referee is Some
        &&& self.referee->0.state.phase == MatchPhase::Running
        &&& robot_in(game.robots@, seen.robot) is Some
        &&& stands_on(game.contacts@, seen.robot, seen.zone) != seen.detected
    }

    /// The field once a collision counted.
    pub open spec fn bumped(self, chassis: u32, plate: u32) -> FieldModel {
        FieldModel {
            last_detection_ns: self.last_detection_ns.insert(
                (ArmorTarget::Chassis { chassis, plate }),
                self.time_ns() as u64,
            ),
            ..self
        }
    }

    /// Between two ticks.
    pub open spec fn between(self, run: RunModel) -> Going {
        let rest = RunModel { bodies: Seq::empty(), ..run };
        if self.tick >= run.end {
            Going { field: self, run: rest.at(Stage::Over), demand: Demand::Finished }
        } else {
            Going { field: self, run: rest.at(Stage::Ready), demand: Demand::Idle }
        }
    }

    /// Once the referee's part of a tick is done: bodies in motion move next.
    pub open spec fn after_referee(self, run: RunModel, physics: bool, game: GameView) -> Going {
        let settled = self.tick_settled(game);
        if physics {
            Going { field: settled, run: run.at(Stage::Moving), demand: Demand::Move }
        } else {
            settled.between(run)
        }
    }

    /// What the referee's part of a tick came to.
    pub open spec fn refereed(
        self,
        run: RunModel,
        physics: bool,
        progress: Progress,
        game: GameView,
    ) -> Going {
        match progress {
            Progress::Call(call) => Going {
                field: self,
                run: run.at(Stage::Refereeing { physics }),
                demand: Demand::Call(call),
            },
            _ => self.after_referee(run, physics, game),
        }
    }

    /// The next part of a step, once it is known whether bodies move.
    pub open spec fn started(self, run: RunModel, idle: bool, game: GameView) -> Going {
        if self.tick >= run.end {
            self.between(run)
        } else if idle && self.referee is None {
            self.jumped(run.end).between(run)
        } else {
            let next = self.jumped((self.tick + 1) as u64);
            match next.referee {
                None => next.after_referee(run, !idle, game),
                Some(_) => {
                    let (after, progress) = next.play().ticked(next.time_ns() as u64, game);
                    next.playing(after).refereed(run, !idle, progress, game)
                },
            }
        }
    }

    /// The field once its referee heard an answer.
    pub open spec fn heard(self, reply: Result<(), GameError>, game: GameView) -> FieldModel {
        match self.referee {
            None => self,
            Some(_) => self.playing(self.play().resumed(reply, game).0),
        }
    }

    /// A contact scored, kept and reported.
    pub open spec fn reporting(
        self,
        run: RunModel,
        contact: Contact,
        applied: Applied,
        game: GameView,
    ) -> Going {
        let (scored, outcome) = self.scored(contact, applied, game);
        match outcome {
            Ok(hit) => Going {
                field: scored.kept(hit, contact.ring),
                run: run.at(Stage::Touching),
                demand: Demand::Report(hit),
            },
            Err(error) => Going {
                field: scored,
                run: run.at(Stage::Over),
                demand: Demand::Failed(error),
            },
        }
    }

    /// The contacts that are left: disabled armor does not score, and the
    /// engine applies strikes before they are scored.
    pub open spec fn touching(self, run: RunModel, areas: Seq<ZoneArea>, game: GameView) -> Going
        decreases run.touches.len(),
    {
        if run.touches.len() == 0 {
            self.colliding(run, areas, game)
        } else {
            let touch = run.touches[0];
            let rest = run.touched();
            if self.disabled(touch.contact.target, touch.defeated) {
                self.touching(rest, areas, game)
            } else {
                match self.strike(touch.contact) {
                    Some(strike) => Going {
                        field: self.noting(),
                        run: rest.at(Stage::Striking(touch.contact)),
                        demand: Demand::Call(GameCall::Projectile(strike)),
                    },
                    None => self.reporting(
                        rest,
                        touch.contact,
                        (Applied { hp: 0, shield: 0 }),
                        game,
                    ),
                }
            }
        }
    }

    /// The collisions that are left.
    pub open spec fn colliding(self, run: RunModel, areas: Seq<ZoneArea>, game: GameView) -> Going
        decreases run.collisions.len(),
    {
        if run.collisions.len() == 0 {
            self.sighting(
                (RunModel { sightings: self.sightings(areas, run.bodies), ..run }),
                game,
            )
        } else {
            let bump = run.collisions[0];
            if self.collision_counts(bump.chassis, bump.plate, bump.defeated) {
                Going {
                    field: self.bumped(bump.chassis, bump.plate).noting(),
                    run: run.collided().at(Stage::Colliding),
                    demand: Demand::Call(
                        GameCall::Damage {
                            target: StrikeTarget::Robot(bump.chassis),
                            amount: COLLISION_DAMAGE_HP,
                            kind: DamageKind::Collision,
                        },
                    ),
                }
            } else {
                self.colliding(run.collided(), areas, game)
            }
        }
    }

    /// The sightings that are left; after the last the tick is over, with the
    /// engine's HP mirrored.
    pub open spec fn sighting(self, run: RunModel, game: GameView) -> Going
        decreases run.sightings.len(),
    {
        if run.sightings.len() == 0 {
            self.mirrored(game).between(run)
        } else {
            let seen = run.sightings[0];
            if self.sighting_counts(seen, game) {
                Going {
                    field: self.noting(),
                    run: run.sighted().at(Stage::Sighting),
                    demand: Demand::Call(
                        GameCall::ZoneDetection {
                            robot: seen.robot,
                            zone: seen.zone,
                            detected: seen.detected,
                        },
                    ),
                }
            } else {
                self.sighting(run.sighted(), game)
            }
        }
    }

    /// A step goes on with an event.
    pub open spec fn going(
        self,
        run: RunModel,
        event: Event,
        areas: Seq<ZoneArea>,
        game: GameView,
    ) -> Going {
        match (run.stage, event) {
            (Stage::Ready, Event::Idle(idle)) => self.started(run, idle, game),
            (Stage::Refereeing { physics }, Event::Answer { reply, .. }) => {
                let progress = match self.referee {
                    None => Progress::Done,
                    Some(_) => self.play().resumed(reply, game).1,
                };
                self.heard(reply, game).refereed(run, physics, progress, game)
            },
            (Stage::Moving, Event::Moved { touches, collisions, bodies }) => self.touching(
                (RunModel {
                    touches: touches@,
                    collisions: collisions@,
                    bodies: bodies@,
                    ..run
                }),
                areas,
                game,
            ),
            (Stage::Touching, _) => self.touching(run, areas, game),
            (Stage::Striking(contact), Event::Answer { reply, applied }) => self.heard(
                reply,
                game,
            ).reporting(run, contact, applied, game),
            (Stage::Colliding, Event::Answer { reply, .. }) => self.heard(reply, game).colliding(
                run,
                areas,
                game,
            ),
            (Stage::Sighting, Event::Answer { reply, .. }) => self.heard(reply, game).sighting(
                run,
                game,
            ),
            _ => Going { field: self, run, demand: Demand::Finished },
        }
    }

    /// A step stands where the field can go on with it.
    pub open spec fn carries(self, run: RunModel) -> bool {
        &&& on_field(run.touches, self)
        &&& run.end * self.tick_ns <= u64::MAX
        &&& match run.stage {
            Stage::Refereeing { .. } => self.referee is Some && self.play().resumable()
                && self.referee->0.state.pending != Pending::Nothing,
            Stage::Striking(contact) => self.referee is Some && self.referee->0.state.pending
                == Pending::Noted && self.has_target(contact.target),
            Stage::Colliding | Stage::Sighting => self.referee is Some
                && self.referee->0.state.pending == Pending::Noted,
            _ => self.calm(),
        }
    }

    /// No referee waits.
    pub open spec fn calm(self) -> bool {
        self.referee is Some ==> self.referee->0.state.pending == Pending::Nothing
    }
}

/// What a step came to, had it to end later: where it is over it goes on, and
/// nothing else differs.
pub open spec fn ending_later(a: Going, end: u64) -> Going {
    if a.demand is Finished {
        Going {
            field: a.field,
            run: (RunModel { end, ..a.run }).at(Stage::Ready),
            demand: Demand::Idle,
        }
    } else {
        Going { run: RunModel { end, ..a.run }, ..a }
    }
}

/// What a step asks for fits where it stands.
pub open spec fn fits(a: Going) -> bool {
    &&& (a.run.stage is Over) == (a.demand is Finished || a.demand is Failed)
    &&& (a.run.stage is Ready) == (a.demand is Idle)
    &&& a.run.stage is Ready ==> a.field.tick < a.run.end
    &&& a.demand is Finished ==> a.field.tick >= a.run.end
}

/// A step has nothing left of the parts of a tick that it is past or has not
/// come to.
pub open spec fn tidy(run: RunModel) -> bool {
    match run.stage {
        Stage::Ready | Stage::Refereeing { .. } | Stage::Moving => {
            &&& run.touches.len() == 0
            &&& run.collisions.len() == 0
            &&& run.bodies.len() == 0
            &&& run.sightings.len() == 0
        },
        Stage::Touching | Stage::Striking(_) => run.sightings.len() == 0,
        Stage::Colliding => run.touches.len() == 0 && run.sightings.len() == 0,
        Stage::Sighting => run.touches.len() == 0 && run.collisions.len() == 0,
        Stage::Over => true,
    }
}

/// A step that came to its end has nothing left at all.
pub open spec fn tidy_end(a: Going) -> bool {
    tidy(a.run) && (a.demand is Finished ==> tidy(a.run.at(Stage::Ready)))
}

impl FieldModel {
    proof fn sightings_do_not_look_ahead(self, run: RunModel, end: u64, game: GameView)
        requires
            self.tick <= run.end <= end,
        ensures
            run.end < end ==> self.sighting(RunModel { end, ..run }, game) == ending_later(
                self.sighting(run, game),
                end,
            ),
            self.sighting(run, game).run.end == run.end,
            self.sighting(run, game).field.tick == self.tick,
            self.sighting(run, game).field.referee is Some == self.referee is Some,
            self.sighting(run, game).field.tick_ns == self.tick_ns,
            fits(self.sighting(run, game)),
            run.touches.len() == 0 && run.collisions.len() == 0 ==> tidy_end(
                self.sighting(run, game),
            ),
        decreases run.sightings.len(),
    {
        if run.sightings.len() > 0 && !self.sighting_counts(run.sightings[0], game) {
            self.sightings_do_not_look_ahead(run.sighted(), end, game);
            assert((RunModel { end, ..run }).sighted() == (RunModel { end, ..run.sighted() }));
        }
    }

    proof fn collisions_do_not_look_ahead(
        self,
        run: RunModel,
        end: u64,
        areas: Seq<ZoneArea>,
        game: GameView,
    )
        requires
            self.tick <= run.end <= end,
        ensures
            run.end < end ==> self.colliding(RunModel { end, ..run }, areas, game) == ending_later(
                self.colliding(run, areas, game),
                end,
            ),
            self.colliding(run, areas, game).run.end == run.end,
            self.colliding(run, areas, game).field.tick == self.tick,
            self.colliding(run, areas, game).field.referee is Some == self.referee is Some,
            self.colliding(run, areas, game).field.tick_ns == self.tick_ns,
            fits(self.colliding(run, areas, game)),
            run.touches.len() == 0 && run.sightings.len() == 0 ==> tidy_end(
                self.colliding(run, areas, game),
            ),
        decreases run.collisions.len(),
    {
        if run.collisions.len() == 0 {
            self.sightings_do_not_look_ahead(
                RunModel { sightings: self.sightings(areas, run.bodies), ..run },
                end,
                game,
            );
        } else {
            let bump = run.collisions[0];
            assert((RunModel { end, ..run }).collided() == (RunModel { end, ..run.collided() }));
            if !self.collision_counts(bump.chassis, bump.plate, bump.defeated) {
                self.collisions_do_not_look_ahead(run.collided(), end, areas, game);
            }
        }
    }

    proof fn contacts_do_not_look_ahead(
        self,
        run: RunModel,
        end: u64,
        areas: Seq<ZoneArea>,
        game: GameView,
    )
        requires
            self.tick <= run.end <= end,
        ensures
            run.end < end ==> self.touching(RunModel { end, ..run }, areas, game) == ending_later(
                self.touching(run, areas, game),
                end,
            ),
            self.touching(run, areas, game).run.end == run.end,
            self.touching(run, areas, game).field.tick == self.tick,
            self.touching(run, areas, game).field.referee is Some == self.referee is Some,
            self.touching(run, areas, game).field.tick_ns == self.tick_ns,
            fits(self.touching(run, areas, game)),
            run.sightings.len() == 0 ==> tidy_end(self.touching(run, areas, game)),
        decreases run.touches.len(),
    {
        if run.touches.len() == 0 {
            self.collisions_do_not_look_ahead(run, end, areas, game);
        } else {
            let touch = run.touches[0];
            assert((RunModel { end, ..run }).touched() == (RunModel { end, ..run.touched() }));
            if self.disabled(touch.contact.target, touch.defeated) {
                self.contacts_do_not_look_ahead(run.touched(), end, areas, game);
            }
        }
    }

    /// What a field with a referee or bodies in motion does in a tick does not
    /// depend on where its step ends.
    pub proof fn ticks_do_not_look_ahead(
        self,
        run: RunModel,
        end: u64,
        event: Event,
        areas: Seq<ZoneArea>,
        game: GameView,
    )
        requires
            event.answers(run.stage, self),
            self.tick <= run.end < end,
            run.stage is Ready ==> self.tick < run.end && (self.referee is Some || event
                == Event::Idle(false)),
        ensures
            self.going(RunModel { end, ..run }, event, areas, game) == ending_later(
                self.going(run, event, areas, game),
                end,
            ),
            fits(self.going(run, event, areas, game)),
            self.going(run, event, areas, game).run.end == run.end,
            self.going(run, event, areas, game).field.tick <= run.end,
            self.going(run, event, areas, game).field.referee is Some == self.referee is Some,
            self.going(run, event, areas, game).field.tick_ns == self.tick_ns,
            tidy(run) ==> tidy_end(self.going(run, event, areas, game)),
    {
        match (run.stage, event) {
            (Stage::Moving, Event::Moved { touches, collisions, bodies }) => {
                self.contacts_do_not_look_ahead(
                    RunModel {
                        touches: touches@,
                        collisions: collisions@,
                        bodies: bodies@,
                        ..run
                    },
                    end,
                    areas,
                    game,
                );
            },
            (Stage::Touching, _) => {
                self.contacts_do_not_look_ahead(run, end, areas, game);
            },
            (Stage::Colliding, Event::Answer { reply, .. }) => {
                self.heard(reply, game).collisions_do_not_look_ahead(run, end, areas, game);
            },
            (Stage::Sighting, Event::Answer { reply, .. }) => {
                self.heard(reply, game).sightings_do_not_look_ahead(run, end, game);
            },
            _ => {},
        }
    }

    /// A step never goes back nor passes the tick at which it ends, and it is
    /// finished only there.
    pub proof fn steps_end_on_their_tick(
        self,
        run: RunModel,
        event: Event,
        areas: Seq<ZoneArea>,
        game: GameView,
    )
        requires
            event.answers(run.stage, self),
            self.tick <= run.end,
        ensures
            ({
                let next = self.going(run, event, areas, game);
                &&& next.run.end == run.end
                &&& self.tick <= next.field.tick <= run.end
                &&& next.demand is Finished ==> next.field.tick == run.end
            }),
    {
        match (run.stage, event) {
            (Stage::Moving, Event::Moved { touches, collisions, bodies }) => {
                self.contacts_do_not_look_ahead(
                    RunModel {
                        touches: touches@,
                        collisions: collisions@,
                        bodies: bodies@,
                        ..run
                    },
                    run.end,
                    areas,
                    game,
                );
            },
            (Stage::Touching, _) => {
                self.contacts_do_not_look_ahead(run, run.end, areas, game);
            },
            (Stage::Colliding, Event::Answer { reply, .. }) => {
                self.heard(reply, game).collisions_do_not_look_ahead(run, run.end, areas, game);
            },
            (Stage::Sighting, Event::Answer { reply, .. }) => {
                self.heard(reply, game).sightings_do_not_look_ahead(run, run.end, game);
            },
            _ => {},
        }
    }
}

/// What a step is told: an event, and the engine as it then is.
pub ghost struct Turn {
    pub event: Event,
    pub game: GameView,
}

impl FieldModel {
    /// A step up to a tick that has begun.
    pub open spec fn begun(self, end: u64) -> Going {
        Going {
            field: self,
            run: RunModel {
                end,
                stage: Stage::Ready,
                touches: Seq::empty(),
                collisions: Seq::empty(),
                bodies: Seq::empty(),
                sightings: Seq::empty(),
            },
            demand: Demand::Idle,
        }
    }
}

impl Going {
    /// What the step comes to with one more turn.
    #[verifier::opaque]
    pub open spec fn next(self, turn: Turn, areas: Seq<ZoneArea>) -> Going {
        self.field.going(self.run, turn.event, areas, turn.game)
    }

    /// What the step comes to with turns in a row, until it is over.
    pub open spec fn through(self, turns: Seq<Turn>, areas: Seq<ZoneArea>) -> Going
        decreases turns.len(),
    {
        if turns.len() == 0 || self.run.stage is Over {
            self
        } else {
            self.next(turns[0], areas).through(turns.drop_first(), areas)
        }
    }

    /// The step can take the turns: each answers what was asked for.
    pub open spec fn takes(self, turns: Seq<Turn>, areas: Seq<ZoneArea>) -> bool
        decreases turns.len(),
    {
        turns.len() > 0 ==> {
            &&& self.field.wf()
            &&& self.field.carries(self.run)
            &&& turns[0].event.answers(self.run.stage, self.field)
            &&& self.next(turns[0], areas).takes(turns.drop_first(), areas)
        }
    }

    /// A step under way that has come to its end, had it to end later: it is
    /// between two ticks, or, where nothing moved any more, at that later end.
    proof fn later_end(self, turns: Seq<Turn>, end: u64, areas: Seq<ZoneArea>)
        requires
            self.takes(turns, areas),
            fits(self),
            !(self.run.stage is Over),
            tidy(self.run),
            self.field.tick <= self.run.end < end,
            end * self.field.tick_ns <= u64::MAX,
            self.through(turns, areas).demand is Finished,
        ensures
            ({
                let one = self.through(turns, areas);
                let whole = ending_later(self, end).through(turns, areas);
                &&& turns.len() > 0
                &&& one.field.tick == self.run.end
                &&& one.field.tick_ns == self.field.tick_ns
                &&& one.field.referee is Some == self.field.referee is Some
                &&& if self.field.referee is None && turns.last().event == Event::Idle(true) {
                    &&& whole.demand is Finished
                    &&& whole.run.stage is Over
                    &&& whole.field == one.field.jumped(end)
                } else {
                    whole == one.field.begun(end)
                }
            }),
        decreases turns.len(),
    {
        reveal(Going::next);
        let turn = turns[0];
        let rest = turns.drop_first();
        let next = self.next(turn, areas);
        if next.run.stage is Over {
            over_takes_nothing(next, rest, areas);
        }
        let twin = ending_later(self, end);
        assert(twin.run == (RunModel { end, ..self.run }));
        let jumps = self.run.stage is Ready && self.field.referee is None && turn.event
            == Event::Idle(true);
        if jumps {
            assert(rest.len() == 0);
            assert(turns.last() == turn);
            assert(next.through(rest, areas) == next);
            crate::field::stepping::jumping_in_pieces(self.field, self.run.end, end);
            let leap = twin.next(turn, areas);
            assert(leap.field == self.field.jumped(end));
            assert(leap.through(rest, areas) == leap);
        } else {
            self.field.ticks_do_not_look_ahead(self.run, end, turn.event, areas, turn.game);
            self.field.steps_end_on_their_tick(self.run, turn.event, areas, turn.game);
            assert(twin.next(turn, areas) == ending_later(next, end));
            if next.demand is Finished {
                assert(next.through(rest, areas) == next);
                assert(rest.len() == 0);
                assert(turns.last() == turn);
                let whole = ending_later(next, end);
                assert(whole.through(rest, areas) == whole);
                assert(whole.run.touches =~= Seq::empty());
                assert(whole.run.collisions =~= Seq::empty());
                assert(whole.run.bodies =~= Seq::empty());
                assert(whole.run.sightings =~= Seq::empty());
            } else {
                next.later_end(rest, end, areas);
                assert(turns.last() == rest.last());
            }
        }
    }

    /// Turns in a row are some turns and then the others.
    proof fn through_both(self, first: Seq<Turn>, second: Seq<Turn>, areas: Seq<ZoneArea>)
        ensures
            self.through(first + second, areas) == self.through(first, areas).through(
                second,
                areas,
            ),
        decreases first.len(),
    {
        if first.len() == 0 {
            assert(first + second =~= second);
        } else if !(self.run.stage is Over) {
            assert((first + second).drop_first() =~= first.drop_first() + second);
            self.next(first[0], areas).through_both(first.drop_first(), second, areas);
        }
    }
}

/// Stepping in pieces equals one large step: a step to `middle` and then one
/// to `end` give the field that one step to `end` gives, told the same. Bodies
/// that came to rest stay at rest while nothing but the clock moves.
pub proof fn stepping_in_pieces(
    field: FieldModel,
    middle: u64,
    end: u64,
    first: Seq<Turn>,
    second: Seq<Turn>,
    areas: Seq<ZoneArea>,
)
    requires
        field.tick < middle < end,
        end * field.tick_ns <= u64::MAX,
        field.begun(middle).takes(first, areas),
        field.begun(middle).through(first, areas).demand is Finished,
        ({
            let halfway = field.begun(middle).through(first, areas).field;
            &&& halfway.begun(end).takes(second, areas)
            &&& halfway.begun(end).through(second, areas).demand is Finished
            &&& field.referee is None && first.last().event == Event::Idle(true) ==> second.len()
                > 0 && second[0].event == Event::Idle(true)
        }),
    ensures
        ({
            let halfway = field.begun(middle).through(first, areas).field;
            let pieces = halfway.begun(end).through(second, areas);
            let whole = field.begun(end).through(first + second, areas);
            &&& whole.demand is Finished
            &&& whole.field == pieces.field
            &&& halfway.tick == middle
            &&& whole.field.tick == end
        }),
{
    let start = field.begun(middle);
    assert(ending_later(start, end) == field.begun(end));
    start.later_end(first, end, areas);
    let halfway = start.through(first, areas).field;
    field.begun(end).through_both(first, second, areas);
    let rest = halfway.begun(end);
    if field.referee is None && first.last().event == Event::Idle(true) {
        leaps(halfway, end, second, areas);
    } else {
        ends_on_its_tick(rest, second, areas);
    }
}

/// A step that is over takes no turn.
proof fn over_takes_nothing(step: Going, turns: Seq<Turn>, areas: Seq<ZoneArea>)
    requires
        step.takes(turns, areas),
        step.run.stage is Over,
    ensures
        turns.len() == 0,
{
    if turns.len() > 0 {
        assert(!turns[0].event.answers(step.run.stage, step.field));
    }
}

/// Where nothing but the clock moves, a step leaps to its end.
proof fn leaps(field: FieldModel, end: u64, turns: Seq<Turn>, areas: Seq<ZoneArea>)
    requires
        field.tick < end,
        field.referee is None,
        turns.len() > 0,
        turns[0].event == Event::Idle(true),
    ensures
        field.begun(end).through(turns, areas).field == field.jumped(end),
        field.begun(end).through(turns, areas).demand is Finished,
{
    reveal(Going::next);
    let next = field.begun(end).next(turns[0], areas);
    assert(next.run.stage is Over);
    assert(next.through(turns.drop_first(), areas) == next);
}

/// A step that is finished has come to the tick at which it ends.
proof fn ends_on_its_tick(step: Going, turns: Seq<Turn>, areas: Seq<ZoneArea>)
    requires
        step.takes(turns, areas),
        step.field.tick <= step.run.end,
        step.demand is Finished ==> step.field.tick == step.run.end,
    ensures
        step.through(turns, areas).demand is Finished ==> step.through(turns, areas).field.tick
            == step.run.end,
    decreases turns.len(),
{
    if turns.len() > 0 && !(step.run.stage is Over) {
        reveal(Going::next);
        let turn = turns[0];
        step.field.steps_end_on_their_tick(step.run, turn.event, areas, turn.game);
        ends_on_its_tick(step.next(turn, areas), turns.drop_first(), areas);
    }
}

/// A step of no ticks changes nothing.
pub proof fn stepping_nothing(field: FieldModel, turn: Turn, areas: Seq<ZoneArea>)
    requires
        turn.event is Idle,
    ensures
        field.begun(field.tick).next(turn, areas).field == field,
        field.begun(field.tick).next(turn, areas).demand is Finished,
{
    reveal(Going::next);
}

/// The engine's HP and shields of both bases are in range.
pub open spec fn engine_in_range(game: GameView) -> bool {
    forall|team: Team| (#[trigger] game.team_state(team)).base_hp <= INITIAL_HP && game.team_state(
        team,
    ).base_shield_hp <= INITIAL_HP
}

impl FieldModel {
    proof fn mirroring_stays_in_range(self, game: GameView)
        requires
            bases_in_range(self.bases),
            engine_in_range(game),
        ensures
            bases_in_range(self.mirrored(game).bases),
            bases_in_range(self.tick_settled(game).bases),
    {
    }

    proof fn sightings_stay_in_range(self, run: RunModel, game: GameView)
        requires
            bases_in_range(self.bases),
            engine_in_range(game),
        ensures
            bases_in_range(self.sighting(run, game).field.bases),
        decreases run.sightings.len(),
    {
        self.mirroring_stays_in_range(game);
        if run.sightings.len() > 0 && !self.sighting_counts(run.sightings[0], game) {
            self.sightings_stay_in_range(run.sighted(), game);
        }
    }

    proof fn collisions_stay_in_range(self, run: RunModel, areas: Seq<ZoneArea>, game: GameView)
        requires
            bases_in_range(self.bases),
            engine_in_range(game),
        ensures
            bases_in_range(self.colliding(run, areas, game).field.bases),
        decreases run.collisions.len(),
    {
        if run.collisions.len() == 0 {
            self.sightings_stay_in_range(
                RunModel { sightings: self.sightings(areas, run.bodies), ..run },
                game,
            );
        } else {
            let bump = run.collisions[0];
            if !self.collision_counts(bump.chassis, bump.plate, bump.defeated) {
                self.collisions_stay_in_range(run.collided(), areas, game);
            }
        }
    }

    proof fn reports_stay_in_range(
        self,
        run: RunModel,
        contact: Contact,
        applied: Applied,
        game: GameView,
    )
        requires
            bases_in_range(self.bases),
            engine_in_range(game),
            match contact.target {
                ArmorTarget::Base { base, .. } => base < self.bases.len(),
                _ => true,
            },
        ensures
            bases_in_range(self.reporting(run, contact, applied, game).field.bases),
    {
        self.registered(contact).mirroring_stays_in_range(game);
    }

    proof fn contacts_stay_in_range(self, run: RunModel, areas: Seq<ZoneArea>, game: GameView)
        requires
            bases_in_range(self.bases),
            engine_in_range(game),
            on_field(run.touches, self),
        ensures
            bases_in_range(self.touching(run, areas, game).field.bases),
        decreases run.touches.len(),
    {
        if run.touches.len() == 0 {
            self.collisions_stay_in_range(run, areas, game);
        } else {
            let touch = run.touches[0];
            if self.disabled(touch.contact.target, touch.defeated) {
                assert forall|i: int|
                    0 <= i < run.touched().touches.len() implies self.has_target(
                    (#[trigger] run.touched().touches[i]).contact.target,
                ) by {
                    assert(run.touched().touches[i] == run.touches[i + 1]);
                }
                self.contacts_stay_in_range(run.touched(), areas, game);
            } else {
                self.reports_stay_in_range(
                    run.touched(),
                    touch.contact,
                    Applied { hp: 0, shield: 0 },
                    game,
                );
            }
        }
    }

    /// A step keeps every base's HP and shield in range, as long as the engine
    /// does.
    pub proof fn steps_keep_bases_in_range(
        self,
        run: RunModel,
        event: Event,
        areas: Seq<ZoneArea>,
        game: GameView,
    )
        requires
            self.carries(run),
            event.answers(run.stage, self),
            bases_in_range(self.bases),
            engine_in_range(game),
        ensures
            bases_in_range(self.going(run, event, areas, game).field.bases),
    {
        match (run.stage, event) {
            (Stage::Ready, Event::Idle(idle)) => {
                let next = self.jumped((self.tick + 1) as u64);
                next.mirroring_stays_in_range(game);
                let (after, progress) = next.play().ticked(next.time_ns() as u64, game);
                next.playing(after).mirroring_stays_in_range(game);
            },
            (Stage::Refereeing { .. }, Event::Answer { reply, .. }) => {
                self.heard(reply, game).mirroring_stays_in_range(game);
            },
            (Stage::Moving, Event::Moved { touches, collisions, bodies }) => {
                self.contacts_stay_in_range(
                    RunModel {
                        touches: touches@,
                        collisions: collisions@,
                        bodies: bodies@,
                        ..run
                    },
                    areas,
                    game,
                );
            },
            (Stage::Touching, _) => {
                self.contacts_stay_in_range(run, areas, game);
            },
            (Stage::Striking(contact), Event::Answer { reply, applied }) => {
                self.heard(reply, game).reports_stay_in_range(run, contact, applied, game);
            },
            (Stage::Colliding, Event::Answer { reply, .. }) => {
                self.heard(reply, game).collisions_stay_in_range(run, areas, game);
            },
            (Stage::Sighting, Event::Answer { reply, .. }) => {
                self.heard(reply, game).sightings_stay_in_range(run, game);
            },
            _ => {},
        }
    }
}

impl Field {
    /// Begin a step of `ticks` ticks. A step past the range of the clock is
    /// refused.
    pub fn begin_step(&self, ticks: u64) -> (r: Result<StepRun, FieldError>)
        requires
            self.wf(),
            self@.calm(),
        ensures
            match r {
                Ok(run) => {
                    &&& self.tick + ticks <= u64::MAX
                    &&& (self.tick + ticks) * self.tick_ns <= u64::MAX
                    &&& run@ == (RunModel {
                        end: (self.tick + ticks) as u64,
                        stage: Stage::Ready,
                        touches: Seq::empty(),
                        collisions: Seq::empty(),
                        bodies: Seq::empty(),
                        sightings: Seq::empty(),
                    })
                    &&& self@.carries(run@)
                },
                Err(error) => {
                    &&& self.tick + ticks > u64::MAX || (self.tick + ticks) * self.tick_ns
                        > u64::MAX
                    &&& error == FieldError::TickOverflow
                },
            },
    {
        match self.span(ticks) {
            Err(error) => Err(error),
            Ok(end) => Ok(
                StepRun {
                    end,
                    stage: Stage::Ready,
                    touches: Vec::new(),
                    collisions: Vec::new(),
                    bodies: Vec::new(),
                    sightings: Vec::new(),
                },
            ),
        }
    }

    /// Between two ticks.
    fn step_between(&self, run: &mut StepRun) -> (r: Demand)
        requires
            self.wf(),
            self@.calm(),
            on_field(old(run)@.touches, self@),
            old(run)@.end * self.tick_ns <= u64::MAX,
        ensures
            (Going { field: self@, run: final(run)@, demand: r }) == self@.between(old(run)@),
            self@.carries(final(run)@),
    {
        run.bodies = Vec::new();
        if self.tick >= run.end {
            run.stage = Stage::Over;
            Demand::Finished
        } else {
            run.stage = Stage::Ready;
            Demand::Idle
        }
    }

    /// Finish the referee's part of a tick.
    fn step_settle(&mut self, run: &mut StepRun, physics: bool, game: &GameView) -> (r: Demand)
        requires
            old(self).wf(),
            old(self)@.calm(),
            on_field(old(run)@.touches, old(self)@),
            old(run)@.end * old(self).tick_ns <= u64::MAX,
        ensures
            (Going { field: final(self)@, run: final(run)@, demand: r }) == old(
                self,
            )@.after_referee(old(run)@, physics, *game),
            final(self).wf(),
            final(self)@.carries(final(run)@),
    {
        self.settle_tick(game);
        if physics {
            run.stage = Stage::Moving;
            Demand::Move
        } else {
            self.step_between(run)
        }
    }

    /// Go on as the referee's part of a tick came to.
    fn step_refereed(
        &mut self,
        run: &mut StepRun,
        physics: bool,
        progress: Progress,
        game: &GameView,
    ) -> (r: Demand)
        requires
            old(self).wf(),
            old(self)@.referee is Some,
            old(self)@.play().resumable(),
            progress is Call <==> old(self)@.referee->0.state.pending != Pending::Nothing,
            on_field(old(run)@.touches, old(self)@),
            old(run)@.end * old(self).tick_ns <= u64::MAX,
        ensures
            (Going { field: final(self)@, run: final(run)@, demand: r }) == old(self)@.refereed(
                old(run)@,
                physics,
                progress,
                *game,
            ),
            final(self).wf(),
            final(self)@.carries(final(run)@),
    {
        match progress {
            Progress::Call(call) => {
                run.stage = Stage::Refereeing { physics };
                Demand::Call(call)
            },
            _ => self.step_settle(run, physics, game),
        }
    }

    /// Start the next part of a step.
    fn step_start(&mut self, run: &mut StepRun, idle: bool, game: &GameView) -> (r: Demand)
        requires
            old(self).wf(),
            old(self)@.calm(),
            on_field(old(run)@.touches, old(self)@),
            old(run)@.end * old(self).tick_ns <= u64::MAX,
        ensures
            (Going { field: final(self)@, run: final(run)@, demand: r }) == old(self)@.started(
                old(run)@,
                idle,
                *game,
            ),
            final(self).wf(),
            final(self)@.carries(final(run)@),
    {
        match self.next_action(run.end, idle) {
            StepAction::Finished => self.step_between(run),
            StepAction::Jump => {
                self.advance_to_tick(run.end);
                self.step_between(run)
            },
            StepAction::Tick { physics } => {
                let next: u64 = self.tick + 1;
                proof {
                    let p = self.tick_ns as int;
                    let e = run.end as int;
                    let n = next as int;
                    assert(n * p <= e * p) by (nonlinear_arith)
                        requires
                            n <= e,
                            0 < p,
                    ;
                }
                self.advance_to_tick(next);
                if self.referee.is_none() {
                    return self.step_settle(run, physics, game);
                }
                let progress = self.tick_referee(game);
                self.step_refereed(run, physics, progress, game)
            },
        }
    }

    /// Score a contact, keep it and report it.
    fn step_score(
        &mut self,
        run: &mut StepRun,
        contact: Contact,
        applied: Applied,
        game: &GameView,
    ) -> (r: Demand)
        requires
            old(self).wf(),
            old(self)@.calm(),
            old(self)@.has_target(contact.target),
            on_field(old(run)@.touches, old(self)@),
            old(run)@.end * old(self).tick_ns <= u64::MAX,
        ensures
            (Going { field: final(self)@, run: final(run)@, demand: r }) == old(self)@.reporting(
                old(run)@,
                contact,
                applied,
                *game,
            ),
            final(self).wf(),
            final(self)@.carries(final(run)@),
    {
        match self.score(&contact, applied, game) {
            Ok(hit) => {
                self.keep_hit(hit, contact.ring);
                run.stage = Stage::Touching;
                Demand::Report(hit)
            },
            Err(error) => {
                run.stage = Stage::Over;
                Demand::Failed(error)
            },
        }
    }

    /// Go on with the contacts that are left.
    fn step_touch(&mut self, run: &mut StepRun, areas: &Vec<ZoneArea>, game: &GameView) -> (r:
        Demand)
        requires
            old(self).wf(),
            old(self)@.calm(),
            on_field(old(run)@.touches, old(self)@),
            old(run)@.end * old(self).tick_ns <= u64::MAX,
        ensures
            (Going { field: final(self)@, run: final(run)@, demand: r }) == old(self)@.touching(
                old(run)@,
                areas@,
                *game,
            ),
            final(self).wf(),
            final(self)@.carries(final(run)@),
    {
        while run.touches.len() > 0
            invariant
                *self == *old(self),
                self.wf(),
                self@.calm(),
                on_field(run@.touches, self@),
                run@.end * self.tick_ns <= u64::MAX,
                self@.touching(run@, areas@, *game) == old(self)@.touching(
                    old(run)@,
                    areas@,
                    *game,
                ),
            decreases run.touches@.len(),
        {
            let ghost before = run@;
            let touch = run.touches.remove(0);
            proof {
                assert(before.touches[0] == touch);
                assert(run@ == before.touched());
            }
            if !self.armor_disabled(touch.contact.target, touch.defeated) {
                let strike = self.strike(&touch.contact);
                match strike {
                    Some(strike) => {
                        if let Some(referee) = &mut self.referee {
                            let _ = referee.projectile_hit(strike);
                        }
                        run.stage = Stage::Striking(touch.contact);
                        return Demand::Call(GameCall::Projectile(strike));
                    },
                    None => {
                        return self.step_score(
                            run,
                            touch.contact,
                            Applied { hp: 0, shield: 0 },
                            game,
                        );
                    },
                }
            }
        }
        self.step_collide(run, areas, game)
    }

    /// Go on with the collisions that are left.
    fn step_collide(&mut self, run: &mut StepRun, areas: &Vec<ZoneArea>, game: &GameView) -> (r:
        Demand)
        requires
            old(self).wf(),
            old(self)@.calm(),
            on_field(old(run)@.touches, old(self)@),
            old(run)@.end * old(self).tick_ns <= u64::MAX,
        ensures
            (Going { field: final(self)@, run: final(run)@, demand: r }) == old(self)@.colliding(
                old(run)@,
                areas@,
                *game,
            ),
            final(self).wf(),
            final(self)@.carries(final(run)@),
    {
        let ghost start = self@;
        while run.collisions.len() > 0
            invariant
                self@ == start,
                self.wf(),
                self@.calm(),
                on_field(run@.touches, self@),
                run@.end * self.tick_ns <= u64::MAX,
                start.colliding(run@, areas@, *game) == old(self)@.colliding(
                    old(run)@,
                    areas@,
                    *game,
                ),
            decreases run.collisions@.len(),
        {
            let ghost before = run@;
            let bump = run.collisions.remove(0);
            proof {
                assert(before.collisions[0] == bump);
                assert(run@ == before.collided());
            }
            if self.collide(bump.chassis, bump.plate, bump.defeated) {
                if let Some(referee) = &mut self.referee {
                    let _ = referee.damage(
                        StrikeTarget::Robot(bump.chassis),
                        COLLISION_DAMAGE_HP,
                        DamageKind::Collision,
                    );
                }
                run.stage = Stage::Colliding;
                return Demand::Call(
                    GameCall::Damage {
                        target: StrikeTarget::Robot(bump.chassis),
                        amount: COLLISION_DAMAGE_HP,
                        kind: DamageKind::Collision,
                    },
                );
            }
        }
        run.sightings = self.observe_zones(areas, &run.bodies);
        self.step_sight(run, game)
    }

    /// Go on with the sightings that are left.
    fn step_sight(&mut self, run: &mut StepRun, game: &GameView) -> (r: Demand)
        requires
            old(self).wf(),
            old(self)@.calm(),
            on_field(old(run)@.touches, old(self)@),
            old(run)@.end * old(self).tick_ns <= u64::MAX,
        ensures
            (Going { field: final(self)@, run: final(run)@, demand: r }) == old(self)@.sighting(
                old(run)@,
                *game,
            ),
            final(self).wf(),
            final(self)@.carries(final(run)@),
    {
        let ghost start = self@;
        while run.sightings.len() > 0
            invariant
                self@ == start,
                self.wf(),
                self@.calm(),
                on_field(run@.touches, self@),
                run@.end * self.tick_ns <= u64::MAX,
                start.sighting(run@, *game) == old(self)@.sighting(old(run)@, *game),
            decreases run.sightings@.len(),
        {
            let ghost before = run@;
            let seen = run.sightings.remove(0);
            proof {
                assert(before.sightings[0] == seen);
                assert(run@ == before.sighted());
            }
            if let Some(referee) = &mut self.referee {
                let progress = referee.observe_zone(seen.robot, seen.zone, seen.detected, game);
                if let Progress::Call(call) = progress {
                    run.stage = Stage::Sighting;
                    return Demand::Call(call);
                }
            }
        }
        self.sync_structures(game);
        self.step_between(run)
    }

    /// Go on with a step: `event` answers what it asked for last, `areas` are
    /// the field's buff points, and `game` is the engine's state. Before each
    /// demand but a call the bodies follow the rules: defeated robots stand
    /// still and mechanisms are where the referee has them.
    pub fn go_on(
        &mut self,
        run: &mut StepRun,
        event: Event,
        areas: &Vec<ZoneArea>,
        game: &GameView,
    ) -> (r: Demand)
        requires
            old(self).wf(),
            old(self)@.carries(old(run)@),
            event.answers(old(run)@.stage, old(self)@),
        ensures
            (Going { field: final(self)@, run: final(run)@, demand: r }) == old(self)@.going(
                old(run)@,
                event,
                areas@,
                *game,
            ),
            final(self).wf(),
            final(self)@.carries(final(run)@),
    {
        match event {
            Event::Idle(idle) => self.step_start(run, idle, game),
            Event::Moved { touches, collisions, bodies } => {
                run.touches = touches;
                run.collisions = collisions;
                run.bodies = bodies;
                self.step_touch(run, areas, game)
            },
            Event::Seen => self.step_touch(run, areas, game),
            Event::Answer { reply, applied } => {
                proof {
                    reveal(crate::referee::model::Play::resumed);
                }
                let progress = self.resume_referee(reply, game);
                match run.stage {
                    Stage::Refereeing { physics } => self.step_refereed(
                        run,
                        physics,
                        progress,
                        game,
                    ),
                    Stage::Striking(contact) => self.step_score(run, contact, applied, game),
                    Stage::Colliding => self.step_collide(run, areas, game),
                    _ => self.step_sight(run, game),
                }
            },
        }
    }
}

} // verus!

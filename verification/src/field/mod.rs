//! The field: bases, runes, outposts and the optional referee on one clock.
//!
//! The field does not hold the physics. Whoever steps the bodies hands each
//! contact in and learns what it was worth; where the gameplay engine has to
//! apply a strike, the field says which.

pub mod bodies;
pub mod course;
pub mod detection;
pub mod laws;
pub mod layout;
pub mod memory;
pub mod run;
pub mod scoring;
pub mod stepping;

use crate::base::BaseSnapshot;
use crate::outpost::Outpost;
use crate::projectile::ArmorHit;
use crate::referee::machine::Referee;
use crate::referee::model::{models, RefereeModel};
use crate::rune::runner::{Rune, RuneModel};
use crate::rune::RuneError;
use crate::target::ArmorTarget;
use detection::Detections;
use memory::in_memory;
use vstd::prelude::*;

verus! {

/// Everything a field can refuse.
#[derive(Clone, Copy, Debug, PartialEq, Eq)]
pub enum FieldError {
    /// A rune pose or motion parameter failed validation, the speed function's
    /// bounds among them.
    Rune(RuneError),
    /// An outpost origin, pivot or speed failed validation.
    Outpost(&'static str),
    /// The shot could not be launched.
    Shot(&'static str),
    /// An unknown chassis id or a rejected chassis placement.
    Chassis(&'static str),
    /// A collision mesh or projectile bound was rejected.
    Mesh(&'static str),
    /// The physics step could not resolve its scoring target frames.
    Ballistics(&'static str),
    /// A step would carry the tick counter past the range of the clock.
    TickOverflow,
    /// The referee refused the command, or the field has no referee.
    Referee(&'static str),
    /// The snapshot cannot rebuild a field.
    Restore(&'static str),
}

/// The rules of a field.
#[derive(Clone, Debug, PartialEq, Eq)]
pub struct Field {
    /// Live bases.
    pub bases: Vec<BaseSnapshot>,
    /// Length of a tick.
    pub tick_ns: u64,
    /// Ticks elapsed since the field was built.
    pub tick: u64,
    /// Power Runes in referee index order.
    pub runes: Vec<Rune>,
    /// Outposts in referee index order.
    pub outposts: Vec<Outpost>,
    /// Armor contacts from the last second, oldest first.
    pub hits: Vec<ArmorHit>,
    /// Contacts that passed every detection condition.
    pub hits_detected: u64,
    /// When each module last registered a strike.
    pub last_detection_ns: Detections,
    /// The match referee.
    pub referee: Option<Referee>,
}

/// What a field is.
pub ghost struct FieldModel {
    pub bases: Seq<BaseSnapshot>,
    pub tick_ns: u64,
    pub tick: u64,
    pub runes: Seq<RuneModel>,
    pub outposts: Seq<Outpost>,
    pub hits: Seq<ArmorHit>,
    pub hits_detected: u64,
    pub last_detection_ns: Map<ArmorTarget, u64>,
    pub referee: Option<RefereeModel>,
}

impl View for Field {
    type V = FieldModel;

    open spec fn view(&self) -> FieldModel {
        FieldModel {
            bases: self.bases@,
            tick_ns: self.tick_ns,
            tick: self.tick,
            runes: models(self.runes@),
            outposts: self.outposts@,
            hits: self.hits@,
            hits_detected: self.hits_detected,
            last_detection_ns: self.last_detection_ns@,
            referee: match self.referee {
                Some(referee) => Some(referee@),
                None => None,
            },
        }
    }
}

impl FieldModel {
    /// The field's own clock.
    pub open spec fn time_ns(self) -> int {
        self.tick * self.tick_ns
    }

    /// The clock can be held, no rune and no referee is ahead of it, and the
    /// runes, outposts and the referee keep their invariants; every base has a
    /// valid layout, the contacts are those of the last second, oldest first,
    /// and the referee has an owner for every rune and outpost.
    pub open spec fn wf(self) -> bool {
        &&& self.tick_ns > 0
        &&& self.time_ns() <= u64::MAX
        &&& forall|i: int|
            0 <= i < self.runes.len() ==> (#[trigger] self.runes[i]).wf()
                && self.runes[i].time_ns() <= self.time_ns()
        &&& forall|i: int| 0 <= i < self.outposts.len() ==> (#[trigger] self.outposts[i]).wf()
        &&& forall|i: int| 0 <= i < self.bases.len() ==> (#[trigger] self.bases[i]).config.valid()
        &&& in_memory(self.hits, self.time_ns())
        &&& match self.referee {
            Some(referee) => {
                &&& referee.wf()
                &&& referee.state.now_ns <= self.time_ns()
                &&& referee.config.rune_teams.len() == self.runes.len()
                &&& referee.config.outpost_teams.len() == self.outposts.len()
            },
            None => true,
        }
    }
}

impl Field {
    /// The field's invariant.
    pub open spec fn wf(self) -> bool {
        self@.wf() && self.last_detection_ns.wf()
    }

    /// Ticks elapsed since the field was built.
    pub fn tick(&self) -> (r: u64)
        ensures
            r == self.tick,
    {
        self.tick
    }

    /// Ticks times the length of a tick: the field's own clock, never the
    /// host's.
    pub fn time_ns(&self) -> (r: u64)
        requires
            self.wf(),
        ensures
            r == self@.time_ns(),
    {
        self.tick * self.tick_ns
    }
}

} // verus!

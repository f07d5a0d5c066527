//! Outpost towers: HP, and when the rotor turns.
//!
//! The rotor angle is a real number and is kept by whoever draws the tower:
//! the rules say from when the rotor turns, when it stopped, and whether it
//! goes home.
use crate::base::lesser;
use crate::binary::{abs_at_most, at_most, finite, is_abs_at_most, is_finite, Pose};
use vstd::prelude::*;

verus! {

/// Outpost HP at the start of a match.
pub const INITIAL_HP: u32 = 1500;

/// The pattern of 10.0: the largest rotor speed in rad/s.
pub const SPEED_LIMIT: u64 = 0x4024_0000_0000_0000;

/// A rotating outpost tower with its own HP. Rotation is a function of time:
/// the tower spins at its configured rate until it is stopped or destroyed.
#[derive(Clone, Copy, Debug, PartialEq, Eq)]
pub struct Outpost {
    /// CAD-space rotor pivot in metres.
    pub pivot_cad_m: [u64; 3],
    /// Tower base pose.
    pub origin: Pose,
    /// Rotor speed in rad/s.
    pub speed_rad_s: u64,
    /// Remaining HP.
    pub hp: u32,
    /// The tower plays a match.
    pub in_match: bool,
    /// The rotor rests until this time.
    pub starts_ns: u64,
    /// When the rotor stopped.
    pub stopped_ns: Option<u64>,
    /// The stopped rotor returns to its home angle instead of holding.
    pub homing: bool,
}

/// One outpost frame at an authoritative tick.
#[derive(Clone, Copy, Debug, PartialEq, Eq)]
pub struct OutpostSnapshot {
    /// Rotor speed in rad/s.
    pub speed_rad_s: u64,
    /// CAD-space rotor pivot in metres.
    pub pivot_cad_m: [u64; 3],
    /// Field time this frame was taken at.
    pub time_ns: u64,
    /// Tower base pose.
    pub origin: Pose,
    /// Remaining outpost HP.
    pub hp: u32,
    /// HP reached zero.
    pub destroyed: bool,
    /// The rotor rests until this time.
    pub starts_ns: u64,
    /// When the rotor stopped.
    pub stopped_ns: Option<u64>,
    /// The stopped rotor returns to its home angle.
    pub homing: bool,
}

/// What a tower has to be built from: a finite pivot.
pub open spec fn pivot_valid(pivot_cad_m: [u64; 3]) -> bool {
    finite(pivot_cad_m[0]) && finite(pivot_cad_m[1]) && finite(pivot_cad_m[2])
}

/// What a tower has to be built from: a finite origin and a bounded speed.
pub open spec fn stand_valid(origin: Pose, unit_rotation: bool, speed_rad_s: u64) -> bool {
    &&& finite(origin.translation_m[0])
    &&& finite(origin.translation_m[1])
    &&& finite(origin.translation_m[2])
    &&& unit_rotation
    &&& finite(speed_rad_s)
    &&& abs_at_most(speed_rad_s, SPEED_LIMIT)
}

/// Refuse a pivot that is not finite, then an origin or speed that is not
/// valid.
pub open spec fn stand_check(
    pivot_cad_m: [u64; 3],
    origin: Pose,
    unit_rotation: bool,
    speed_rad_s: u64,
) -> Result<(), &'static str> {
    if !pivot_valid(pivot_cad_m) {
        Err("nonfinite outpost pivot")
    } else if !stand_valid(origin, unit_rotation, speed_rad_s) {
        Err(
            "outpost origin must be finite with a unit rotation and |speed| must be <= 10 rad/s",
        )
    } else {
        Ok(())
    }
}

/// Refuse a pivot that is not finite, then an origin or speed that is not
/// valid.
fn check_stand(
    pivot_cad_m: [u64; 3],
    origin: Pose,
    unit_rotation: bool,
    speed_rad_s: u64,
) -> (r: Result<(), &'static str>)
    ensures
        r == stand_check(pivot_cad_m, origin, unit_rotation, speed_rad_s),
{
    if !is_finite(pivot_cad_m[0]) || !is_finite(pivot_cad_m[1]) || !is_finite(pivot_cad_m[2]) {
        return Err("nonfinite outpost pivot");
    }
    if !is_finite(origin.translation_m[0]) || !is_finite(origin.translation_m[1]) || !is_finite(
        origin.translation_m[2],
    ) || !unit_rotation || !is_finite(speed_rad_s) || !is_abs_at_most(speed_rad_s, SPEED_LIMIT) {
        return Err(
            "outpost origin must be finite with a unit rotation and |speed| must be <= 10 rad/s",
        );
    }
    Ok(())
}

impl Outpost {
    /// The tower stands as its constructor accepts it, its rotation of unit
    /// length.
    pub open spec fn stands(self) -> bool {
        stand_check(self.pivot_cad_m, self.origin, true, self.speed_rad_s) is Ok
    }

    /// The tower stands, HP is bounded, a destroyed tower does not turn, and a
    /// standing one has a stopped rotor only in a match.
    pub open spec fn wf(self) -> bool {
        &&& self.stands()
        &&& self.hp <= INITIAL_HP
        &&& self.hp == 0 ==> self.stopped_ns is Some
        &&& self.hp > 0 && self.stopped_ns is Some ==> self.in_match
        &&& self.homing ==> self.in_match && self.stopped_ns is Some
    }

    /// A tower with its configured motion. `unit_rotation` says whether the
    /// origin's rotation has unit length.
    pub fn with_pivot(
        origin: Pose,
        unit_rotation: bool,
        speed_rad_s: u64,
        pivot_cad_m: [u64; 3],
    ) -> (r: Result<Outpost, &'static str>)
        ensures
            match stand_check(pivot_cad_m, origin, unit_rotation, speed_rad_s) {
                Err(reason) => r == Err::<Outpost, &'static str>(reason),
                Ok(()) => r == Ok::<Outpost, &'static str>(
                    Outpost {
                        pivot_cad_m,
                        origin,
                        speed_rad_s,
                        hp: INITIAL_HP,
                        in_match: false,
                        starts_ns: 0,
                        stopped_ns: None,
                        homing: false,
                    },
                ),
            },
            r is Ok ==> r->Ok_0.wf(),
    {
        match check_stand(pivot_cad_m, origin, unit_rotation, speed_rad_s) {
            Err(reason) => Err(reason),
            Ok(()) => Ok(
                Outpost {
                    pivot_cad_m,
                    origin,
                    speed_rad_s,
                    hp: INITIAL_HP,
                    in_match: false,
                    starts_ns: 0,
                    stopped_ns: None,
                    homing: false,
                },
            ),
        }
    }

    /// Re-check what the constructor and the rules keep on a decoded tower.
    pub fn validate(&self, unit_rotation: bool) -> (r: Result<(), &'static str>)
        ensures
            r == (match stand_check(
                self.pivot_cad_m,
                self.origin,
                unit_rotation,
                self.speed_rad_s,
            ) {
                Err(reason) => Err(reason),
                Ok(()) => if self.wf() {
                    Ok(())
                } else {
                    Err("outpost HP and destruction disagree")
                },
            }),
    {
        match check_stand(self.pivot_cad_m, self.origin, unit_rotation, self.speed_rad_s) {
            Err(reason) => Err(reason),
            Ok(()) => if self.hp > INITIAL_HP || (self.hp == 0 && self.stopped_ns.is_none()) || (
            self.hp > 0 && self.stopped_ns.is_some() && !self.in_match) || (self.homing && (
            !self.in_match || self.stopped_ns.is_none())) {
                Err("outpost HP and destruction disagree")
            } else {
                Ok(())
            },
        }
    }

    /// The tower after losing `amount` at `time_ns`.
    pub open spec fn damaged(self, time_ns: u64, amount: u32) -> Outpost {
        if self.hp == 0 {
            self
        } else {
            let left = (self.hp - lesser(amount as int, self.hp as int)) as u32;
            Outpost {
                hp: left,
                stopped_ns: if left == 0 && self.stopped_ns is None {
                    Some(time_ns)
                } else {
                    self.stopped_ns
                },
                ..self
            }
        }
    }

    /// Remove HP for a detected strike at `time_ns`; returns the HP actually
    /// lost. Rotation freezes when the outpost is destroyed.
    pub fn damage(&mut self, time_ns: u64, amount: u32) -> (r: u32)
        requires
            old(self).wf(),
        ensures
            r == lesser(amount as int, old(self).hp as int),
            *final(self) == old(self).damaged(time_ns, amount),
            final(self).wf(),
    {
        if self.hp == 0 {
            return 0;
        }
        let lost: u32 = if amount < self.hp {
            amount
        } else {
            self.hp
        };
        self.hp = self.hp - lost;
        if self.hp == 0 && self.stopped_ns.is_none() {
            self.stopped_ns = Some(time_ns);
        }
        lost
    }

    /// Operator HP correction. In training a revived tower spins again; in a
    /// match a stopped rotor stays stopped.
    pub fn set_hp(&mut self, time_ns: u64, hp: u32) -> (r: Result<(), &'static str>)
        requires
            old(self).wf(),
        ensures
            r == (if hp > INITIAL_HP {
                Err("outpost HP must be at most 1500")
            } else {
                Ok(())
            }),
            r is Ok <==> hp <= 1500,
            r is Ok ==> final(self).hp == hp,
            *final(self) == (if hp > INITIAL_HP {
                *old(self)
            } else {
                old(self).with_hp(time_ns, hp)
            }),
            final(self).wf(),
    {
        if hp > INITIAL_HP {
            return Err("outpost HP must be at most 1500");
        }
        if hp == 0 {
            let all: u32 = self.hp;
            self.damage(time_ns, all);
        } else {
            self.hp = hp;
            if !self.in_match {
                self.stopped_ns = None;
            }
        }
        Ok(())
    }

    /// The tower with its HP set at `time_ns`.
    pub open spec fn with_hp(self, time_ns: u64, hp: u32) -> Outpost {
        if hp == 0 {
            self.damaged(time_ns, self.hp)
        } else {
            Outpost {
                hp,
                stopped_ns: if self.in_match {
                    self.stopped_ns
                } else {
                    None
                },
                ..self
            }
        }
    }

    /// The tower at full HP in a match that starts at `start_ns`.
    pub open spec fn in_match_from(self, start_ns: u64) -> Outpost {
        Outpost {
            hp: INITIAL_HP,
            in_match: true,
            starts_ns: start_ns,
            stopped_ns: None,
            homing: false,
            ..self
        }
    }

    /// Take part in a match whose round starts at `start_ns`, at full HP; the
    /// rotor rests until then.
    pub fn start_match(&mut self, start_ns: u64)
        ensures
            *final(self) == old(self).in_match_from(start_ns),
            old(self).wf() ==> final(self).wf(),
    {
        self.hp = INITIAL_HP;
        self.in_match = true;
        self.starts_ns = start_ns;
        self.stopped_ns = None;
        self.homing = false;
    }

    /// The tower back in training.
    pub open spec fn in_training(self) -> Outpost {
        Outpost {
            hp: INITIAL_HP,
            in_match: false,
            starts_ns: 0,
            stopped_ns: None,
            homing: false,
            ..self
        }
    }

    /// Back to training at full HP: the rotor turns.
    pub fn reset_training(&mut self)
        ensures
            *final(self) == old(self).in_training(),
            old(self).wf() ==> final(self).wf(),
    {
        self.hp = INITIAL_HP;
        self.in_match = false;
        self.starts_ns = 0;
        self.stopped_ns = None;
        self.homing = false;
    }

    /// The tower with its rotor sent home at `time_ns`, when it plays a match
    /// and has not stopped before.
    pub open spec fn stopped(self, time_ns: u64) -> Outpost {
        if self.in_match && self.stopped_ns is None {
            Outpost { stopped_ns: Some(time_ns), homing: true, ..self }
        } else {
            self
        }
    }

    /// Stop the rotor of a match for the rest of the round and send it home.
    /// One that stopped before keeps its time.
    pub fn stop(&mut self, time_ns: u64)
        requires
            old(self).wf(),
        ensures
            *final(self) == old(self).stopped(time_ns),
            final(self).wf(),
    {
        if self.in_match && self.stopped_ns.is_none() {
            self.stopped_ns = Some(time_ns);
            self.homing = true;
        }
    }

    /// Tower base pose, unchanged by rotation.
    pub fn origin(&self) -> (r: Pose)
        ensures
            r == self.origin,
    {
        self.origin
    }

    /// Remaining HP; zero means the tower is destroyed and frozen.
    pub fn hp(&self) -> (r: u32)
        ensures
            r == self.hp,
    {
        self.hp
    }

    /// The frame that [`Outpost::snapshot`] takes.
    pub open spec fn frame(self, time_ns: u64) -> OutpostSnapshot {
        OutpostSnapshot {
            speed_rad_s: self.speed_rad_s,
            pivot_cad_m: self.pivot_cad_m,
            time_ns,
            origin: self.origin,
            hp: self.hp,
            destroyed: self.hp == 0,
            starts_ns: self.starts_ns,
            stopped_ns: self.stopped_ns,
            homing: self.homing,
        }
    }

    /// The tower's frame at `time_ns`. Reading it never advances the field.
    pub fn snapshot(&self, time_ns: u64) -> (r: OutpostSnapshot)
        ensures
            r == self.frame(time_ns),
    {
        OutpostSnapshot {
            speed_rad_s: self.speed_rad_s,
            pivot_cad_m: self.pivot_cad_m,
            time_ns,
            origin: self.origin,
            hp: self.hp,
            destroyed: self.hp == 0,
            starts_ns: self.starts_ns,
            stopped_ns: self.stopped_ns,
            homing: self.homing,
        }
    }
}

impl OutpostSnapshot {
    /// How long the rotor has turned in this frame, from its start until it
    /// stopped; none for one that went home. The rotor's angle is its speed
    /// times that.
    pub open spec fn turned(self) -> u64 {
        let until = match self.stopped_ns {
            Some(stop) if stop < self.time_ns => stop,
            _ => self.time_ns,
        };
        if self.homing || until < self.starts_ns {
            0
        } else {
            (until - self.starts_ns) as u64
        }
    }

    /// How long the rotor has turned in this frame.
    pub fn turned_ns(&self) -> (r: u64)
        ensures
            r == self.turned(),
    {
        if self.homing {
            return 0;
        }
        let until: u64 = match self.stopped_ns {
            Some(stop) => if stop < self.time_ns {
                stop
            } else {
                self.time_ns
            },
            None => self.time_ns,
        };
        until.saturating_sub(self.starts_ns)
    }

    /// The frame as it is shown at a later time: the clock goes on, a destroyed
    /// tower stays as it was.
    pub open spec fn presented(self, time_ns: u64) -> OutpostSnapshot {
        if self.destroyed || time_ns <= self.time_ns {
            self
        } else {
            OutpostSnapshot { time_ns, ..self }
        }
    }

    /// The frame as it is shown at a later time; HP and destruction are
    /// retained.
    pub fn presentation_at(&self, time_ns: u64) -> (r: OutpostSnapshot)
        ensures
            r == self.presented(time_ns),
    {
        if self.destroyed || time_ns <= self.time_ns {
            *self
        } else {
            OutpostSnapshot { time_ns, ..*self }
        }
    }
}

/// What is shown of a standing tower at a later time is its own frame then, and
/// what is shown of a destroyed one does not change.
pub proof fn presentation_follows_the_rotor(tower: Outpost, time_ns: u64, later: u64)
    requires
        time_ns <= later,
    ensures
        tower.hp > 0 ==> tower.frame(time_ns).presented(later) == tower.frame(later),
        tower.hp == 0 ==> tower.frame(time_ns).presented(later) == tower.frame(time_ns),
{
}

/// A destroyed tower keeps the moment its rotor stopped, whatever strikes it
/// after, and its rotor turns no further.
pub proof fn destruction_freezes_the_rotor(tower: Outpost, t: u64, later: u64, amount: u32)
    requires
        tower.wf(),
        tower.damaged(t, amount).hp == 0,
        tower.stopped_ns is Some ==> tower.stopped_ns->0 <= t,
        t <= later,
    ensures
        tower.damaged(t, amount).stopped_ns is Some,
        forall|more: u32|
            #[trigger] tower.damaged(t, amount).damaged(later, more) == tower.damaged(t, amount),
        tower.damaged(t, amount).frame(later).turned() == tower.damaged(t, amount).frame(
            t,
        ).turned(),
        tower.damaged(t, amount).frame(later).speed_rad_s == tower.speed_rad_s,
{
}

/// Once the rotor of a match has stopped, neither strikes nor HP corrections
/// start it again, and it keeps the moment it stopped.
pub proof fn a_match_rotor_stays_stopped(tower: Outpost, t: u64, amount: u32, hp: u32)
    requires
        tower.in_match,
        tower.stopped_ns is Some,
    ensures
        tower.damaged(t, amount).stopped_ns == tower.stopped_ns,
        tower.with_hp(t, hp).stopped_ns == tower.stopped_ns,
        tower.stopped(t).stopped_ns == tower.stopped_ns,
{
}

/// A strike takes HP from a tower and nothing else, never more than it has. The
/// strike that takes the last stops the rotor then and there, unless it had
/// stopped before.
pub proof fn a_strike_takes_hp(tower: Outpost, t: u64, amount: u32)
    ensures
        ({
            let after = tower.damaged(t, amount);
            &&& tower.hp <= amount ==> after.hp == 0
            &&& amount < tower.hp ==> after.hp + amount == tower.hp && after.stopped_ns
                == tower.stopped_ns
            &&& tower.hp > 0 && after.hp == 0 && tower.stopped_ns is None ==> after.stopped_ns
                == Some(t)
            &&& tower.stopped_ns is Some ==> after.stopped_ns == tower.stopped_ns
            &&& tower == (Outpost { hp: tower.hp, stopped_ns: tower.stopped_ns, ..after })
        }),
{
}

/// An HP correction gives the tower exactly that HP. In training a tower that
/// gets HP turns; one that gets none stops at that time.
pub proof fn a_correction_sets_hp(tower: Outpost, t: u64, hp: u32)
    ensures
        ({
            let after = tower.with_hp(t, hp);
            &&& after.hp == hp
            &&& hp > 0 && !tower.in_match ==> after.stopped_ns is None
            &&& hp == 0 && tower.hp > 0 && tower.stopped_ns is None ==> after.stopped_ns == Some(t)
            &&& tower == (Outpost { hp: tower.hp, stopped_ns: tower.stopped_ns, ..after })
        }),
{
}

/// A tower enters a match whole and at rest until the round starts, and
/// training whole and turning from the field's first moment on.
pub proof fn towers_begin_whole(tower: Outpost, start_ns: u64, t: u64)
    ensures
        ({
            let playing = tower.in_match_from(start_ns);
            let training = tower.in_training();
            &&& playing.hp == 1500 && training.hp == 1500
            &&& playing.in_match && !training.in_match
            &&& t <= start_ns ==> playing.frame(t).turned() == 0
            &&& start_ns <= t ==> playing.frame(t).turned() == t - start_ns
            &&& training.frame(t).turned() == t
        }),
{
}

/// A rotor turns from its start on, as long as time passes, and not beyond the
/// moment it stopped; one that was sent home shows no turn at all.
pub proof fn a_rotor_turns_with_time(tower: Outpost, sooner: u64, later: u64)
    requires
        tower.starts_ns <= sooner <= later,
    ensures
        tower.stopped_ns is None && !tower.homing ==> tower.frame(later).turned() - tower.frame(
            sooner,
        ).turned() == later - sooner,
        tower.stopped_ns is Some && tower.stopped_ns->0 <= sooner ==> tower.frame(later).turned()
            == tower.frame(sooner).turned(),
        tower.stopped_ns is Some && tower.starts_ns <= tower.stopped_ns->0 <= sooner
            && !tower.homing ==> tower.frame(later).turned() == tower.stopped_ns->0
            - tower.starts_ns,
        tower.homing ==> tower.frame(later).turned() == 0,
{
}

/// A rotor is sent home in a match only, once, and costs no HP.
pub proof fn a_rotor_is_sent_home_once(tower: Outpost, t: u64, later: u64)
    ensures
        !tower.in_match ==> tower.stopped(t) == tower,
        tower.in_match && tower.stopped_ns is None ==> tower.stopped(t).stopped_ns == Some(t)
            && tower.stopped(t).homing,
        tower.in_match ==> tower.stopped(t).stopped(later) == tower.stopped(t),
        tower.stopped(t).hp == tower.hp,
        tower.stopped(t).speed_rad_s == tower.speed_rad_s,
{
}

/// A frame shows a tower destroyed exactly when it has no HP left.
pub proof fn a_frame_shows_the_tower(tower: Outpost, t: u64)
    ensures
        tower.frame(t).destroyed <==> tower.hp == 0,
        tower.frame(t).hp == tower.hp,
        tower.frame(t).time_ns == t,
        tower.frame(t).origin == tower.origin,
        tower.frame(t).speed_rad_s == tower.speed_rad_s,
        tower.frame(t).pivot_cad_m == tower.pivot_cad_m,
{
}

/// A tower is built only from finite numbers, a unit rotation and a speed of at
/// most 10 rad/s either way.
pub proof fn towers_stand_on_sound_numbers(
    pivot_cad_m: [u64; 3],
    origin: Pose,
    unit_rotation: bool,
    speed_rad_s: u64,
)
    ensures
        stand_check(pivot_cad_m, origin, unit_rotation, speed_rad_s) is Ok <==> {
            &&& finite(pivot_cad_m[0]) && finite(pivot_cad_m[1]) && finite(pivot_cad_m[2])
            &&& finite(origin.translation_m[0]) && finite(origin.translation_m[1]) && finite(
                origin.translation_m[2],
            )
            &&& unit_rotation
            &&& at_most(speed_rad_s, 0x4024_0000_0000_0000)
            &&& at_most(0xc024_0000_0000_0000, speed_rad_s)
        },
{
}

/// What holds of every tower: it stands, has at most 1500 HP, a rotor that
/// stopped where it has none, and otherwise a turning one but for a match; a
/// rotor goes home only in a match, once it has stopped.
pub proof fn what_holds_of_towers(tower: Outpost)
    ensures
        tower.wf() ==> {
            &&& tower.hp <= 1500
            &&& tower.hp == 0 ==> tower.stopped_ns is Some
            &&& tower.hp > 0 && !tower.in_match ==> tower.stopped_ns is None
            &&& tower.homing ==> tower.in_match && tower.stopped_ns is Some
        },
        tower.stands() && tower.hp <= 1500 && tower.hp > 0 && tower.stopped_ns is None
            && !tower.homing ==> tower.wf(),
        tower.stands() && tower.hp <= 1500 && tower.in_match && tower.stopped_ns is Some
            ==> tower.wf(),
        tower.stands() && tower.hp == 0 && tower.stopped_ns is Some && !tower.homing
            ==> tower.wf(),
{
}

} // verus!

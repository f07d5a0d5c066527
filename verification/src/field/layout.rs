//! Building a field from its layout, and rebuilding one from a snapshot.
use super::detection::{times, Detections};
use super::memory::{
    are_in_memory, in_memory, memory_is_settled, settle_hits, settled, settling_is_in_memory,
};
use super::run::engine_in_range;
use super::{Field, FieldError, FieldModel};
use crate::base::{BaseConfig, BaseSnapshot, INITIAL_HP};
use crate::binary::{
    finite, is_finite, Pose, FOUR, MINUS_THREE, ONE, ONE_POINT_SIX, SIX, THREE,
};
use crate::game::GameView;
use crate::outpost::{stand_check, Outpost, OutpostSnapshot};
use crate::projectile::ArmorHit;
use crate::referee::desk::{config_refusal, idle_state, RefereeSnapshot};
use crate::referee::machine::Referee;
use crate::referee::model::{models, RefereeModel};
use crate::referee::{RefereeCommand, RefereeConfig};
use crate::rune::big::{BigActivation, BigRune};
use crate::rune::runner::{Activation, Rune, RuneModel};
use crate::rune::small::{SmallActivation, SmallRune};
use crate::rune::wheel::{BigRuneMotion, CAD_TARGET_RADIUS_UM, TARGET_RADIUS_UM};
use crate::rune::{RuneError, RuneKind, RuneSnapshot};
use crate::target::{ArmorTarget, Team};
use vstd::prelude::*;

verus! {

/// One live base in the layout.
#[derive(Clone, Copy, Debug, PartialEq, Eq)]
pub struct BasePlacement {
    /// Fitted geometry.
    pub config: BaseConfig,
    /// Whether every plate's rotation has unit length.
    pub unit_rotations: bool,
}

/// One Power Rune in the layout: which mode it starts in and where its hub
/// sits.
#[derive(Clone, Copy, Debug, PartialEq, Eq)]
pub struct RuneConfig {
    /// Rune mode.
    pub kind: RuneKind,
    /// Face centre, its rotation normalised.
    pub hub_pose: Pose,
    /// Whether the hub's rotation could be normalised.
    pub unit_rotation: bool,
    /// Use the measured target orbit instead of the nominal one.
    pub cad_orbit: bool,
}

/// One outpost in the layout.
#[derive(Clone, Copy, Debug, PartialEq, Eq)]
pub struct OutpostConfig {
    /// Rotor pivot in CAD metres.
    pub pivot_cad_m: [u64; 3],
    /// Tower base pose.
    pub origin: Pose,
    /// Whether the origin's rotation has unit length.
    pub unit_rotation: bool,
    /// Rotor speed in rad/s.
    pub speed_rad_s: u64,
}

/// Static field layout. Everything here is placed once; motion comes from the
/// clock.
#[derive(Clone, Debug, PartialEq, Eq)]
pub struct FieldConfig {
    /// Live bases.
    pub bases: Vec<BasePlacement>,
    /// Power Runes in referee index order.
    pub runes: Vec<RuneConfig>,
    /// Outposts in referee index order.
    pub outposts: Vec<OutpostConfig>,
    /// Optional match referee.
    pub referee: Option<RefereeConfig>,
}

impl RuneConfig {
    /// A Small Rune at 6 m ahead and 1.6 m up, on the nominal orbit.
    pub open spec fn is_standard(self) -> bool {
        &&& self.kind == RuneKind::Small
        &&& self.hub_pose.translation_m@ == seq![SIX, 0u64, ONE_POINT_SIX]
        &&& self.hub_pose.rotation_wxyz@ == seq![ONE, 0u64, 0u64, 0u64]
        &&& self.unit_rotation
        &&& !self.cad_orbit
    }
}

impl Default for RuneConfig {
    /// A Small Rune at 6 m ahead and 1.6 m up, on the nominal orbit.
    fn default() -> (r: RuneConfig)
        ensures
            r.is_standard(),
    {
        RuneConfig {
            kind: RuneKind::Small,
            hub_pose: Pose {
                translation_m: [SIX, 0, ONE_POINT_SIX],
                rotation_wxyz: [ONE, 0, 0, 0],
            },
            unit_rotation: true,
            cad_orbit: false,
        }
    }
}

impl OutpostConfig {
    /// A tower at 4 m ahead and the given way to the left.
    fn aside(left_m: u64, pivot_cad_m: [u64; 3], speed_rad_s: u64) -> (r: OutpostConfig)
        ensures
            r.stands_aside(left_m, pivot_cad_m, speed_rad_s),
    {
        OutpostConfig {
            pivot_cad_m,
            origin: Pose { translation_m: [FOUR, left_m, 0], rotation_wxyz: [ONE, 0, 0, 0] },
            unit_rotation: true,
            speed_rad_s,
        }
    }

    /// The tower stands at 4 m ahead and the given way to the left.
    pub open spec fn stands_aside(self, left_m: u64, pivot_cad_m: [u64; 3], speed_rad_s: u64) -> bool {
        &&& self.pivot_cad_m == pivot_cad_m
        &&& self.origin.translation_m@ == seq![FOUR, left_m, 0u64]
        &&& self.origin.rotation_wxyz@ == seq![ONE, 0u64, 0u64, 0u64]
        &&& self.unit_rotation
        &&& self.speed_rad_s == speed_rad_s
    }
}

impl FieldConfig {
    /// The layout without an asset: one default rune, and two outposts on
    /// either side that turn at a speed about a pivot. No base, no referee.
    pub fn standard(pivot_cad_m: [u64; 3], speed_rad_s: u64) -> (r: FieldConfig)
        ensures
            r.bases@.len() == 0,
            r.referee is None,
            r.runes@.len() == 1,
            r.runes@[0].is_standard(),
            r.outposts@.len() == 2,
            r.outposts@[0].stands_aside(MINUS_THREE, pivot_cad_m, speed_rad_s),
            r.outposts@[1].stands_aside(THREE, pivot_cad_m, speed_rad_s),
            forall|i: int|
                0 <= i < 2 ==> (#[trigger] r.outposts@[i]).origin.translation_m[0]
                    == 0x4010_0000_0000_0000,
            r.outposts@[0].origin.translation_m[1] == 0xc008_0000_0000_0000,
            r.outposts@[1].origin.translation_m[1] == 0x4008_0000_0000_0000,
    {
        let mut runes: Vec<RuneConfig> = Vec::new();
        runes.push(RuneConfig::default());
        let mut outposts: Vec<OutpostConfig> = Vec::new();
        outposts.push(OutpostConfig::aside(MINUS_THREE, pivot_cad_m, speed_rad_s));
        outposts.push(OutpostConfig::aside(THREE, pivot_cad_m, speed_rad_s));
        FieldConfig { bases: Vec::new(), runes, outposts, referee: None }
    }
}

/// A rune as its layout says.
pub open spec fn built_rune(config: RuneConfig) -> RuneModel {
    RuneModel {
        hub: config.hub_pose,
        target_radius_um: if config.cad_orbit {
            CAD_TARGET_RADIUS_UM
        } else {
            TARGET_RADIUS_UM
        },
        turns: Seq::empty(),
        activation: match config.kind {
            RuneKind::Small => Activation::Small(SmallActivation::training()),
            RuneKind::Big => Activation::Big(
                BigActivation::training(BigRuneMotion::training()),
            ),
        },
    }
}

/// A tower as its layout says.
pub open spec fn built_outpost(config: OutpostConfig) -> Outpost {
    Outpost {
        pivot_cad_m: config.pivot_cad_m,
        origin: config.origin,
        speed_rad_s: config.speed_rad_s,
        hp: crate::outpost::INITIAL_HP,
        in_match: false,
        starts_ns: 0,
        stopped_ns: None,
        homing: false,
    }
}

/// The first tower that cannot be built, among those from `from` on.
pub open spec fn outpost_refusal(outposts: Seq<OutpostConfig>, from: nat) -> Option<&'static str>
    decreases outposts.len() - from,
{
    if from >= outposts.len() {
        None
    } else {
        let c = outposts[from as int];
        match stand_check(c.pivot_cad_m, c.origin, c.unit_rotation, c.speed_rad_s) {
            Err(reason) => Some(reason),
            Ok(()) => outpost_refusal(outposts, from + 1),
        }
    }
}

/// How many bases of a layout a team has.
pub open spec fn base_count(bases: Seq<BasePlacement>, team: Team) -> nat
    decreases bases.len(),
{
    if bases.len() == 0 {
        0
    } else {
        base_count(bases.drop_last(), team) + (if bases.last().config.team == team {
            1nat
        } else {
            0
        })
    }
}

/// Why a layout is refused, if it is: bases first, then runes, outposts and
/// the referee.
pub open spec fn layout_refusal(config: FieldConfig) -> Option<FieldError> {
    if exists|i: int|
        0 <= i < config.bases@.len() && !((#[trigger] config.bases@[i]).unit_rotations
            && config.bases@[i].config.valid()) {
        Some(FieldError::Mesh("invalid base scoring pose or dart travel"))
    } else if exists|i: int|
        0 <= i < config.runes@.len() && !((#[trigger] config.runes@[i]).unit_rotation
            && config.runes@[i].hub_pose.finite()) {
        Some(FieldError::Rune(RuneError::Pose))
    } else {
        match outpost_refusal(config.outposts@, 0) {
            Some(reason) => Some(FieldError::Outpost(reason)),
            None => match config.referee {
                None => None,
                Some(referee) => match config_refusal(
                    referee,
                    config.runes@.len(),
                    config.outposts@.len(),
                ) {
                    Some(reason) => Some(FieldError::Referee(reason)),
                    None => if base_count(config.bases@, Team::Red) > 1 || base_count(
                        config.bases@,
                        Team::Blue,
                    ) > 1 {
                        Some(FieldError::Referee("a team can have at most one base"))
                    } else {
                        None
                    },
                },
            },
        }
    }
}

/// The field of a layout that is not refused, at tick zero.
pub open spec fn built_field(config: FieldConfig, tick_ns: u64, base_travel_ns: u64) -> FieldModel {
    FieldModel {
        bases: config.bases@.map_values(
            |base: BasePlacement|
                BaseSnapshot {
                    config: base.config,
                    hp: INITIAL_HP,
                    shield_hp: crate::base::INITIAL_SHIELD_HP,
                },
        ),
        tick_ns,
        tick: 0,
        runes: config.runes@.map_values(|rune: RuneConfig| built_rune(rune)),
        outposts: config.outposts@.map_values(|tower: OutpostConfig| built_outpost(tower)),
        hits: Seq::empty(),
        hits_detected: 0,
        last_detection_ns: Map::empty(),
        referee: match config.referee {
            None => None,
            Some(referee) => Some(
                RefereeModel {
                    config: referee@,
                    training_kinds: config.runes@.map_values(|rune: RuneConfig| rune.kind),
                    base_travel_ns,
                    state: idle_state(),
                    events: Seq::empty(),
                },
            ),
        },
    }
}

/// Build the bases of a layout.
fn build_bases(bases: &Vec<BasePlacement>) -> (r: Result<Vec<BaseSnapshot>, FieldError>)
    ensures
        match r {
            Ok(built) => {
                &&& forall|i: int|
                    0 <= i < bases@.len() ==> (#[trigger] bases@[i]).unit_rotations
                        && bases@[i].config.valid()
                &&& built@ == bases@.map_values(
                    |base: BasePlacement|
                        BaseSnapshot {
                            config: base.config,
                            hp: INITIAL_HP,
                            shield_hp: crate::base::INITIAL_SHIELD_HP,
                        },
                )
            },
            Err(error) => {
                &&& exists|i: int|
                    0 <= i < bases@.len() && !((#[trigger] bases@[i]).unit_rotations
                        && bases@[i].config.valid())
                &&& error == FieldError::Mesh("invalid base scoring pose or dart travel")
            },
        },
{
    let mut built: Vec<BaseSnapshot> = Vec::new();
    let mut i: usize = 0;
    while i < bases.len()
        invariant
            i <= bases@.len(),
            built@.len() == i,
            forall|k: int|
                0 <= k < i ==> (#[trigger] bases@[k]).unit_rotations && bases@[k].config.valid(),
            forall|k: int|
                0 <= k < i ==> (#[trigger] built@[k]) == (BaseSnapshot {
                    config: bases@[k].config,
                    hp: INITIAL_HP,
                    shield_hp: crate::base::INITIAL_SHIELD_HP,
                }),
        decreases bases@.len() - i,
    {
        let base = bases[i];
        match base.config.validate(base.unit_rotations) {
            Err(reason) => {
                proof {
                    assert(!(bases@[i as int].unit_rotations && bases@[i as int].config.valid()));
                }
                return Err(FieldError::Mesh(reason));
            },
            Ok(()) => {},
        }
        built.push(BaseSnapshot::new(base.config));
        i += 1;
    }
    proof {
        assert(built@ =~= bases@.map_values(
            |base: BasePlacement|
                BaseSnapshot {
                    config: base.config,
                    hp: INITIAL_HP,
                    shield_hp: crate::base::INITIAL_SHIELD_HP,
                },
        ));
    }
    Ok(built)
}

/// Build one rune of a layout.
fn build_rune(config: &RuneConfig) -> (r: Result<Rune, RuneError>)
    ensures
        r is Ok <==> config.unit_rotation && config.hub_pose.finite(),
        r is Err ==> r->Err_0 == RuneError::Pose,
        r is Ok ==> r->Ok_0@ == built_rune(*config) && r->Ok_0.wf(),
{
    match config.kind {
        RuneKind::Small => {
            let small = if config.cad_orbit {
                SmallRune::from_cad(config.hub_pose, config.unit_rotation)
            } else {
                SmallRune::new(config.hub_pose, config.unit_rotation)
            };
            match small {
                Ok(rune) => Ok(Rune::Small(rune)),
                Err(error) => Err(error),
            }
        },
        RuneKind::Big => match BigRune::new(
            config.hub_pose,
            config.unit_rotation,
            config.cad_orbit,
            BigRuneMotion::default(),
        ) {
            Ok(rune) => Ok(Rune::Big(rune)),
            Err(error) => Err(error),
        },
    }
}

/// Build the runes of a layout.
fn build_runes(runes: &Vec<RuneConfig>) -> (r: Result<Vec<Rune>, FieldError>)
    ensures
        match r {
            Ok(built) => {
                &&& forall|i: int|
                    0 <= i < runes@.len() ==> (#[trigger] runes@[i]).unit_rotation
                        && runes@[i].hub_pose.finite()
                &&& models(built@) == runes@.map_values(|rune: RuneConfig| built_rune(rune))
                &&& forall|i: int| 0 <= i < built@.len() ==> (#[trigger] built@[i]).wf()
            },
            Err(error) => {
                &&& exists|i: int|
                    0 <= i < runes@.len() && !((#[trigger] runes@[i]).unit_rotation
                        && runes@[i].hub_pose.finite())
                &&& error == FieldError::Rune(RuneError::Pose)
            },
        },
{
    let mut built: Vec<Rune> = Vec::new();
    let mut i: usize = 0;
    while i < runes.len()
        invariant
            i <= runes@.len(),
            built@.len() == i,
            forall|k: int|
                0 <= k < i ==> (#[trigger] runes@[k]).unit_rotation && runes@[k].hub_pose.finite(),
            forall|k: int|
                0 <= k < i ==> (#[trigger] built@[k])@ == built_rune(runes@[k]) && built@[k].wf(),
        decreases runes@.len() - i,
    {
        match build_rune(&runes[i]) {
            Ok(rune) => built.push(rune),
            Err(error) => {
                proof {
                    assert(!(runes@[i as int].unit_rotation && runes@[i as int].hub_pose.finite()));
                }
                return Err(FieldError::Rune(error));
            },
        }
        i += 1;
    }
    proof {
        assert(models(built@) =~= runes@.map_values(|rune: RuneConfig| built_rune(rune)));
    }
    Ok(built)
}

/// Build the outposts of a layout.
fn build_outposts(outposts: &Vec<OutpostConfig>) -> (r: Result<Vec<Outpost>, FieldError>)
    ensures
        match r {
            Ok(built) => {
                &&& outpost_refusal(outposts@, 0) is None
                &&& built@ == outposts@.map_values(|tower: OutpostConfig| built_outpost(tower))
                &&& forall|i: int| 0 <= i < built@.len() ==> (#[trigger] built@[i]).wf()
            },
            Err(error) => outpost_refusal(outposts@, 0) is Some && error == FieldError::Outpost(
                outpost_refusal(outposts@, 0)->0,
            ),
        },
{
    let mut built: Vec<Outpost> = Vec::new();
    let mut i: usize = 0;
    while i < outposts.len()
        invariant
            i <= outposts@.len(),
            built@.len() == i,
            outpost_refusal(outposts@, 0) == outpost_refusal(outposts@, i as nat),
            forall|k: int|
                0 <= k < i ==> (#[trigger] built@[k]) == built_outpost(outposts@[k])
                    && built@[k].wf(),
        decreases outposts@.len() - i,
    {
        let c = outposts[i];
        match Outpost::with_pivot(c.origin, c.unit_rotation, c.speed_rad_s, c.pivot_cad_m) {
            Ok(tower) => built.push(tower),
            Err(reason) => {
                return Err(FieldError::Outpost(reason));
            },
        }
        i += 1;
    }
    proof {
        assert(built@ =~= outposts@.map_values(|tower: OutpostConfig| built_outpost(tower)));
    }
    Ok(built)
}

/// Count the bases of a layout that a team has.
fn count_bases(bases: &Vec<BasePlacement>, team: Team) -> (r: usize)
    ensures
        r == base_count(bases@, team),
{
    let mut n: usize = 0;
    let mut i: usize = 0;
    while i < bases.len()
        invariant
            i <= bases@.len(),
            n <= i,
            n == base_count(bases@.subrange(0, i as int), team),
        decreases bases@.len() - i,
    {
        proof {
            assert(bases@.subrange(0, i + 1).drop_last() =~= bases@.subrange(0, i as int));
        }
        if bases[i].config.team == team {
            n += 1;
        }
        i += 1;
    }
    proof {
        assert(bases@.subrange(0, i as int) =~= bases@);
    }
    n
}

/// The kinds of the runes of a layout.
fn kinds_of(runes: &Vec<RuneConfig>) -> (r: Vec<RuneKind>)
    ensures
        r@ == runes@.map_values(|rune: RuneConfig| rune.kind),
{
    let mut kinds: Vec<RuneKind> = Vec::new();
    let mut i: usize = 0;
    while i < runes.len()
        invariant
            i <= runes@.len(),
            kinds@.len() == i,
            forall|k: int| 0 <= k < i ==> (#[trigger] kinds@[k]) == runes@[k].kind,
        decreases runes@.len() - i,
    {
        kinds.push(runes[i].kind);
        i += 1;
    }
    proof {
        assert(kinds@ =~= runes@.map_values(|rune: RuneConfig| rune.kind));
    }
    kinds
}

impl Field {
    /// Build a field from a layout, validating every rune, outpost and base.
    /// The clock starts at tick zero. `base_travel_ns` is how long the base
    /// armor travels.
    pub fn new(config: FieldConfig, tick_ns: u64, base_travel_ns: u64) -> (r: Result<
        Field,
        FieldError,
    >)
        requires
            tick_ns > 0,
        ensures
            match layout_refusal(config) {
                Some(error) => r == Err::<Field, FieldError>(error),
                None => r is Ok && r->Ok_0@ == built_field(config, tick_ns, base_travel_ns)
                    && r->Ok_0.wf(),
            },
    {
        let bases = match build_bases(&config.bases) {
            Ok(bases) => bases,
            Err(error) => {
                return Err(error);
            },
        };
        let runes = match build_runes(&config.runes) {
            Ok(runes) => runes,
            Err(error) => {
                return Err(error);
            },
        };
        let outposts = match build_outposts(&config.outposts) {
            Ok(outposts) => outposts,
            Err(error) => {
                return Err(error);
            },
        };
        let crowded = count_bases(&config.bases, Team::Red) > 1 || count_bases(
            &config.bases,
            Team::Blue,
        ) > 1;
        let referee = match config.referee {
            None => None,
            Some(rules) => {
                let kinds = kinds_of(&config.runes);
                match Referee::new(rules, kinds, config.outposts.len(), base_travel_ns) {
                    Err(reason) => {
                        return Err(FieldError::Referee(reason));
                    },
                    Ok(referee) => {
                        if crowded {
                            return Err(FieldError::Referee("a team can have at most one base"));
                        }
                        Some(referee)
                    },
                }
            },
        };
        let field = Field {
            bases,
            tick_ns,
            tick: 0,
            runes,
            outposts,
            hits: Vec::new(),
            hits_detected: 0,
            last_detection_ns: Detections::new(),
            referee,
        };
        proof {
            assert(0 * tick_ns == 0) by (nonlinear_arith);
            assert forall|i: int| 0 <= i < field@.runes.len() implies (
            #[trigger] field@.runes[i]).wf() && field@.runes[i].time_ns() <= field@.time_ns() by {
                assert(field.runes@[i].wf());
                assert(field@.runes[i] == built_rune(config.runes@[i]));
            }
            let whole = built_field(config, tick_ns, base_travel_ns);
            assert(field@.bases =~= whole.bases);
            assert(field@.runes =~= whole.runes);
            assert(field@.outposts =~= whole.outposts);
            if field@.referee is Some {
                assert(field@.referee->0.training_kinds =~= whole.referee->0.training_kinds);
            }
        }
        Ok(field)
    }
}

/// A rune of a snapshot.
#[derive(Clone, Debug, PartialEq, Eq)]
pub struct RestoredRune {
    /// The rune.
    pub rune: Rune,
    /// Whether its hub's rotation has unit length.
    pub unit_rotation: bool,
}

/// An outpost of a snapshot.
#[derive(Clone, Copy, Debug, PartialEq, Eq)]
pub struct RestoredOutpost {
    /// The outpost.
    pub outpost: Outpost,
    /// Whether its origin's rotation has unit length.
    pub unit_rotation: bool,
}

/// A base of a snapshot.
#[derive(Clone, Copy, Debug, PartialEq, Eq)]
pub struct RestoredBase {
    /// The base.
    pub base: BaseSnapshot,
    /// Whether every plate's rotation has unit length.
    pub unit_rotations: bool,
}

/// The rules' own bookkeeping, beyond what an observer needs.
#[derive(Clone, Debug, PartialEq, Eq)]
pub struct FieldRestore {
    /// Every rune's activation state and seeded target stream.
    pub runes: Vec<RestoredRune>,
    /// Every outpost's rotor stop and HP.
    pub outposts: Vec<RestoredOutpost>,
    /// The referee, when the field has one.
    pub referee: Option<Referee>,
    /// Per-module time of the last detected strike.
    pub last_detection_ns: Vec<(ArmorTarget, u64)>,
}

/// What a snapshot holds of the rules.
#[derive(Clone, Debug, PartialEq, Eq)]
pub struct FieldRecord {
    /// Every base.
    pub bases: Vec<RestoredBase>,
    /// Ticks elapsed.
    pub tick: u64,
    /// The field's clock.
    pub time_ns: u64,
    /// Armor contacts from the last second.
    pub hits: Vec<ArmorHit>,
    /// Contacts that passed every detection condition.
    pub hits_detected: u64,
    /// Hidden rule state; a decoder that drops it gives up restoring.
    pub restore: Option<FieldRestore>,
}

/// The first base that is not valid, among those from `from` on.
pub open spec fn base_refusal(bases: Seq<RestoredBase>, from: nat) -> Option<&'static str>
    decreases bases.len() - from,
{
    if from >= bases.len() {
        None
    } else {
        let b = bases[from as int];
        if !(b.unit_rotations && b.base.config.valid()) {
            Some("invalid base scoring pose or dart travel")
        } else if b.base.hp > INITIAL_HP || b.base.shield_hp > INITIAL_HP {
            Some("base HP or shield out of range")
        } else {
            base_refusal(bases, from + 1)
        }
    }
}

/// Why one rune of a snapshot is refused, if it is.
pub open spec fn one_rune_refusal(r: RestoredRune) -> Option<RuneError> {
    if !r.unit_rotation || !r.rune@.hub.finite() || r.rune@.target_radius_um == 0 {
        Some(RuneError::Pose)
    } else {
        match r.rune@.activation {
            Activation::Big(a) if !a.motion.wf() || a.time_ns < a.epoch_ns => Some(
                RuneError::Motion,
            ),
            _ => None,
        }
    }
}

/// The first rune that is not valid, among those from `from` on.
pub open spec fn rune_refusal(runes: Seq<RestoredRune>, from: nat) -> Option<RuneError>
    decreases runes.len() - from,
{
    if from >= runes.len() {
        None
    } else {
        match one_rune_refusal(runes[from as int]) {
            Some(error) => Some(error),
            None => rune_refusal(runes, from + 1),
        }
    }
}

/// The first outpost that is not valid, among those from `from` on.
pub open spec fn tower_refusal(outposts: Seq<RestoredOutpost>, from: nat) -> Option<&'static str>
    decreases outposts.len() - from,
{
    if from >= outposts.len() {
        None
    } else {
        let o = outposts[from as int].outpost;
        match stand_check(
            o.pivot_cad_m,
            o.origin,
            outposts[from as int].unit_rotation,
            o.speed_rad_s,
        ) {
            Err(reason) => Some(reason),
            Ok(()) => if !o.wf() {
                Some("outpost HP and destruction disagree")
            } else {
                tower_refusal(outposts, from + 1)
            },
        }
    }
}

/// The field that a snapshot describes; of its contacts, those of the last
/// second in the order of their times.
pub open spec fn recorded_field(record: FieldRecord, tick_ns: u64) -> FieldModel {
    let rules = record.restore->0;
    FieldModel {
        bases: record.bases@.map_values(|b: RestoredBase| b.base),
        tick_ns,
        tick: record.tick,
        runes: rules.runes@.map_values(|r: RestoredRune| r.rune@),
        outposts: rules.outposts@.map_values(|o: RestoredOutpost| o.outpost),
        hits: settled(record.hits@, record.time_ns as int),
        hits_detected: record.hits_detected,
        last_detection_ns: times(rules.last_detection_ns@),
        referee: match rules.referee {
            Some(referee) => Some(referee@),
            None => None,
        },
    }
}

/// Why a snapshot cannot be restored, if it cannot.
pub open spec fn restore_refusal(
    record: FieldRecord,
    floor_height_m: u64,
    tick_ns: u64,
) -> Option<FieldError> {
    match record.restore {
        None => Some(FieldError::Restore("the snapshot carries no rule state")),
        Some(rules) => if !finite(floor_height_m) {
            Some(FieldError::Restore("the floor height must be finite"))
        } else if record.tick * tick_ns != record.time_ns {
            Some(FieldError::Restore("the snapshot tick and time disagree"))
        } else {
            match base_refusal(record.bases@, 0) {
                Some(reason) => Some(FieldError::Restore(reason)),
                None => match rune_refusal(rules.runes@, 0) {
                    Some(error) => Some(FieldError::Rune(error)),
                    None => match tower_refusal(rules.outposts@, 0) {
                        Some(reason) => Some(FieldError::Outpost(reason)),
                        None => None,
                    },
                },
            }
        },
    }
}

/// Check the bases of a snapshot.
fn check_bases(bases: &Vec<RestoredBase>) -> (r: Option<&'static str>)
    ensures
        r == base_refusal(bases@, 0),
        r is None ==> forall|k: int|
            0 <= k < bases@.len() ==> (#[trigger] bases@[k]).base.config.valid(),
{
    let mut i: usize = 0;
    while i < bases.len()
        invariant
            i <= bases@.len(),
            base_refusal(bases@, 0) == base_refusal(bases@, i as nat),
            forall|k: int| 0 <= k < i ==> (#[trigger] bases@[k]).base.config.valid(),
        decreases bases@.len() - i,
    {
        let b = bases[i];
        match b.base.config.validate(b.unit_rotations) {
            Err(reason) => {
                return Some(reason);
            },
            Ok(()) => {},
        }
        if b.base.hp > INITIAL_HP || b.base.shield_hp > INITIAL_HP {
            return Some("base HP or shield out of range");
        }
        i += 1;
    }
    None
}

/// Check the runes of a snapshot.
fn check_runes(runes: &Vec<RestoredRune>) -> (r: Option<RuneError>)
    ensures
        r == rune_refusal(runes@, 0),
{
    let mut i: usize = 0;
    while i < runes.len()
        invariant
            i <= runes@.len(),
            rune_refusal(runes@, 0) == rune_refusal(runes@, i as nat),
        decreases runes@.len() - i,
    {
        match runes[i].rune.validate(runes[i].unit_rotation) {
            Err(error) => {
                return Some(error);
            },
            Ok(()) => {},
        }
        i += 1;
    }
    None
}

/// Check the outposts of a snapshot.
fn check_outposts(outposts: &Vec<RestoredOutpost>) -> (r: Option<&'static str>)
    ensures
        r == tower_refusal(outposts@, 0),
        r is None ==> forall|k: int|
            0 <= k < outposts@.len() ==> (#[trigger] outposts@[k]).outpost.wf(),
{
    let mut i: usize = 0;
    while i < outposts.len()
        invariant
            i <= outposts@.len(),
            tower_refusal(outposts@, 0) == tower_refusal(outposts@, i as nat),
            forall|k: int| 0 <= k < i ==> (#[trigger] outposts@[k]).outpost.wf(),
        decreases outposts@.len() - i,
    {
        match outposts[i].outpost.validate(outposts[i].unit_rotation) {
            Err(reason) => {
                return Some(reason);
            },
            Ok(()) => {},
        }
        i += 1;
    }
    None
}

/// Whether every rune keeps its invariant and none is ahead of a time.
fn runes_consistent(runes: &Vec<Rune>, time_ns: u64) -> (r: bool)
    ensures
        r == forall|k: int|
            0 <= k < runes@.len() ==> (#[trigger] runes@[k]).wf() && runes@[k]@.time_ns()
                <= time_ns,
{
    let mut i: usize = 0;
    while i < runes.len()
        invariant
            i <= runes@.len(),
            forall|k: int|
                0 <= k < i ==> (#[trigger] runes@[k]).wf() && runes@[k]@.time_ns() <= time_ns,
        decreases runes@.len() - i,
    {
        if !runes[i].is_consistent() || runes[i].time_ns() > time_ns {
            proof {
                assert(!(runes@[i as int].wf() && runes@[i as int]@.time_ns() <= time_ns));
            }
            return false;
        }
        i += 1;
    }
    true
}

/// The runes of a snapshot.
fn take_runes(runes: Vec<RestoredRune>) -> (r: Vec<Rune>)
    ensures
        r@ == runes@.map_values(|r: RestoredRune| r.rune),
{
    let mut out: Vec<Rune> = Vec::new();
    let mut rest: Vec<RestoredRune> = runes;
    while rest.len() > 0
        invariant
            rest@.len() <= runes@.len(),
            rest@ == runes@.subrange(0, rest@.len() as int),
            out@ == runes@.subrange(rest@.len() as int, runes@.len() as int).map_values(
                |r: RestoredRune| r.rune,
            ),
        decreases rest@.len(),
    {
        let ghost n = rest@.len() as int;
        match rest.pop() {
            Some(last) => {
                out.insert(0, last.rune);
                proof {
                    assert(rest@ =~= runes@.subrange(0, n - 1));
                    assert(out@ =~= runes@.subrange(n - 1, runes@.len() as int).map_values(
                        |r: RestoredRune| r.rune,
                    ));
                }
            },
            None => {},
        }
    }
    proof {
        assert(runes@.subrange(0, runes@.len() as int) =~= runes@);
    }
    out
}

impl Field {
    /// Rebuild the rules of the field that a snapshot was taken from, standing
    /// at the snapshot's own tick: every rune, outpost and the referee
    /// exactly, the detection intervals, the recent hits and the counters. The
    /// rule state is taken as it is; where it came from no field, ask
    /// [`Field::is_consistent`] before going on with it.
    pub fn restore(record: FieldRecord, floor_height_m: u64, tick_ns: u64) -> (r: Result<
        Field,
        FieldError,
    >)
        requires
            tick_ns > 0,
        ensures
            match restore_refusal(record, floor_height_m, tick_ns) {
                Some(error) => r == Err::<Field, FieldError>(error),
                None => {
                    &&& r is Ok
                    &&& r->Ok_0@ == recorded_field(record, tick_ns)
                    &&& r->Ok_0.wf() == recorded_field(record, tick_ns).wf()
                },
            },
    {
        let ghost given = record;
        let rules = match record.restore {
            None => {
                return Err(FieldError::Restore("the snapshot carries no rule state"));
            },
            Some(rules) => rules,
        };
        if !is_finite(floor_height_m) {
            return Err(FieldError::Restore("the floor height must be finite"));
        }
        match record.tick.checked_mul(tick_ns) {
            Some(time_ns) => {
                if time_ns != record.time_ns {
                    return Err(FieldError::Restore("the snapshot tick and time disagree"));
                }
            },
            None => {
                return Err(FieldError::Restore("the snapshot tick and time disagree"));
            },
        }
        if let Some(reason) = check_bases(&record.bases) {
            return Err(FieldError::Restore(reason));
        }
        if let Some(error) = check_runes(&rules.runes) {
            return Err(FieldError::Rune(error));
        }
        if let Some(reason) = check_outposts(&rules.outposts) {
            return Err(FieldError::Outpost(reason));
        }
        let ghost whole = recorded_field(given, tick_ns);
        let mut bases: Vec<BaseSnapshot> = Vec::new();
        let mut i: usize = 0;
        while i < record.bases.len()
            invariant
                i <= record.bases@.len(),
                bases@.len() == i,
                forall|k: int| 0 <= k < i ==> (#[trigger] bases@[k]) == record.bases@[k].base,
            decreases record.bases@.len() - i,
        {
            bases.push(record.bases[i].base);
            i += 1;
        }
        let mut outposts: Vec<Outpost> = Vec::new();
        let mut k: usize = 0;
        while k < rules.outposts.len()
            invariant
                k <= rules.outposts@.len(),
                outposts@.len() == k,
                forall|j: int|
                    0 <= j < k ==> (#[trigger] outposts@[j]) == rules.outposts@[j].outpost,
            decreases rules.outposts@.len() - k,
        {
            outposts.push(rules.outposts[k].outpost);
            k += 1;
        }
        let runes = take_runes(rules.runes);
        let field = Field {
            bases,
            tick_ns,
            tick: record.tick,
            runes,
            outposts,
            hits: settle_hits(&record.hits, record.time_ns),
            hits_detected: record.hits_detected,
            last_detection_ns: Detections::collect(&rules.last_detection_ns),
            referee: rules.referee,
        };
        proof {
            assert(field@.bases =~= whole.bases);
            assert(field@.runes =~= whole.runes);
            assert(field@.outposts =~= whole.outposts);
        }
        Ok(field)
    }
}

impl Field {
    /// Whether the invariant holds and no referee waits, for a field whose rule
    /// state came from elsewhere.
    pub fn is_consistent(&self) -> (r: bool)
        ensures
            r == (self.wf() && self@.calm()),
    {
        let time_ns: u64 = match self.tick.checked_mul(self.tick_ns) {
            Some(time_ns) => time_ns,
            None => {
                return false;
            },
        };
        let runes = runes_consistent(&self.runes, time_ns);
        let outposts = outposts_consistent(&self.outposts);
        let bases = bases_consistent(&self.bases);
        let hits = are_in_memory(&self.hits, time_ns);
        let referee = match &self.referee {
            Some(referee) => referee.is_consistent() && referee.state.now_ns <= time_ns
                && referee.config.rune_teams.len() == self.runes.len()
                && referee.config.outpost_teams.len() == self.outposts.len(),
            None => true,
        };
        proof {
            if self@.wf() {
                assert forall|k: int| 0 <= k < self.runes@.len() implies (
                #[trigger] self.runes@[k]).wf() && self.runes@[k]@.time_ns() <= time_ns by {
                    assert(self@.runes[k].wf());
                }
            }
            if runes {
                assert forall|k: int| 0 <= k < self@.runes.len() implies (
                #[trigger] self@.runes[k]).wf() && self@.runes[k].time_ns() <= time_ns by {
                    assert(self.runes@[k].wf());
                }
            }
        }
        self.tick_ns > 0 && runes && outposts && bases && hits && referee
            && self.last_detection_ns.is_ordered()
    }
}

/// Whether every tower keeps its invariant.
fn outposts_consistent(outposts: &Vec<Outpost>) -> (r: bool)
    ensures
        r == forall|k: int| 0 <= k < outposts@.len() ==> (#[trigger] outposts@[k]).wf(),
{
    let mut i: usize = 0;
    while i < outposts.len()
        invariant
            i <= outposts@.len(),
            forall|k: int| 0 <= k < i ==> (#[trigger] outposts@[k]).wf(),
        decreases outposts@.len() - i,
    {
        if outposts[i].validate(true).is_err() {
            proof {
                assert(!outposts@[i as int].wf());
            }
            return false;
        }
        i += 1;
    }
    true
}

/// Whether every base has a valid layout.
fn bases_consistent(bases: &Vec<BaseSnapshot>) -> (r: bool)
    ensures
        r == forall|k: int| 0 <= k < bases@.len() ==> (#[trigger] bases@[k]).config.valid(),
{
    let mut i: usize = 0;
    while i < bases.len()
        invariant
            i <= bases@.len(),
            forall|k: int| 0 <= k < i ==> (#[trigger] bases@[k]).config.valid(),
        decreases bases@.len() - i,
    {
        if bases[i].config.validate(true).is_err() {
            proof {
                assert(!bases@[i as int].config.valid());
            }
            return false;
        }
        i += 1;
    }
    true
}

/// The scoring faces of so many bases, outposts and runes, in their fixed
/// order: seven plates per base, three faces per outpost, five blades per
/// rune.
pub open spec fn target_at(bases: int, outposts: int, i: int) -> ArmorTarget {
    if i < 7 * bases {
        ArmorTarget::Base { base: (i / 7) as u32, plate: (i % 7) as u32 }
    } else if i < 7 * bases + 3 * outposts {
        let k = i - 7 * bases;
        ArmorTarget::Outpost { outpost: (k / 3) as u32, face: (k % 3) as u32 }
    } else {
        let k = i - 7 * bases - 3 * outposts;
        ArmorTarget::Rune { rune: (k / 5) as u32, blade: (k % 5) as u32 }
    }
}

/// The scoring faces in their fixed construction order.
pub fn target_order(bases: u32, outposts: u32, runes: u32) -> (r: Vec<ArmorTarget>)
    requires
        7 * bases + 3 * outposts + 5 * runes <= u32::MAX,
    ensures
        r@ == Seq::new(
            (7 * bases + 3 * outposts + 5 * runes) as nat,
            |i: int| target_at(bases as int, outposts as int, i),
        ),
{
    let total: u32 = 7 * bases + 3 * outposts + 5 * runes;
    let mut out: Vec<ArmorTarget> = Vec::new();
    let mut i: u32 = 0;
    while i < total
        invariant
            i <= total,
            total == 7 * bases + 3 * outposts + 5 * runes,
            total <= u32::MAX,
            out@ == Seq::new(i as nat, |k: int| target_at(bases as int, outposts as int, k)),
        decreases total - i,
    {
        let target = if i < 7 * bases {
            ArmorTarget::Base { base: i / 7, plate: i % 7 }
        } else if i < 7 * bases + 3 * outposts {
            let k: u32 = i - 7 * bases;
            ArmorTarget::Outpost { outpost: k / 3, face: k % 3 }
        } else {
            let k: u32 = i - 7 * bases - 3 * outposts;
            ArmorTarget::Rune { rune: k / 5, blade: k % 5 }
        };
        out.push(target);
        i += 1;
        proof {
            assert(out@ =~= Seq::new(
                i as nat,
                |k: int| target_at(bases as int, outposts as int, k),
            ));
        }
    }
    proof {
        assert(out@ =~= Seq::new(
            total as nat,
            |k: int| target_at(bases as int, outposts as int, k),
        ));
    }
    out
}

/// What an observer sees of the field's rules.
#[derive(Clone, Debug, PartialEq, Eq)]
pub struct FieldSnapshot {
    /// Every base's fitted geometry, HP and shield.
    pub bases: Vec<BaseSnapshot>,
    /// Ticks elapsed since the field was built.
    pub tick: u64,
    /// The field's own clock.
    pub time_ns: u64,
    /// One frame per rune, in referee index order.
    pub runes: Vec<RuneSnapshot>,
    /// One frame per outpost, in referee index order.
    pub outposts: Vec<OutpostSnapshot>,
    /// Armor contacts from the last second, oldest first.
    pub hits: Vec<ArmorHit>,
    /// Contacts that passed every detection condition.
    pub hits_detected: u64,
    /// The match state, when the field has a referee.
    pub referee: Option<RefereeSnapshot>,
    /// Hidden rule state, for restoring. Present on every snapshot a field
    /// takes.
    pub restore: Option<FieldRestore>,
}

/// What an observer sees of a rune.
pub open spec fn rune_frame(rune: Rune) -> RuneSnapshot {
    match rune {
        Rune::Small(small) => small.frame(),
        Rune::Big(big) => big.frame(),
    }
}

impl FieldSnapshot {
    /// The snapshot shows this field beside the engine.
    pub open spec fn shows(&self, field: Field, game: GameView) -> bool {
        let time_ns = field@.time_ns() as u64;
        &&& self.bases@ == field.bases@
        &&& self.tick == field.tick
        &&& self.time_ns == time_ns
        &&& self.runes@ == field.runes@.map_values(|rune: Rune| rune_frame(rune))
        &&& self.outposts@ == field.outposts@.map_values(|tower: Outpost| tower.frame(time_ns))
        &&& self.hits@ == field.hits@
        &&& self.hits_detected == field.hits_detected
        &&& match field.referee {
            None => self.referee is None,
            Some(referee) => self.referee is Some && self.referee->0.shows(
                referee@,
                game.robots@,
            ),
        }
        &&& self.restore is Some && holds_rules(self.restore->0, field)
    }
}

/// A copy of a list.
fn copied<T: Copy>(list: &Vec<T>) -> (r: Vec<T>)
    ensures
        r@ == list@,
{
    let mut out: Vec<T> = Vec::new();
    let mut i: usize = 0;
    while i < list.len()
        invariant
            i <= list@.len(),
            out@ == list@.subrange(0, i as int),
        decreases list@.len() - i,
    {
        out.push(list[i]);
        i += 1;
        proof {
            assert(out@ =~= list@.subrange(0, i as int));
        }
    }
    proof {
        assert(out@ =~= list@);
    }
    out
}

impl Field {
    /// A frame of everything an observer needs of the rules at the current
    /// tick. Taking one never advances the clock.
    pub fn snapshot(&self, game: &GameView) -> (r: FieldSnapshot)
        requires
            self.wf(),
        ensures
            r.shows(*self, *game),
    {
        let time_ns: u64 = self.time_ns();
        let mut runes: Vec<RuneSnapshot> = Vec::new();
        let mut i: usize = 0;
        while i < self.runes.len()
            invariant
                i <= self.runes@.len(),
                runes@.len() == i,
                forall|k: int| 0 <= k < i ==> (#[trigger] runes@[k]) == rune_frame(self.runes@[k]),
            decreases self.runes@.len() - i,
        {
            runes.push(self.runes[i].snapshot());
            i += 1;
        }
        let mut outposts: Vec<OutpostSnapshot> = Vec::new();
        let mut k: usize = 0;
        while k < self.outposts.len()
            invariant
                k <= self.outposts@.len(),
                outposts@.len() == k,
                forall|j: int|
                    0 <= j < k ==> (#[trigger] outposts@[j]) == self.outposts@[j].frame(time_ns),
            decreases self.outposts@.len() - k,
        {
            outposts.push(self.outposts[k].snapshot(time_ns));
            k += 1;
        }
        proof {
            assert(runes@ =~= self.runes@.map_values(|rune: Rune| rune_frame(rune)));
            assert(outposts@ =~= self.outposts@.map_values(|tower: Outpost| tower.frame(time_ns)));
        }
        FieldSnapshot {
            bases: copied(&self.bases),
            tick: self.tick,
            time_ns,
            runes,
            outposts,
            hits: copied(&self.hits),
            hits_detected: self.hits_detected,
            referee: match &self.referee {
                Some(referee) => Some(referee.snapshot(game)),
                None => None,
            },
            restore: Some(self.hidden_rules()),
        }
    }
}

/// Bases as a record holds them.
fn recorded_bases(bases: &Vec<BaseSnapshot>) -> (r: Vec<RestoredBase>)
    ensures
        r@.len() == bases@.len(),
        forall|i: int|
            0 <= i < r@.len() ==> (#[trigger] r@[i]) == (RestoredBase {
                base: bases@[i],
                unit_rotations: true,
            }),
{
    let mut out: Vec<RestoredBase> = Vec::new();
    let mut i: usize = 0;
    while i < bases.len()
        invariant
            i <= bases@.len(),
            out@.len() == i,
            forall|k: int|
                0 <= k < i ==> (#[trigger] out@[k]) == (RestoredBase {
                    base: bases@[k],
                    unit_rotations: true,
                }),
        decreases bases@.len() - i,
    {
        out.push(RestoredBase { base: bases[i], unit_rotations: true });
        i += 1;
    }
    out
}

impl FieldSnapshot {
    /// What the snapshot holds for restoring, its rotations all of unit length.
    pub fn into_record(self) -> (r: FieldRecord)
        ensures
            self.gives(r),
    {
        FieldRecord {
            bases: recorded_bases(&self.bases),
            tick: self.tick,
            time_ns: self.time_ns,
            hits: self.hits,
            hits_detected: self.hits_detected,
            restore: self.restore,
        }
    }

    /// A record is what the snapshot holds for restoring.
    pub open spec fn gives(self, record: FieldRecord) -> bool {
        &&& record.bases@.len() == self.bases@.len()
        &&& forall|i: int|
            0 <= i < record.bases@.len() ==> (#[trigger] record.bases@[i]) == (RestoredBase {
                base: self.bases@[i],
                unit_rotations: true,
            })
        &&& record.tick == self.tick
        &&& record.time_ns == self.time_ns
        &&& record.hits == self.hits
        &&& record.hits_detected == self.hits_detected
        &&& record.restore == self.restore
    }
}

/// Runes as a record holds them.
fn recorded_runes(runes: &Vec<Rune>) -> (r: Vec<RestoredRune>)
    ensures
        r@.len() == runes@.len(),
        forall|i: int|
            0 <= i < r@.len() ==> (#[trigger] r@[i]).rune@ == runes@[i]@ && r@[i].unit_rotation,
{
    let mut out: Vec<RestoredRune> = Vec::new();
    let mut i: usize = 0;
    while i < runes.len()
        invariant
            i <= runes@.len(),
            out@.len() == i,
            forall|k: int|
                0 <= k < i ==> (#[trigger] out@[k]).rune@ == runes@[k]@ && out@[k].unit_rotation,
        decreases runes@.len() - i,
    {
        out.push(RestoredRune { rune: runes[i].copied(), unit_rotation: true });
        i += 1;
    }
    out
}

impl Field {
    /// The rules' own bookkeeping of this field, whose rotations all have unit
    /// length.
    fn hidden_rules(&self) -> (r: FieldRestore)
        ensures
            holds_rules(r, *self),
    {
        let mut outposts: Vec<RestoredOutpost> = Vec::new();
        let mut k: usize = 0;
        while k < self.outposts.len()
            invariant
                k <= self.outposts@.len(),
                outposts@.len() == k,
                forall|j: int|
                    0 <= j < k ==> (#[trigger] outposts@[j]) == (RestoredOutpost {
                        outpost: self.outposts@[j],
                        unit_rotation: true,
                    }),
            decreases self.outposts@.len() - k,
        {
            outposts.push(RestoredOutpost { outpost: self.outposts[k], unit_rotation: true });
            k += 1;
        }
        FieldRestore {
            runes: recorded_runes(&self.runes),
            outposts,
            referee: match &self.referee {
                Some(referee) => Some(referee.copied()),
                None => None,
            },
            last_detection_ns: copied(&self.last_detection_ns.entries),
        }
    }

    /// What it takes to rebuild the rules of this field, whose rotations all
    /// have unit length.
    pub fn record(&self) -> (r: FieldRecord)
        requires
            self.wf(),
        ensures
            holds(r, *self),
    {
        FieldRecord {
            bases: recorded_bases(&self.bases),
            tick: self.tick,
            time_ns: self.time_ns(),
            hits: copied(&self.hits),
            hits_detected: self.hits_detected,
            restore: Some(self.hidden_rules()),
        }
    }
}

/// The rules' bookkeeping is that of a field whose rotations all have unit
/// length.
pub open spec fn holds_rules(rules: FieldRestore, field: Field) -> bool {
    &&& rules.runes@.len() == field.runes@.len()
    &&& forall|i: int|
        0 <= i < rules.runes@.len() ==> (#[trigger] rules.runes@[i]).rune@ == field.runes@[i]@
            && rules.runes@[i].unit_rotation
    &&& rules.outposts@.len() == field.outposts@.len()
    &&& forall|i: int|
        0 <= i < rules.outposts@.len() ==> (#[trigger] rules.outposts@[i]) == (RestoredOutpost {
            outpost: field.outposts@[i],
            unit_rotation: true,
        })
    &&& rules.last_detection_ns@ == field.last_detection_ns.entries@
    &&& match field.referee {
        Some(referee) => rules.referee is Some && rules.referee->0@ == referee@,
        None => rules.referee is None,
    }
}

/// A record is of a field whose rotations all have unit length.
pub open spec fn holds(record: FieldRecord, field: Field) -> bool {
    &&& record.restore is Some
    &&& holds_rules(record.restore->0, field)
    &&& record.tick == field.tick
    &&& record.time_ns == field@.time_ns()
    &&& record.bases@.len() == field.bases@.len()
    &&& forall|i: int|
        0 <= i < record.bases@.len() ==> (#[trigger] record.bases@[i]) == (RestoredBase {
            base: field.bases@[i],
            unit_rotations: true,
        })
    &&& record.hits@ == field.hits@
    &&& record.hits_detected == field.hits_detected
}

/// Every base's HP and shield are in range. The engine sets them.
pub open spec fn bases_in_range(bases: Seq<BaseSnapshot>) -> bool {
    forall|i: int|
        0 <= i < bases.len() ==> (#[trigger] bases[i]).hp <= INITIAL_HP && bases[i].shield_hp
            <= INITIAL_HP
}

/// A field that was just built has every base's HP and shield in range.
pub proof fn built_bases_are_in_range(config: FieldConfig, tick_ns: u64, base_travel_ns: u64)
    ensures
        bases_in_range(built_field(config, tick_ns, base_travel_ns).bases),
{
}

/// A field's record restores to a field that stands exactly where it was
/// taken.
pub proof fn restoring_gives_the_field_back(
    field: Field,
    record: FieldRecord,
    floor_height_m: u64,
)
    requires
        field.wf(),
        holds(record, field),
        bases_in_range(field.bases@),
        finite(floor_height_m),
    ensures
        restore_refusal(record, floor_height_m, field.tick_ns) is None,
        recorded_field(record, field.tick_ns) == field@,
{
    let rules = record.restore->0;
    let whole = recorded_field(record, field.tick_ns);
    memory_is_settled(field@.hits, field@.time_ns());
    assert(whole.bases =~= field@.bases);
    assert(whole.runes =~= field@.runes);
    assert(whole.outposts =~= field@.outposts);
    assert forall|i: int| 0 <= i < record.bases@.len() implies (
    #[trigger] record.bases@[i]).base.config.valid() && record.bases@[i].base.hp <= INITIAL_HP
        && record.bases@[i].base.shield_hp <= INITIAL_HP by {
        assert(field@.bases[i].config.valid());
    }
    no_base_refused(record.bases@, 0);
    assert forall|i: int| 0 <= i < rules.runes@.len() implies one_rune_refusal(
        #[trigger] rules.runes@[i],
    ) is None by {
        assert(field@.runes[i].wf());
        assert(rules.runes@[i].rune@ == field@.runes[i]);
    }
    no_rune_refused(rules.runes@, 0);
    assert forall|i: int| 0 <= i < rules.outposts@.len() implies (
    #[trigger] rules.outposts@[i]).outpost.wf() && stand_check(
        rules.outposts@[i].outpost.pivot_cad_m,
        rules.outposts@[i].outpost.origin,
        rules.outposts@[i].unit_rotation,
        rules.outposts@[i].outpost.speed_rad_s,
    ) is Ok by {
        assert(field@.outposts[i].wf());
        assert(field.outposts@[i] == rules.outposts@[i].outpost);
    }
    no_tower_refused(rules.outposts@, 0);
}

/// A field's snapshot holds what restoring the field takes.
pub proof fn snapshots_hold_the_field(
    field: Field,
    game: GameView,
    snapshot: FieldSnapshot,
    record: FieldRecord,
)
    requires
        field.wf(),
        snapshot.shows(field, game),
        snapshot.gives(record),
    ensures
        holds(record, field),
{
}

/// Recording the restored field and restoring it again gives the field once
/// more.
pub proof fn restoring_again_gives_it_once_more(
    field: Field,
    record: FieldRecord,
    restored: Field,
    again: FieldRecord,
    floor_height_m: u64,
)
    requires
        field.wf(),
        holds(record, field),
        bases_in_range(field.bases@),
        finite(floor_height_m),
        restored.wf(),
        restored@ == recorded_field(record, field.tick_ns),
        holds(again, restored),
    ensures
        restore_refusal(again, floor_height_m, field.tick_ns) is None,
        recorded_field(again, field.tick_ns) == field@,
{
    restoring_gives_the_field_back(field, record, floor_height_m);
    assert(restored@.bases == field@.bases);
    assert(restored@.referee == field@.referee);
    assert(restored@.tick_ns == field@.tick_ns);
    restoring_gives_the_field_back(restored, again, floor_height_m);
}

/// What a command does to a field keeps every base's HP and shield in range,
/// as long as the engine does.
pub proof fn commands_keep_bases_in_range(
    field: FieldModel,
    command: RefereeCommand,
    game: GameView,
)
    requires
        bases_in_range(field.bases),
        engine_in_range(game),
    ensures
        bases_in_range(field.command_settled(command, game).bases),
{
}

/// The contacts of a restored field are those of the last second, oldest first,
/// whatever the record held.
pub proof fn restored_contacts_are_recent(record: FieldRecord, tick_ns: u64)
    requires
        record.tick * tick_ns == record.time_ns,
    ensures
        in_memory(
            recorded_field(record, tick_ns).hits,
            recorded_field(record, tick_ns).time_ns(),
        ),
{
    settling_is_in_memory(record.hits@, record.time_ns as int);
}

/// A restored field has every base's HP and shield in range.
pub proof fn restored_bases_are_in_range(record: FieldRecord, floor_height_m: u64, tick_ns: u64)
    requires
        restore_refusal(record, floor_height_m, tick_ns) is None,
    ensures
        bases_in_range(recorded_field(record, tick_ns).bases),
{
    let bases = record.bases@;
    assert forall|i: int| 0 <= i < bases.len() implies (#[trigger] bases[i]).base.hp <= INITIAL_HP
        && bases[i].base.shield_hp <= INITIAL_HP by {
        unrefused_base(bases, 0, i);
    }
}

/// A base that is not refused is in range.
proof fn unrefused_base(bases: Seq<RestoredBase>, from: nat, i: int)
    requires
        base_refusal(bases, from) is None,
        from <= i < bases.len(),
    ensures
        bases[i].base.hp <= INITIAL_HP && bases[i].base.shield_hp <= INITIAL_HP,
    decreases bases.len() - from,
{
    if i > from {
        unrefused_base(bases, from + 1, i);
    }
}

/// Valid bases are not refused.
proof fn no_base_refused(bases: Seq<RestoredBase>, from: nat)
    requires
        from <= bases.len(),
        forall|i: int|
            0 <= i < bases.len() ==> {
                let b = #[trigger] bases[i];
                &&& b.unit_rotations && b.base.config.valid()
                &&& b.base.hp <= INITIAL_HP && b.base.shield_hp <= INITIAL_HP
            },
    ensures
        base_refusal(bases, from) is None,
    decreases bases.len() - from,
{
    if from < bases.len() {
        no_base_refused(bases, from + 1);
        assert(bases[from as int].unit_rotations);
    }
}

/// Valid runes are not refused.
proof fn no_rune_refused(runes: Seq<RestoredRune>, from: nat)
    requires
        from <= runes.len(),
        forall|i: int| 0 <= i < runes.len() ==> one_rune_refusal(#[trigger] runes[i]) is None,
    ensures
        rune_refusal(runes, from) is None,
    decreases runes.len() - from,
{
    if from < runes.len() {
        no_rune_refused(runes, from + 1);
    }
}

/// Valid outposts are not refused.
proof fn no_tower_refused(outposts: Seq<RestoredOutpost>, from: nat)
    requires
        from <= outposts.len(),
        forall|i: int|
            0 <= i < outposts.len() ==> (#[trigger] outposts[i]).outpost.wf() && stand_check(
                outposts[i].outpost.pivot_cad_m,
                outposts[i].outpost.origin,
                outposts[i].unit_rotation,
                outposts[i].outpost.speed_rad_s,
            ) is Ok,
    ensures
        tower_refusal(outposts, from) is None,
    decreases outposts.len() - from,
{
    if from < outposts.len() {
        no_tower_refused(outposts, from + 1);
        assert(outposts[from as int].outpost.wf());
    }
}

} // verus!

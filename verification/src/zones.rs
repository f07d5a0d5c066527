//! Buff point footprints on the field.
//!
//! A robot occupies a point while its chassis body centre lies over the
//! point's footprint and within [`ZONE_BODY_BAND_M`] above its floor. Lengths
//! are metres, each as its binary64 pattern. Where the outline meets the height
//! of a body centre is computed where floats are, and handed in.
use crate::binary::{
    at_most, exceeds, is_at_most, is_greater, nan, negate, negated, rank, same_number,
};
use crate::game::{Zone, ZoneKind};
use crate::target::Team;
use vstd::prelude::*;

verus! {

/// Height of the body centre above a point's floor, in metres, within which
/// the chassis counts as standing on it: the pattern of 0.45.
pub const ZONE_BODY_BAND_M: u64 = 0x3fdc_cccc_cccc_cccd;

/// A pattern that stands for no number.
pub const NOT_A_NUMBER: u64 = 0x7ff8_0000_0000_0000;

/// Red's buff points.
pub const RED_COUNT: usize = 20;

/// One buff point card area on the field.
#[derive(Clone, Debug, PartialEq, Eq)]
pub struct ZoneArea {
    /// Buff point kind.
    pub kind: ZoneKind,
    /// Team the point belongs to, or the side it lies on.
    pub owner: Team,
    /// Pad number within a terrain crossing course; 0 otherwise.
    pub pad: u8,
    /// Floor height under the point.
    pub floor_m: u64,
    /// The floor's height plus [`ZONE_BODY_BAND_M`].
    pub ceiling_m: u64,
    /// Footprint corners in field x and y, in either winding.
    pub polygon_m: Vec<[u64; 2]>,
}

/// What a card area is.
pub ghost struct AreaModel {
    pub zone: Zone,
    pub floor_m: u64,
    pub ceiling_m: u64,
    pub corners_m: Seq<[u64; 2]>,
}

impl View for ZoneArea {
    type V = AreaModel;

    open spec fn view(&self) -> AreaModel {
        AreaModel {
            zone: Zone { kind: self.kind, owner: self.owner, pad: self.pad },
            floor_m: self.floor_m,
            ceiling_m: self.ceiling_m,
            corners_m: self.polygon_m@,
        }
    }
}

/// The edge from `a` to `b` passes the height of a point: the corners lie on
/// either side of it.
pub open spec fn passes_height(a: [u64; 2], b: [u64; 2], y: u64) -> bool {
    exceeds(a[1], y) != exceeds(b[1], y)
}

/// A ray from a point to the right crosses the edge from `a` to `b`: the edge
/// passes the point's height, and meets it, at `meet`, to the right of the
/// point.
pub open spec fn crosses(a: [u64; 2], b: [u64; 2], x: u64, y: u64, meet: u64) -> bool {
    passes_height(a, b, y) && exceeds(meet, x)
}

/// The corner before the `i`-th.
pub open spec fn corner_before(corners: Seq<[u64; 2]>, i: int) -> [u64; 2] {
    if i == 0 {
        corners.last()
    } else {
        corners[i - 1]
    }
}

/// Where the `i`-th edge meets the height of a point; no number where that was
/// not given.
pub open spec fn meet_at(meets: Seq<u64>, i: int) -> u64 {
    if 0 <= i < meets.len() {
        meets[i]
    } else {
        NOT_A_NUMBER
    }
}

/// How many of the first `n` edges a ray from a point to the right crosses.
pub open spec fn crossings(
    corners: Seq<[u64; 2]>,
    x: u64,
    y: u64,
    meets: Seq<u64>,
    n: nat,
) -> nat
    decreases n,
{
    if n == 0 {
        0
    } else {
        crossings(corners, x, y, meets, (n - 1) as nat) + (if crosses(
            corners[n - 1],
            corner_before(corners, n - 1),
            x,
            y,
            meet_at(meets, n - 1),
        ) {
            1nat
        } else {
            0
        })
    }
}

impl AreaModel {
    /// A body centre stands on the area: it lies in the band above the floor,
    /// and a ray from it crosses the footprint's edge an odd number of times.
    /// `meets` says where each edge meets the height of the centre.
    pub open spec fn holds(self, x: u64, y: u64, z: u64, meets: Seq<u64>) -> bool {
        &&& at_most(self.floor_m, z)
        &&& at_most(z, self.ceiling_m)
        &&& crossings(self.corners_m, x, y, meets, self.corners_m.len()) % 2 == 1
    }

    /// The area mirrored through the field centre, for the other team.
    pub open spec fn mirrored(self) -> AreaModel {
        AreaModel {
            zone: Zone { owner: self.zone.owner.opponent(), ..self.zone },
            corners_m: self.corners_m.map_values(|c: [u64; 2]| turned(c)),
            ..self
        }
    }
}

/// A corner turned half around the field centre.
pub open spec fn turned(corner: [u64; 2]) -> [u64; 2] {
    [negated(corner[0]), negated(corner[1])]
}

/// Red's buff points, with red on the +x half: kind, pad, floor height and
/// corners.
pub open spec fn red_area(i: int) -> AreaModel {
    if i == 0 {
        AreaModel {
            zone: Zone { kind: ZoneKind::Base, owner: Team::Red, pad: 0 },
            floor_m: 0,
            ceiling_m: 0x3fdc_cccc_cccc_cccd,
            corners_m: seq![
                [0x4028_051e_b851_eb85u64, 0xbffe_e147_ae14_7ae1u64],
                [0x4023_eb85_1eb8_51ecu64, 0xbfe8_a3d7_0a3d_70a4u64],
                [0x4023_e147_ae14_7ae1u64, 0x3fea_e147_ae14_7ae1u64],
                [0x4027_d1eb_851e_b852u64, 0x3fff_5c28_f5c2_8f5cu64],
                [0x402a_b851_eb85_1eb8u64, 0x3ff2_b851_eb85_1eb8u64],
                [0x402a_c28f_5c28_f5c3u64, 0xbff2_3d70_a3d7_0a3du64],
            ],
        }
    } else if i == 1 {
        AreaModel {
            zone: Zone { kind: ZoneKind::Resupply, owner: Team::Red, pad: 0 },
            floor_m: 0,
            ceiling_m: 0x3fdc_cccc_cccc_cccd,
            corners_m: seq![
                [0x4025_47ae_147a_e148u64, 0x4013_d70a_3d70_a3d7u64],
                [0x4025_47ae_147a_e148u64, 0x4016_7ae1_47ae_147bu64],
                [0x402a_70a3_d70a_3d71u64, 0x4016_7ae1_47ae_147bu64],
                [0x402a_75c2_8f5c_28f6u64, 0x4012_6666_6666_6666u64],
                [0x4026_0a3d_70a3_d70au64, 0x4012_6666_6666_6666u64],
            ],
        }
    } else if i == 2 {
        AreaModel {
            zone: Zone { kind: ZoneKind::Resupply, owner: Team::Red, pad: 0 },
            floor_m: 0,
            ceiling_m: 0x3fdc_cccc_cccc_cccd,
            corners_m: seq![
                [0x4025_3333_3333_3333u64, 0x4016_e147_ae14_7ae1u64],
                [0x4025_2e14_7ae1_47aeu64, 0x401d_a3d7_0a3d_70a4u64],
                [0x4029_6666_6666_6666u64, 0x401d_7ae1_47ae_147bu64],
                [0x4029_70a3_d70a_3d71u64, 0x4017_0a3d_70a3_d70au64],
            ],
        }
    } else if i == 3 {
        AreaModel {
            zone: Zone { kind: ZoneKind::TrapezoidHighland, owner: Team::Red, pad: 0 },
            floor_m: 0x3fd9_9999_9999_999a,
            ceiling_m: 0x3feb_3333_3333_3334,
            corners_m: seq![
                [0x4021_c28f_5c28_f5c3u64, 0xc011_3333_3333_3333u64],
                [0x4022_9eb8_51eb_851fu64, 0xc00a_7ae1_47ae_147bu64],
                [0x4026_0a3d_70a3_d70au64, 0xc00a_7ae1_47ae_147bu64],
                [0x4026_0f5c_28f5_c28fu64, 0xc011_3333_3333_3333u64],
            ],
        }
    } else if i == 4 {
        AreaModel {
            zone: Zone { kind: ZoneKind::Fortress, owner: Team::Red, pad: 0 },
            floor_m: 0,
            ceiling_m: 0x3fdc_cccc_cccc_cccd,
            corners_m: seq![
                [0x401b_c28f_5c28_f5c3u64, 0xbfee_147a_e147_ae14u64],
                [0x4019_70a3_d70a_3d71u64, 0x3fa9_9999_9999_999au64],
                [0x401b_ae14_7ae1_47aeu64, 0x3ff0_28f5_c28f_5c29u64],
                [0x4020_1eb8_51eb_851fu64, 0x3ff0_28f5_c28f_5c29u64],
                [0x4021_47ae_147a_e148u64, 0x3fa9_9999_9999_999au64],
                [0x4020_28f5_c28f_5c29u64, 0xbfee_147a_e147_ae14u64],
            ],
        }
    } else if i == 5 {
        AreaModel {
            zone: Zone { kind: ZoneKind::ElevatedCrossing, owner: Team::Red, pad: 0 },
            floor_m: 0,
            ceiling_m: 0x3fdc_cccc_cccc_cccd,
            corners_m: seq![
                [0x4013_7ae1_47ae_147bu64, 0xbff5_eb85_1eb8_51ecu64],
                [0x4013_5c28_f5c2_8f5cu64, 0x3ff7_0a3d_70a3_d70au64],
                [0x4016_0a3d_70a3_d70au64, 0x3ff7_0a3d_70a3_d70au64],
                [0x4016_d70a_3d70_a3d7u64, 0x3ff3_d70a_3d70_a3d7u64],
                [0x4016_f5c2_8f5c_28f6u64, 0xbff2_b851_eb85_1eb8u64],
                [0x4016_28f5_c28f_5c29u64, 0xbff5_eb85_1eb8_51ecu64],
            ],
        }
    } else if i == 6 {
        AreaModel {
            zone: Zone { kind: ZoneKind::ElevatedCrossing, owner: Team::Red, pad: 1 },
            floor_m: 0x3fd3_3333_3333_3333,
            ceiling_m: 0x3fe8_0000_0000_0000,
            corners_m: seq![
                [0x4007_1eb8_51eb_851fu64, 0xbff5_eb85_1eb8_51ecu64],
                [0x4006_e147_ae14_7ae1u64, 0x3ff3_3333_3333_3333u64],
                [0x4008_7ae1_47ae_147bu64, 0x3ff7_0a3d_70a3_d70au64],
                [0x400d_5c28_f5c2_8f5cu64, 0x3ff7_0a3d_70a3_d70au64],
                [0x400d_851e_b851_eb85u64, 0xbff5_eb85_1eb8_51ecu64],
            ],
        }
    } else if i == 7 {
        AreaModel {
            zone: Zone { kind: ZoneKind::CentralHighland, owner: Team::Red, pad: 0 },
            floor_m: 0x3fd3_3333_3333_3333,
            ceiling_m: 0x3fe8_0000_0000_0000,
            corners_m: seq![
                [0x4007_1eb8_51eb_851fu64, 0xbff5_eb85_1eb8_51ecu64],
                [0x4006_e147_ae14_7ae1u64, 0x3ff3_3333_3333_3333u64],
                [0x4008_7ae1_47ae_147bu64, 0x3ff7_0a3d_70a3_d70au64],
                [0x400d_5c28_f5c2_8f5cu64, 0x3ff7_0a3d_70a3_d70au64],
                [0x400d_851e_b851_eb85u64, 0xbff5_eb85_1eb8_51ecu64],
            ],
        }
    } else if i == 8 {
        AreaModel {
            zone: Zone { kind: ZoneKind::CentralHighland, owner: Team::Red, pad: 0 },
            floor_m: 0x3fd3_3333_3333_3333,
            ceiling_m: 0x3fe8_0000_0000_0000,
            corners_m: seq![
                [0x3ff7_ae14_7ae1_47aeu64, 0xc013_3333_3333_3333u64],
                [0x3ff7_5c28_f5c2_8f5cu64, 0xc00d_1eb8_51eb_851fu64],
                [0x4007_1eb8_51eb_851fu64, 0xbff6_e147_ae14_7ae1u64],
                [0x400d_851e_b851_eb85u64, 0xbff6_e147_ae14_7ae1u64],
                [0x400d_47ae_147a_e148u64, 0xbfff_5c28_f5c2_8f5cu64],
                [0x3ffa_e147_ae14_7ae1u64, 0xc013_3333_3333_3333u64],
            ],
        }
    } else if i == 9 {
        AreaModel {
            zone: Zone { kind: ZoneKind::Outpost, owner: Team::Red, pad: 0 },
            floor_m: 0x3fd3_3333_3333_3333,
            ceiling_m: 0x3fe8_0000_0000_0000,
            corners_m: seq![
                [0x400c_f5c2_8f5c_28f6u64, 0x4007_9999_9999_999au64],
                [0x400b_47ae_147a_e148u64, 0x400b_d70a_3d70_a3d7u64],
                [0x4007_d70a_3d70_a3d7u64, 0x400b_d70a_3d70_a3d7u64],
                [0x4005_eb85_1eb8_51ecu64, 0x400d_ae14_7ae1_47aeu64],
                [0x4005_eb85_1eb8_51ecu64, 0x4010_28f5_c28f_5c29u64],
                [0x4007_c28f_5c28_f5c3u64, 0x4011_147a_e147_ae14u64],
                [0x400b_47ae_147a_e148u64, 0x4011_147a_e147_ae14u64],
                [0x400d_eb85_1eb8_51ecu64, 0x4013_3333_3333_3333u64],
                [0x4005_d70a_3d70_a3d7u64, 0x4013_3333_3333_3333u64],
                [0x4001_9999_9999_999au64, 0x4011_147a_e147_ae14u64],
                [0x4001_9999_9999_999au64, 0x400c_147a_e147_ae14u64],
                [0x4006_0000_0000_0000u64, 0x4007_9999_9999_999au64],
            ],
        }
    } else if i == 10 {
        AreaModel {
            zone: Zone { kind: ZoneKind::Road, owner: Team::Red, pad: 0 },
            floor_m: 0,
            ceiling_m: 0x3fdc_cccc_cccc_cccd,
            corners_m: seq![
                [0x4019_5c28_f5c2_8f5cu64, 0x4013_0000_0000_0000u64],
                [0x4014_e147_ae14_7ae1u64, 0x4013_0000_0000_0000u64],
                [0x4014_e147_ae14_7ae1u64, 0x4015_a3d7_0a3d_70a4u64],
                [0x4019_5c28_f5c2_8f5cu64, 0x4015_a3d7_0a3d_70a4u64],
            ],
        }
    } else if i == 11 {
        AreaModel {
            zone: Zone { kind: ZoneKind::Road, owner: Team::Red, pad: 1 },
            floor_m: 0x3fc9_9999_9999_999a,
            ceiling_m: 0x3fe4_cccc_cccc_cccd,
            corners_m: seq![
                [0x4019_51eb_851e_b852u64, 0x4016_47ae_147a_e148u64],
                [0x4014_e147_ae14_7ae1u64, 0x4016_47ae_147a_e148u64],
                [0x4014_e147_ae14_7ae1u64, 0x4018_cccc_cccc_cccdu64],
                [0x4019_51eb_851e_b852u64, 0x4018_cccc_cccc_cccdu64],
            ],
        }
    } else if i == 12 {
        AreaModel {
            zone: Zone { kind: ZoneKind::Tunnel, owner: Team::Red, pad: 0 },
            floor_m: 0,
            ceiling_m: 0x3fdc_cccc_cccc_cccd,
            corners_m: seq![
                [0x4014_6666_6666_6666u64, 0x4011_28f5_c28f_5c29u64],
                [0x4011_47ae_147a_e148u64, 0x4011_28f5_c28f_5c29u64],
                [0x4011_47ae_147a_e148u64, 0x4014_0a3d_70a3_d70au64],
                [0x4014_6666_6666_6666u64, 0x4014_0a3d_70a3_d70au64],
            ],
        }
    } else if i == 13 {
        AreaModel {
            zone: Zone { kind: ZoneKind::Tunnel, owner: Team::Red, pad: 1 },
            floor_m: 0,
            ceiling_m: 0x3fdc_cccc_cccc_cccd,
            corners_m: seq![
                [0x4014_5c28_f5c2_8f5cu64, 0x4014_f5c2_8f5c_28f6u64],
                [0x4011_47ae_147a_e148u64, 0x4014_f5c2_8f5c_28f6u64],
                [0x4011_47ae_147a_e148u64, 0x4015_a3d7_0a3d_70a4u64],
                [0x4014_5c28_f5c2_8f5cu64, 0x4015_a3d7_0a3d_70a4u64],
            ],
        }
    } else if i == 14 {
        AreaModel {
            zone: Zone { kind: ZoneKind::Tunnel, owner: Team::Red, pad: 2 },
            floor_m: 0x3fc9_9999_9999_999a,
            ceiling_m: 0x3fe4_cccc_cccc_cccd,
            corners_m: seq![
                [0x4014_5c28_f5c2_8f5cu64, 0x4016_70a3_d70a_3d71u64],
                [0x4011_3d70_a3d7_0a3du64, 0x4016_70a3_d70a_3d71u64],
                [0x4011_3d70_a3d7_0a3du64, 0x4019_51eb_851e_b852u64],
                [0x4014_5c28_f5c2_8f5cu64, 0x4019_51eb_851e_b852u64],
            ],
        }
    } else if i == 15 {
        AreaModel {
            zone: Zone { kind: ZoneKind::Tunnel, owner: Team::Red, pad: 3 },
            floor_m: 0,
            ceiling_m: 0x3fdc_cccc_cccc_cccd,
            corners_m: seq![
                [0x3fb7_0a3d_70a3_d70au64, 0x4016_47ae_147a_e148u64],
                [0xbfe6_147a_e147_ae14u64, 0x4016_47ae_147a_e148u64],
                [0xbfe6_147a_e147_ae14u64, 0x4019_3333_3333_3333u64],
                [0x3fb7_0a3d_70a3_d70au64, 0x4019_3333_3333_3333u64],
            ],
        }
    } else if i == 16 {
        AreaModel {
            zone: Zone { kind: ZoneKind::Tunnel, owner: Team::Red, pad: 4 },
            floor_m: 0,
            ceiling_m: 0x3fdc_cccc_cccc_cccd,
            corners_m: seq![
                [0xbfec_28f5_c28f_5c29u64, 0x4016_47ae_147a_e148u64],
                [0xbff0_f5c2_8f5c_28f6u64, 0x4016_47ae_147a_e148u64],
                [0xbff0_f5c2_8f5c_28f6u64, 0x4019_3333_3333_3333u64],
                [0xbfec_28f5_c28f_5c29u64, 0x4019_3333_3333_3333u64],
            ],
        }
    } else if i == 17 {
        AreaModel {
            zone: Zone { kind: ZoneKind::Tunnel, owner: Team::Red, pad: 5 },
            floor_m: 0,
            ceiling_m: 0x3fdc_cccc_cccc_cccd,
            corners_m: seq![
                [0xbff4_0000_0000_0000u64, 0x4016_47ae_147a_e148u64],
                [0xc000_3d70_a3d7_0a3du64, 0x4016_47ae_147a_e148u64],
                [0xc000_3d70_a3d7_0a3du64, 0x4019_3333_3333_3333u64],
                [0xbff4_0000_0000_0000u64, 0x4019_3333_3333_3333u64],
            ],
        }
    } else if i == 18 {
        AreaModel {
            zone: Zone { kind: ZoneKind::LaunchRamp, owner: Team::Red, pad: 0 },
            floor_m: 0x3fc9_9999_9999_999a,
            ceiling_m: 0x3fe4_cccc_cccc_cccd,
            corners_m: seq![
                [0x4010_28f5_c28f_5c29u64, 0x401a_1eb8_51eb_851fu64],
                [0x4006_51eb_851e_b852u64, 0x401a_1eb8_51eb_851fu64],
                [0x4006_51eb_851e_b852u64, 0x401d_ae14_7ae1_47aeu64],
                [0x4010_28f5_c28f_5c29u64, 0x401d_ae14_7ae1_47aeu64],
            ],
        }
    } else {
        AreaModel {
            zone: Zone { kind: ZoneKind::LaunchRamp, owner: Team::Red, pad: 1 },
            floor_m: 0x3fc9_9999_9999_999a,
            ceiling_m: 0x3fe4_cccc_cccc_cccd,
            corners_m: seq![
                [0xbffe_6666_6666_6666u64, 0x401a_0000_0000_0000u64],
                [0xc008_147a_e147_ae14u64, 0x401a_0000_0000_0000u64],
                [0xc008_147a_e147_ae14u64, 0x401d_8f5c_28f5_c28fu64],
                [0xbffe_6666_6666_6666u64, 0x401d_8f5c_28f5_c28fu64],
            ],
        }
    }
}

impl ZoneArea {
    /// The buff point this area reports.
    pub fn zone(&self) -> (r: Zone)
        ensures
            r == self@.zone,
    {
        Zone { kind: self.kind, owner: self.owner, pad: self.pad }
    }

    /// Whether a chassis body centre at `position_m` stands on this area.
    /// `meets_m` says for each corner where the edge from it to the corner
    /// before meets the height of the centre; an edge that does not pass that
    /// height is not asked for.
    pub fn contains(&self, position_m: [u64; 3], meets_m: &Vec<u64>) -> (r: bool)
        ensures
            r == self@.holds(position_m[0], position_m[1], position_m[2], meets_m@),
    {
        let x: u64 = position_m[0];
        let y: u64 = position_m[1];
        let z: u64 = position_m[2];
        if !is_at_most(self.floor_m, z) || !is_at_most(z, self.ceiling_m) {
            return false;
        }
        let mut inside = false;
        let n: usize = self.polygon_m.len();
        let mut i: usize = 0;
        while i < n
            invariant
                i <= n,
                n == self.polygon_m@.len(),
                inside == (crossings(self.polygon_m@, x, y, meets_m@, i as nat) % 2 == 1),
            decreases n - i,
        {
            let a: [u64; 2] = self.polygon_m[i];
            let b: [u64; 2] = if i == 0 {
                self.polygon_m[n - 1]
            } else {
                self.polygon_m[i - 1]
            };
            let meet: u64 = if i < meets_m.len() {
                meets_m[i]
            } else {
                NOT_A_NUMBER
            };
            if is_greater(a[1], y) != is_greater(b[1], y) && is_greater(meet, x) {
                inside = !inside;
            }
            i += 1;
        }
        inside
    }
}

/// Every buff point of the field, with red on the +x half: red's points, then
/// blue's, which are red's mirrored through the field centre.
pub fn rmuc_2026() -> (r: Vec<ZoneArea>)
    ensures
        r@.len() == 2 * RED_COUNT,
        forall|i: int| 0 <= i < RED_COUNT ==> (#[trigger] r@[i])@ == red_area(i),
        forall|i: int|
            RED_COUNT <= i < 2 * RED_COUNT ==> (#[trigger] r@[i])@ == red_area(
                i - RED_COUNT,
            ).mirrored(),
{
    let mut areas: Vec<ZoneArea> = red_areas();
    let mut i: usize = 0;
    while i < RED_COUNT
        invariant
            i <= RED_COUNT,
            areas@.len() == RED_COUNT + i,
            forall|k: int| 0 <= k < RED_COUNT ==> (#[trigger] areas@[k])@ == red_area(k),
            forall|k: int|
                RED_COUNT <= k < RED_COUNT + i ==> (#[trigger] areas@[k])@ == red_area(
                    k - RED_COUNT,
                ).mirrored(),
        decreases RED_COUNT - i,
    {
        let blue = mirror(&areas[i]);
        areas.push(blue);
        i += 1;
    }
    areas
}

/// The area mirrored through the field centre, for the other team.
fn mirror(area: &ZoneArea) -> (r: ZoneArea)
    ensures
        r@ == area@.mirrored(),
{
    let mut corners: Vec<[u64; 2]> = Vec::new();
    let mut i: usize = 0;
    while i < area.polygon_m.len()
        invariant
            i <= area.polygon_m@.len(),
            corners@.len() == i,
            forall|k: int| 0 <= k < i ==> (#[trigger] corners@[k]) == turned(area.polygon_m@[k]),
        decreases area.polygon_m@.len() - i,
    {
        let c: [u64; 2] = area.polygon_m[i];
        corners.push([negate(c[0]), negate(c[1])]);
        i += 1;
    }
    proof {
        assert(corners@ =~= area@.mirrored().corners_m);
    }
    ZoneArea {
        kind: area.kind,
        owner: area.owner.other(),
        pad: area.pad,
        floor_m: area.floor_m,
        ceiling_m: area.ceiling_m,
        polygon_m: corners,
    }
}

/// Everything is a number, the point is level with no corner, and no edge meets
/// its height at the point itself.
pub open spec fn generic_point(corners: Seq<[u64; 2]>, x: u64, y: u64, meets: Seq<u64>) -> bool {
    &&& !nan(x)
    &&& !nan(y)
    &&& meets.len() == corners.len()
    &&& forall|i: int|
        0 <= i < corners.len() ==> {
            &&& !nan((#[trigger] corners[i])[1])
            &&& !same_number(corners[i][1], y)
            &&& passes_height(corners[i], corner_before(corners, i), y) ==> !nan(meets[i])
                && !same_number(meets[i], x)
        }
}

/// How many of the first `n` edges pass the height of a point.
spec fn passes(corners: Seq<[u64; 2]>, y: u64, n: nat) -> nat
    decreases n,
{
    if n == 0 {
        0
    } else {
        passes(corners, y, (n - 1) as nat) + (if passes_height(
            corners[n - 1],
            corner_before(corners, n - 1),
            y,
        ) {
            1nat
        } else {
            0
        })
    }
}

/// After an odd number of passes an outline is on the other side of a height
/// than its last corner.
proof fn passes_alternate(corners: Seq<[u64; 2]>, y: u64, n: nat)
    requires
        0 < n <= corners.len(),
    ensures
        passes(corners, y, n) % 2 == 1 <==> exceeds(corners[n - 1][1], y) != exceeds(
            corners.last()[1],
            y,
        ),
    decreases n,
{
    reveal_with_fuel(passes, 2);
    if n > 1 {
        passes_alternate(corners, y, (n - 1) as nat);
    }
}

/// The number with the other sign lies on the other side of zero.
proof fn negation_turns_the_order(a: u64, b: u64)
    ensures
        nan(negated(a)) == nan(a),
        rank(negated(a)) == -rank(a),
        exceeds(negated(a), negated(b)) == exceeds(b, a),
{
}

/// The rays from a point and from the turned point together cross every edge
/// that passes the point's height.
proof fn rays_share_the_edges(
    corners: Seq<[u64; 2]>,
    x: u64,
    y: u64,
    meets: Seq<u64>,
    n: nat,
)
    requires
        n <= corners.len(),
        generic_point(corners, x, y, meets),
    ensures
        crossings(corners, x, y, meets, n) + crossings(
            corners.map_values(|c: [u64; 2]| turned(c)),
            negated(x),
            negated(y),
            meets.map_values(|m: u64| negated(m)),
            n,
        ) == passes(corners, y, n),
    decreases n,
{
    if n > 0 {
        rays_share_the_edges(corners, x, y, meets, (n - 1) as nat);
        let turned_corners = corners.map_values(|c: [u64; 2]| turned(c));
        let turned_meets = meets.map_values(|m: u64| negated(m));
        let a = corners[n - 1];
        let b = corner_before(corners, n - 1);
        assert(turned_corners[n - 1] == turned(a));
        assert(corner_before(turned_corners, n - 1) == turned(b));
        assert(meet_at(turned_meets, n - 1) == negated(meets[n - 1]));
        if n > 1 {
            assert(b == corners[n - 2]);
        } else {
            assert(b == corners[corners.len() - 1]);
        }
        assert(!nan(b[1]) && !same_number(b[1], y));
        negation_turns_the_order(a[1], y);
        negation_turns_the_order(b[1], y);
        negation_turns_the_order(meets[n - 1], x);
    }
}

/// The field is centrally symmetric: away from the edges a point lies on an
/// area exactly when the point turned half around lies on the mirrored one.
/// On an edge the ray's direction decides, so there the two may differ.
pub proof fn mirrored_areas_hold_mirrored_points(
    area: AreaModel,
    x: u64,
    y: u64,
    z: u64,
    meets: Seq<u64>,
)
    requires
        generic_point(area.corners_m, x, y, meets),
    ensures
        area.holds(x, y, z, meets) == area.mirrored().holds(
            negated(x),
            negated(y),
            z,
            meets.map_values(|m: u64| negated(m)),
        ),
{
    let n = area.corners_m.len();
    let here = crossings(area.corners_m, x, y, meets, n);
    let there = crossings(
        area.mirrored().corners_m,
        negated(x),
        negated(y),
        meets.map_values(|m: u64| negated(m)),
        n,
    );
    rays_share_the_edges(area.corners_m, x, y, meets, n);
    outlines_close(area.corners_m, y);
    assert(area.mirrored().corners_m.len() == n);
    same_parity(here, there);
}

/// An outline passes a height an even number of times.
proof fn outlines_close(corners: Seq<[u64; 2]>, y: u64)
    ensures
        passes(corners, y, corners.len()) % 2 == 0,
{
    if corners.len() > 0 {
        passes_alternate(corners, y, corners.len());
    }
}

/// Two numbers that add up to an even one are both odd or both even.
proof fn same_parity(a: nat, b: nat)
    requires
        (a + b) % 2 == 0,
    ensures
        a % 2 == b % 2,
{
}

/// Red's base.
fn red_base() -> (r: ZoneArea)
    ensures
        r@ == red_area(0),
{
    let mut corners: Vec<[u64; 2]> = Vec::new();
    corners.push([0x4028_051e_b851_eb85, 0xbffe_e147_ae14_7ae1]);
    corners.push([0x4023_eb85_1eb8_51ec, 0xbfe8_a3d7_0a3d_70a4]);
    corners.push([0x4023_e147_ae14_7ae1, 0x3fea_e147_ae14_7ae1]);
    corners.push([0x4027_d1eb_851e_b852, 0x3fff_5c28_f5c2_8f5c]);
    corners.push([0x402a_b851_eb85_1eb8, 0x3ff2_b851_eb85_1eb8]);
    corners.push([0x402a_c28f_5c28_f5c3, 0xbff2_3d70_a3d7_0a3d]);
    proof {
        assert(corners@ =~= red_area(0).corners_m);
    }
    ZoneArea {
        kind: ZoneKind::Base,
        owner: Team::Red,
        pad: 0,
        floor_m: 0,
        ceiling_m: 0x3fdc_cccc_cccc_cccd,
        polygon_m: corners,
    }
}

/// Red's resupply lane.
fn red_resupply_lane() -> (r: ZoneArea)
    ensures
        r@ == red_area(1),
{
    let mut corners: Vec<[u64; 2]> = Vec::new();
    corners.push([0x4025_47ae_147a_e148, 0x4013_d70a_3d70_a3d7]);
    corners.push([0x4025_47ae_147a_e148, 0x4016_7ae1_47ae_147b]);
    corners.push([0x402a_70a3_d70a_3d71, 0x4016_7ae1_47ae_147b]);
    corners.push([0x402a_75c2_8f5c_28f6, 0x4012_6666_6666_6666]);
    corners.push([0x4026_0a3d_70a3_d70a, 0x4012_6666_6666_6666]);
    proof {
        assert(corners@ =~= red_area(1).corners_m);
    }
    ZoneArea {
        kind: ZoneKind::Resupply,
        owner: Team::Red,
        pad: 0,
        floor_m: 0,
        ceiling_m: 0x3fdc_cccc_cccc_cccd,
        polygon_m: corners,
    }
}

/// Red's resupply yard.
fn red_resupply_yard() -> (r: ZoneArea)
    ensures
        r@ == red_area(2),
{
    let mut corners: Vec<[u64; 2]> = Vec::new();
    corners.push([0x4025_3333_3333_3333, 0x4016_e147_ae14_7ae1]);
    corners.push([0x4025_2e14_7ae1_47ae, 0x401d_a3d7_0a3d_70a4]);
    corners.push([0x4029_6666_6666_6666, 0x401d_7ae1_47ae_147b]);
    corners.push([0x4029_70a3_d70a_3d71, 0x4017_0a3d_70a3_d70a]);
    proof {
        assert(corners@ =~= red_area(2).corners_m);
    }
    ZoneArea {
        kind: ZoneKind::Resupply,
        owner: Team::Red,
        pad: 0,
        floor_m: 0,
        ceiling_m: 0x3fdc_cccc_cccc_cccd,
        polygon_m: corners,
    }
}

/// Red's trapezoid highland.
fn red_trapezoid_highland() -> (r: ZoneArea)
    ensures
        r@ == red_area(3),
{
    let mut corners: Vec<[u64; 2]> = Vec::new();
    corners.push([0x4021_c28f_5c28_f5c3, 0xc011_3333_3333_3333]);
    corners.push([0x4022_9eb8_51eb_851f, 0xc00a_7ae1_47ae_147b]);
    corners.push([0x4026_0a3d_70a3_d70a, 0xc00a_7ae1_47ae_147b]);
    corners.push([0x4026_0f5c_28f5_c28f, 0xc011_3333_3333_3333]);
    proof {
        assert(corners@ =~= red_area(3).corners_m);
    }
    ZoneArea {
        kind: ZoneKind::TrapezoidHighland,
        owner: Team::Red,
        pad: 0,
        floor_m: 0x3fd9_9999_9999_999a,
        ceiling_m: 0x3feb_3333_3333_3334,
        polygon_m: corners,
    }
}

/// Red's fortress.
fn red_fortress() -> (r: ZoneArea)
    ensures
        r@ == red_area(4),
{
    let mut corners: Vec<[u64; 2]> = Vec::new();
    corners.push([0x401b_c28f_5c28_f5c3, 0xbfee_147a_e147_ae14]);
    corners.push([0x4019_70a3_d70a_3d71, 0x3fa9_9999_9999_999a]);
    corners.push([0x401b_ae14_7ae1_47ae, 0x3ff0_28f5_c28f_5c29]);
    corners.push([0x4020_1eb8_51eb_851f, 0x3ff0_28f5_c28f_5c29]);
    corners.push([0x4021_47ae_147a_e148, 0x3fa9_9999_9999_999a]);
    corners.push([0x4020_28f5_c28f_5c29, 0xbfee_147a_e147_ae14]);
    proof {
        assert(corners@ =~= red_area(4).corners_m);
    }
    ZoneArea {
        kind: ZoneKind::Fortress,
        owner: Team::Red,
        pad: 0,
        floor_m: 0,
        ceiling_m: 0x3fdc_cccc_cccc_cccd,
        polygon_m: corners,
    }
}

/// Red's elevated crossing foot.
fn red_elevated_crossing_foot() -> (r: ZoneArea)
    ensures
        r@ == red_area(5),
{
    let mut corners: Vec<[u64; 2]> = Vec::new();
    corners.push([0x4013_7ae1_47ae_147b, 0xbff5_eb85_1eb8_51ec]);
    corners.push([0x4013_5c28_f5c2_8f5c, 0x3ff7_0a3d_70a3_d70a]);
    corners.push([0x4016_0a3d_70a3_d70a, 0x3ff7_0a3d_70a3_d70a]);
    corners.push([0x4016_d70a_3d70_a3d7, 0x3ff3_d70a_3d70_a3d7]);
    corners.push([0x4016_f5c2_8f5c_28f6, 0xbff2_b851_eb85_1eb8]);
    corners.push([0x4016_28f5_c28f_5c29, 0xbff5_eb85_1eb8_51ec]);
    proof {
        assert(corners@ =~= red_area(5).corners_m);
    }
    ZoneArea {
        kind: ZoneKind::ElevatedCrossing,
        owner: Team::Red,
        pad: 0,
        floor_m: 0,
        ceiling_m: 0x3fdc_cccc_cccc_cccd,
        polygon_m: corners,
    }
}

/// Red's elevated crossing deck.
fn red_elevated_crossing_deck() -> (r: ZoneArea)
    ensures
        r@ == red_area(6),
{
    let mut corners: Vec<[u64; 2]> = Vec::new();
    corners.push([0x4007_1eb8_51eb_851f, 0xbff5_eb85_1eb8_51ec]);
    corners.push([0x4006_e147_ae14_7ae1, 0x3ff3_3333_3333_3333]);
    corners.push([0x4008_7ae1_47ae_147b, 0x3ff7_0a3d_70a3_d70a]);
    corners.push([0x400d_5c28_f5c2_8f5c, 0x3ff7_0a3d_70a3_d70a]);
    corners.push([0x400d_851e_b851_eb85, 0xbff5_eb85_1eb8_51ec]);
    proof {
        assert(corners@ =~= red_area(6).corners_m);
    }
    ZoneArea {
        kind: ZoneKind::ElevatedCrossing,
        owner: Team::Red,
        pad: 1,
        floor_m: 0x3fd3_3333_3333_3333,
        ceiling_m: 0x3fe8_0000_0000_0000,
        polygon_m: corners,
    }
}

/// Red's central highland deck.
fn red_central_highland_deck() -> (r: ZoneArea)
    ensures
        r@ == red_area(7),
{
    let mut corners: Vec<[u64; 2]> = Vec::new();
    corners.push([0x4007_1eb8_51eb_851f, 0xbff5_eb85_1eb8_51ec]);
    corners.push([0x4006_e147_ae14_7ae1, 0x3ff3_3333_3333_3333]);
    corners.push([0x4008_7ae1_47ae_147b, 0x3ff7_0a3d_70a3_d70a]);
    corners.push([0x400d_5c28_f5c2_8f5c, 0x3ff7_0a3d_70a3_d70a]);
    corners.push([0x400d_851e_b851_eb85, 0xbff5_eb85_1eb8_51ec]);
    proof {
        assert(corners@ =~= red_area(7).corners_m);
    }
    ZoneArea {
        kind: ZoneKind::CentralHighland,
        owner: Team::Red,
        pad: 0,
        floor_m: 0x3fd3_3333_3333_3333,
        ceiling_m: 0x3fe8_0000_0000_0000,
        polygon_m: corners,
    }
}

/// Red's central highland edge.
fn red_central_highland_edge() -> (r: ZoneArea)
    ensures
        r@ == red_area(8),
{
    let mut corners: Vec<[u64; 2]> = Vec::new();
    corners.push([0x3ff7_ae14_7ae1_47ae, 0xc013_3333_3333_3333]);
    corners.push([0x3ff7_5c28_f5c2_8f5c, 0xc00d_1eb8_51eb_851f]);
    corners.push([0x4007_1eb8_51eb_851f, 0xbff6_e147_ae14_7ae1]);
    corners.push([0x400d_851e_b851_eb85, 0xbff6_e147_ae14_7ae1]);
    corners.push([0x400d_47ae_147a_e148, 0xbfff_5c28_f5c2_8f5c]);
    corners.push([0x3ffa_e147_ae14_7ae1, 0xc013_3333_3333_3333]);
    proof {
        assert(corners@ =~= red_area(8).corners_m);
    }
    ZoneArea {
        kind: ZoneKind::CentralHighland,
        owner: Team::Red,
        pad: 0,
        floor_m: 0x3fd3_3333_3333_3333,
        ceiling_m: 0x3fe8_0000_0000_0000,
        polygon_m: corners,
    }
}

/// Red's outpost.
fn red_outpost() -> (r: ZoneArea)
    ensures
        r@ == red_area(9),
{
    let mut corners: Vec<[u64; 2]> = Vec::new();
    corners.push([0x400c_f5c2_8f5c_28f6, 0x4007_9999_9999_999a]);
    corners.push([0x400b_47ae_147a_e148, 0x400b_d70a_3d70_a3d7]);
    corners.push([0x4007_d70a_3d70_a3d7, 0x400b_d70a_3d70_a3d7]);
    corners.push([0x4005_eb85_1eb8_51ec, 0x400d_ae14_7ae1_47ae]);
    corners.push([0x4005_eb85_1eb8_51ec, 0x4010_28f5_c28f_5c29]);
    corners.push([0x4007_c28f_5c28_f5c3, 0x4011_147a_e147_ae14]);
    corners.push([0x400b_47ae_147a_e148, 0x4011_147a_e147_ae14]);
    corners.push([0x400d_eb85_1eb8_51ec, 0x4013_3333_3333_3333]);
    corners.push([0x4005_d70a_3d70_a3d7, 0x4013_3333_3333_3333]);
    corners.push([0x4001_9999_9999_999a, 0x4011_147a_e147_ae14]);
    corners.push([0x4001_9999_9999_999a, 0x400c_147a_e147_ae14]);
    corners.push([0x4006_0000_0000_0000, 0x4007_9999_9999_999a]);
    proof {
        assert(corners@ =~= red_area(9).corners_m);
    }
    ZoneArea {
        kind: ZoneKind::Outpost,
        owner: Team::Red,
        pad: 0,
        floor_m: 0x3fd3_3333_3333_3333,
        ceiling_m: 0x3fe8_0000_0000_0000,
        polygon_m: corners,
    }
}

/// Red's road foot.
fn red_road_foot() -> (r: ZoneArea)
    ensures
        r@ == red_area(10),
{
    let mut corners: Vec<[u64; 2]> = Vec::new();
    corners.push([0x4019_5c28_f5c2_8f5c, 0x4013_0000_0000_0000]);
    corners.push([0x4014_e147_ae14_7ae1, 0x4013_0000_0000_0000]);
    corners.push([0x4014_e147_ae14_7ae1, 0x4015_a3d7_0a3d_70a4]);
    corners.push([0x4019_5c28_f5c2_8f5c, 0x4015_a3d7_0a3d_70a4]);
    proof {
        assert(corners@ =~= red_area(10).corners_m);
    }
    ZoneArea {
        kind: ZoneKind::Road,
        owner: Team::Red,
        pad: 0,
        floor_m: 0,
        ceiling_m: 0x3fdc_cccc_cccc_cccd,
        polygon_m: corners,
    }
}

/// Red's road deck.
fn red_road_deck() -> (r: ZoneArea)
    ensures
        r@ == red_area(11),
{
    let mut corners: Vec<[u64; 2]> = Vec::new();
    corners.push([0x4019_51eb_851e_b852, 0x4016_47ae_147a_e148]);
    corners.push([0x4014_e147_ae14_7ae1, 0x4016_47ae_147a_e148]);
    corners.push([0x4014_e147_ae14_7ae1, 0x4018_cccc_cccc_cccd]);
    corners.push([0x4019_51eb_851e_b852, 0x4018_cccc_cccc_cccd]);
    proof {
        assert(corners@ =~= red_area(11).corners_m);
    }
    ZoneArea {
        kind: ZoneKind::Road,
        owner: Team::Red,
        pad: 1,
        floor_m: 0x3fc9_9999_9999_999a,
        ceiling_m: 0x3fe4_cccc_cccc_cccd,
        polygon_m: corners,
    }
}

/// Red's tunnel 0.
fn red_tunnel_0() -> (r: ZoneArea)
    ensures
        r@ == red_area(12),
{
    let mut corners: Vec<[u64; 2]> = Vec::new();
    corners.push([0x4014_6666_6666_6666, 0x4011_28f5_c28f_5c29]);
    corners.push([0x4011_47ae_147a_e148, 0x4011_28f5_c28f_5c29]);
    corners.push([0x4011_47ae_147a_e148, 0x4014_0a3d_70a3_d70a]);
    corners.push([0x4014_6666_6666_6666, 0x4014_0a3d_70a3_d70a]);
    proof {
        assert(corners@ =~= red_area(12).corners_m);
    }
    ZoneArea {
        kind: ZoneKind::Tunnel,
        owner: Team::Red,
        pad: 0,
        floor_m: 0,
        ceiling_m: 0x3fdc_cccc_cccc_cccd,
        polygon_m: corners,
    }
}

/// Red's tunnel 1.
fn red_tunnel_1() -> (r: ZoneArea)
    ensures
        r@ == red_area(13),
{
    let mut corners: Vec<[u64; 2]> = Vec::new();
    corners.push([0x4014_5c28_f5c2_8f5c, 0x4014_f5c2_8f5c_28f6]);
    corners.push([0x4011_47ae_147a_e148, 0x4014_f5c2_8f5c_28f6]);
    corners.push([0x4011_47ae_147a_e148, 0x4015_a3d7_0a3d_70a4]);
    corners.push([0x4014_5c28_f5c2_8f5c, 0x4015_a3d7_0a3d_70a4]);
    proof {
        assert(corners@ =~= red_area(13).corners_m);
    }
    ZoneArea {
        kind: ZoneKind::Tunnel,
        owner: Team::Red,
        pad: 1,
        floor_m: 0,
        ceiling_m: 0x3fdc_cccc_cccc_cccd,
        polygon_m: corners,
    }
}

/// Red's tunnel 2.
fn red_tunnel_2() -> (r: ZoneArea)
    ensures
        r@ == red_area(14),
{
    let mut corners: Vec<[u64; 2]> = Vec::new();
    corners.push([0x4014_5c28_f5c2_8f5c, 0x4016_70a3_d70a_3d71]);
    corners.push([0x4011_3d70_a3d7_0a3d, 0x4016_70a3_d70a_3d71]);
    corners.push([0x4011_3d70_a3d7_0a3d, 0x4019_51eb_851e_b852]);
    corners.push([0x4014_5c28_f5c2_8f5c, 0x4019_51eb_851e_b852]);
    proof {
        assert(corners@ =~= red_area(14).corners_m);
    }
    ZoneArea {
        kind: ZoneKind::Tunnel,
        owner: Team::Red,
        pad: 2,
        floor_m: 0x3fc9_9999_9999_999a,
        ceiling_m: 0x3fe4_cccc_cccc_cccd,
        polygon_m: corners,
    }
}

/// Red's tunnel 3.
fn red_tunnel_3() -> (r: ZoneArea)
    ensures
        r@ == red_area(15),
{
    let mut corners: Vec<[u64; 2]> = Vec::new();
    corners.push([0x3fb7_0a3d_70a3_d70a, 0x4016_47ae_147a_e148]);
    corners.push([0xbfe6_147a_e147_ae14, 0x4016_47ae_147a_e148]);
    corners.push([0xbfe6_147a_e147_ae14, 0x4019_3333_3333_3333]);
    corners.push([0x3fb7_0a3d_70a3_d70a, 0x4019_3333_3333_3333]);
    proof {
        assert(corners@ =~= red_area(15).corners_m);
    }
    ZoneArea {
        kind: ZoneKind::Tunnel,
        owner: Team::Red,
        pad: 3,
        floor_m: 0,
        ceiling_m: 0x3fdc_cccc_cccc_cccd,
        polygon_m: corners,
    }
}

/// Red's tunnel 4.
fn red_tunnel_4() -> (r: ZoneArea)
    ensures
        r@ == red_area(16),
{
    let mut corners: Vec<[u64; 2]> = Vec::new();
    corners.push([0xbfec_28f5_c28f_5c29, 0x4016_47ae_147a_e148]);
    corners.push([0xbff0_f5c2_8f5c_28f6, 0x4016_47ae_147a_e148]);
    corners.push([0xbff0_f5c2_8f5c_28f6, 0x4019_3333_3333_3333]);
    corners.push([0xbfec_28f5_c28f_5c29, 0x4019_3333_3333_3333]);
    proof {
        assert(corners@ =~= red_area(16).corners_m);
    }
    ZoneArea {
        kind: ZoneKind::Tunnel,
        owner: Team::Red,
        pad: 4,
        floor_m: 0,
        ceiling_m: 0x3fdc_cccc_cccc_cccd,
        polygon_m: corners,
    }
}

/// Red's tunnel 5.
fn red_tunnel_5() -> (r: ZoneArea)
    ensures
        r@ == red_area(17),
{
    let mut corners: Vec<[u64; 2]> = Vec::new();
    corners.push([0xbff4_0000_0000_0000, 0x4016_47ae_147a_e148]);
    corners.push([0xc000_3d70_a3d7_0a3d, 0x4016_47ae_147a_e148]);
    corners.push([0xc000_3d70_a3d7_0a3d, 0x4019_3333_3333_3333]);
    corners.push([0xbff4_0000_0000_0000, 0x4019_3333_3333_3333]);
    proof {
        assert(corners@ =~= red_area(17).corners_m);
    }
    ZoneArea {
        kind: ZoneKind::Tunnel,
        owner: Team::Red,
        pad: 5,
        floor_m: 0,
        ceiling_m: 0x3fdc_cccc_cccc_cccd,
        polygon_m: corners,
    }
}

/// Red's launch ramp takeoff.
fn red_launch_ramp_takeoff() -> (r: ZoneArea)
    ensures
        r@ == red_area(18),
{
    let mut corners: Vec<[u64; 2]> = Vec::new();
    corners.push([0x4010_28f5_c28f_5c29, 0x401a_1eb8_51eb_851f]);
    corners.push([0x4006_51eb_851e_b852, 0x401a_1eb8_51eb_851f]);
    corners.push([0x4006_51eb_851e_b852, 0x401d_ae14_7ae1_47ae]);
    corners.push([0x4010_28f5_c28f_5c29, 0x401d_ae14_7ae1_47ae]);
    proof {
        assert(corners@ =~= red_area(18).corners_m);
    }
    ZoneArea {
        kind: ZoneKind::LaunchRamp,
        owner: Team::Red,
        pad: 0,
        floor_m: 0x3fc9_9999_9999_999a,
        ceiling_m: 0x3fe4_cccc_cccc_cccd,
        polygon_m: corners,
    }
}

/// Red's launch ramp landing.
fn red_launch_ramp_landing() -> (r: ZoneArea)
    ensures
        r@ == red_area(19),
{
    let mut corners: Vec<[u64; 2]> = Vec::new();
    corners.push([0xbffe_6666_6666_6666, 0x401a_0000_0000_0000]);
    corners.push([0xc008_147a_e147_ae14, 0x401a_0000_0000_0000]);
    corners.push([0xc008_147a_e147_ae14, 0x401d_8f5c_28f5_c28f]);
    corners.push([0xbffe_6666_6666_6666, 0x401d_8f5c_28f5_c28f]);
    proof {
        assert(corners@ =~= red_area(19).corners_m);
    }
    ZoneArea {
        kind: ZoneKind::LaunchRamp,
        owner: Team::Red,
        pad: 1,
        floor_m: 0x3fc9_9999_9999_999a,
        ceiling_m: 0x3fe4_cccc_cccc_cccd,
        polygon_m: corners,
    }
}

/// Red's buff points.
fn red_areas() -> (r: Vec<ZoneArea>)
    ensures
        r@.len() == RED_COUNT,
        forall|i: int| 0 <= i < RED_COUNT ==> (#[trigger] r@[i])@ == red_area(i),
{
    let mut areas: Vec<ZoneArea> = Vec::new();
    areas.push(red_base());
    areas.push(red_resupply_lane());
    areas.push(red_resupply_yard());
    areas.push(red_trapezoid_highland());
    areas.push(red_fortress());
    areas.push(red_elevated_crossing_foot());
    areas.push(red_elevated_crossing_deck());
    areas.push(red_central_highland_deck());
    areas.push(red_central_highland_edge());
    areas.push(red_outpost());
    areas.push(red_road_foot());
    areas.push(red_road_deck());
    areas.push(red_tunnel_0());
    areas.push(red_tunnel_1());
    areas.push(red_tunnel_2());
    areas.push(red_tunnel_3());
    areas.push(red_tunnel_4());
    areas.push(red_tunnel_5());
    areas.push(red_launch_ramp_takeoff());
    areas.push(red_launch_ramp_landing());
    areas
}

/// The edge that ends in a corner passes a height, one end above it and one
/// not, and meets it to the right of a point.
pub open spec fn passes_right_of(
    corners: Seq<[u64; 2]>,
    i: int,
    x: u64,
    y: u64,
    meets: Seq<u64>,
) -> bool {
    let here = corners[i][1];
    let before = corners[if i == 0 {
        corners.len() - 1
    } else {
        i - 1
    }][1];
    &&& exceeds(here, y) && !exceeds(before, y) || exceeds(before, y) && !exceeds(here, y)
    &&& i < meets.len()
    &&& exceeds(meets[i], x)
}

/// Corners whose edge passes right of a point.
pub open spec fn edges_right_of(
    corners: Seq<[u64; 2]>,
    x: u64,
    y: u64,
    meets: Seq<u64>,
    n: nat,
) -> Seq<int> {
    Seq::new(n, |i: int| i).filter(|i: int| passes_right_of(corners, i, x, y, meets))
}

/// Crossings are the edges that pass right of a point.
proof fn crossings_are_edges(
    corners: Seq<[u64; 2]>,
    x: u64,
    y: u64,
    meets: Seq<u64>,
    n: nat,
)
    requires
        n <= corners.len(),
    ensures
        crossings(corners, x, y, meets, n) == edges_right_of(corners, x, y, meets, n).len(),
    decreases n,
{
    reveal(Seq::filter);
    let all = Seq::new(n, |i: int| i);
    if n > 0 {
        let m = (n - 1) as nat;
        crossings_are_edges(corners, x, y, meets, m);
        assert(all.drop_last() =~= Seq::new(m, |i: int| i));
        assert(all.last() == n - 1);
        assert(nan(NOT_A_NUMBER));
    } else {
        assert(edges_right_of(corners, x, y, meets, n) =~= Seq::empty());
    }
}

/// A buff point holds a body's centre exactly where it lies between the floor
/// and 0.45 m above it, both included, and an odd number of the outline's edges
/// pass to its right.
pub proof fn footprints_hold_what_stands_in_them(
    area: AreaModel,
    x: u64,
    y: u64,
    z: u64,
    meets: Seq<u64>,
)
    ensures
        area.holds(x, y, z, meets) <==> {
            &&& at_most(area.floor_m, z)
            &&& at_most(z, area.ceiling_m)
            &&& edges_right_of(area.corners_m, x, y, meets, area.corners_m.len()).len() % 2 == 1
        },
{
    crossings_are_edges(area.corners_m, x, y, meets, area.corners_m.len());
}

/// The mirrored point belongs to the other team and lies across the field's
/// centre, corner by corner, at the same height and with the same pad.
pub proof fn mirrored_points_lie_across(area: AreaModel, i: int)
    requires
        0 <= i < area.corners_m.len(),
    ensures
        ({
            let other = area.mirrored();
            &&& other.zone.kind == area.zone.kind
            &&& other.zone.pad == area.zone.pad
            &&& other.zone.owner != area.zone.owner
            &&& other.floor_m == area.floor_m && other.ceiling_m == area.ceiling_m
            &&& other.corners_m.len() == area.corners_m.len()
            &&& other.corners_m[i][0] == negated(area.corners_m[i][0])
            &&& other.corners_m[i][1] == negated(area.corners_m[i][1])
            &&& other.mirrored().corners_m[i] == area.corners_m[i]
        }),
{
    let c = area.corners_m[i];
    assert(area.mirrored().mirrored().corners_m[i] == turned(turned(c)));
    assert(turned(turned(c)) =~= c);
}

/// The points of a season, for red: a base, two resupply zones, the trapezoid
/// highland, the fortress, two pads each of the elevated crossing, the road and
/// the launch ramp, two central highlands, the outpost's surroundings and six
/// pads of the tunnel, numbered within their course.
pub proof fn the_seasons_points(i: int)
    requires
        0 <= i < 20,
    ensures
        ({
            let area = red_area(i);
            let zone = area.zone;
            &&& zone.owner == Team::Red
            &&& zone.kind == ZoneKind::Base <==> i == 0
            &&& zone.kind == ZoneKind::Resupply <==> 1 <= i <= 2
            &&& zone.kind == ZoneKind::TrapezoidHighland <==> i == 3
            &&& zone.kind == ZoneKind::Fortress <==> i == 4
            &&& zone.kind == ZoneKind::ElevatedCrossing <==> 5 <= i <= 6
            &&& zone.kind == ZoneKind::CentralHighland <==> 7 <= i <= 8
            &&& zone.kind == ZoneKind::Outpost <==> i == 9
            &&& zone.kind == ZoneKind::Road <==> 10 <= i <= 11
            &&& zone.kind == ZoneKind::Tunnel <==> 12 <= i <= 17
            &&& zone.kind == ZoneKind::LaunchRamp <==> 18 <= i
            &&& zone.pad == (if 5 <= i <= 6 {
                i - 5
            } else if 10 <= i <= 11 {
                i - 10
            } else if 12 <= i <= 17 {
                i - 12
            } else if 18 <= i {
                i - 18
            } else {
                0
            })
            &&& area.corners_m.len() >= 4
        }),
{
}

/// Every point's band is as high as a body reaches: 0.45 m above a floor at 0,
/// 0.2, 0.3 or 0.4 m.
pub proof fn the_seasons_bands(i: int)
    requires
        0 <= i < 20,
    ensures
        ({
            let area = red_area(i);
            ||| area.floor_m == 0 && area.ceiling_m == 0x3fdc_cccc_cccc_cccd
            ||| area.floor_m == 0x3fc9_9999_9999_999a && area.ceiling_m == 0x3fe4_cccc_cccc_cccd
            ||| area.floor_m == 0x3fd3_3333_3333_3333 && area.ceiling_m == 0x3fe8_0000_0000_0000
            ||| area.floor_m == 0x3fd9_9999_9999_999a && area.ceiling_m == 0x3feb_3333_3333_3334
        }),
        red_area(i).floor_m == 0 <==> i <= 2 || i == 4 || i == 5 || i == 10 || i == 12 || i == 13
            || 15 <= i <= 17,
{
}

/// Road, tunnel and ramp pads are upright rectangles, and the deck of the
/// elevated crossing is part of the central highland.
pub proof fn pads_are_rectangles(i: int)
    requires
        10 <= i < 20,
    ensures
        ({
            let c = red_area(i).corners_m;
            &&& c.len() == 4
            &&& c[0][0] == c[3][0] && c[1][0] == c[2][0]
            &&& c[0][1] == c[1][1] && c[2][1] == c[3][1]
            &&& exceeds(c[0][0], c[1][0])
            &&& exceeds(c[2][1], c[1][1])
        }),
        red_area(6).corners_m == red_area(7).corners_m,
        red_area(6).floor_m == red_area(7).floor_m,
{
}

} // verus!

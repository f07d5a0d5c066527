//! The steps of building a simulation, and what is announced at each.
use vstd::prelude::*;

verus! {

/// Construction events for a loading screen or a headless host.
#[derive(Clone, Debug, PartialEq, Eq)]
pub enum BuildProgress {
    /// Terrain files are being read.
    ReadingTerrain,
    /// The physics world and the rules are being built.
    BuildingPhysics,
    /// Terrain finished loading; the string describes the loaded mesh.
    TerrainReady(String),
    /// The chassis spawner is being prepared.
    PreparingChassis,
}

/// One step of building a simulation.
#[derive(Clone, Copy, Debug, PartialEq, Eq, Structural)]
pub enum BuildStep {
    /// Read the terrain files.
    ReadTerrain,
    /// Build the field.
    BuildField,
    /// Add the terrain to the field.
    AddTerrain,
    /// Prepare the chassis spawner.
    PrepareChassis,
}

/// The steps, in order: terrain only where it is wanted, a spawner only where
/// there is a chassis to spawn.
pub open spec fn build_steps(terrain: bool, chassis: bool) -> Seq<BuildStep> {
    let read = if terrain {
        seq![BuildStep::ReadTerrain, BuildStep::BuildField, BuildStep::AddTerrain]
    } else {
        seq![BuildStep::BuildField]
    };
    if chassis {
        read.push(BuildStep::PrepareChassis)
    } else {
        read
    }
}

/// The steps of building a simulation, in order. A step that fails ends the
/// build.
pub fn build_plan(terrain: bool, chassis: bool) -> (r: Vec<BuildStep>)
    ensures
        r@ == build_steps(terrain, chassis),
{
    let mut steps: Vec<BuildStep> = Vec::new();
    if terrain {
        steps.push(BuildStep::ReadTerrain);
    }
    steps.push(BuildStep::BuildField);
    if terrain {
        steps.push(BuildStep::AddTerrain);
    }
    if chassis {
        steps.push(BuildStep::PrepareChassis);
    }
    proof {
        assert(steps@ =~= build_steps(terrain, chassis));
    }
    steps
}

impl BuildStep {
    /// What is announced before the step.
    pub fn announced(self) -> (r: Option<BuildProgress>)
        ensures
            r == match self {
                BuildStep::ReadTerrain => Some(BuildProgress::ReadingTerrain),
                BuildStep::BuildField => Some(BuildProgress::BuildingPhysics),
                BuildStep::AddTerrain => None,
                BuildStep::PrepareChassis => Some(BuildProgress::PreparingChassis),
            },
    {
        match self {
            BuildStep::ReadTerrain => Some(BuildProgress::ReadingTerrain),
            BuildStep::BuildField => Some(BuildProgress::BuildingPhysics),
            BuildStep::AddTerrain => None,
            BuildStep::PrepareChassis => Some(BuildProgress::PreparingChassis),
        }
    }

    /// What is announced once the step has succeeded; `terrain` describes the
    /// loaded mesh.
    pub fn completed(self, terrain: String) -> (r: Option<BuildProgress>)
        ensures
            r == if self == BuildStep::AddTerrain {
                Some(BuildProgress::TerrainReady(terrain))
            } else {
                None
            },
    {
        match self {
            BuildStep::AddTerrain => Some(BuildProgress::TerrainReady(terrain)),
            _ => None,
        }
    }
}

/// The field is built exactly once; terrain is read before and added right
/// after it, and chassis come last. What there is none of takes no step.
pub proof fn fields_are_built_in_order(terrain: bool, chassis: bool)
    ensures
        ({
            let steps = build_steps(terrain, chassis);
            let at: int = if terrain {
                1
            } else {
                0
            };
            &&& steps.len() == 1 + 2 * at + (if chassis {
                1int
            } else {
                0
            })
            &&& steps[at] == BuildStep::BuildField
            &&& terrain ==> steps[0] == BuildStep::ReadTerrain && steps[2] == BuildStep::AddTerrain
            &&& chassis ==> steps[steps.len() - 1] == BuildStep::PrepareChassis
        }),
{
}

} // verus!

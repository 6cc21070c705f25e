//! The stages of the whole mission, run one after the other.

use vstd::prelude::*;

verus! {

/// Stages of the mission, each a program of its own.
#[derive(Clone, Copy, Debug, PartialEq, Eq, Structural)]
pub enum Stage {
    CruiseDesign,
    CruiseOperations,
    ProximityMission,
}

/// What follows a stage.
#[derive(Clone, Copy, Debug, PartialEq, Eq, Structural)]
pub enum PipelineStep {
    Run(Stage),
    /// A stage failed, and the mission ends.
    Failed(Stage),
    Complete,
}

impl Stage {
    pub open spec fn binary_of(self) -> Seq<char> {
        match self {
            Stage::CruiseDesign => "cruise_design"@,
            Stage::CruiseOperations => "cruise_operations"@,
            Stage::ProximityMission => "proximity_mission"@,
        }
    }

    /// Name of the program that flies the stage.
    pub fn binary(self) -> (r: &'static str)
        ensures
            r@ == self.binary_of(),
    {
        match self {
            Stage::CruiseDesign => "cruise_design",
            Stage::CruiseOperations => "cruise_operations",
            Stage::ProximityMission => "proximity_mission",
        }
    }

    pub open spec fn label_of(self) -> Seq<char> {
        match self {
            Stage::CruiseDesign => "1/3  Cruise Design       (Lambert + porkchop)"@,
            Stage::CruiseOperations => "2/3  Cruise Operations   (DSN OD + TCMs + arrival)"@,
            Stage::ProximityMission => "3/3  Proximity Mission   (5-phase Bennu proximity)"@,
        }
    }

    /// How the stage is announced.
    pub fn label(self) -> (r: &'static str)
        ensures
            r@ == self.label_of(),
    {
        match self {
            Stage::CruiseDesign => "1/3  Cruise Design       (Lambert + porkchop)",
            Stage::CruiseOperations => "2/3  Cruise Operations   (DSN OD + TCMs + arrival)",
            Stage::ProximityMission => "3/3  Proximity Mission   (5-phase Bennu proximity)",
        }
    }

    pub open spec fn step_after(self, succeeded: bool) -> PipelineStep {
        if !succeeded {
            PipelineStep::Failed(self)
        } else {
            match self {
                Stage::CruiseDesign => PipelineStep::Run(Stage::CruiseOperations),
                Stage::CruiseOperations => PipelineStep::Run(Stage::ProximityMission),
                Stage::ProximityMission => PipelineStep::Complete,
            }
        }
    }

    /// What follows the stage, which succeeded or did not.
    pub fn run(self, succeeded: bool) -> (r: PipelineStep)
        ensures
            r == self.step_after(succeeded),
    {
        if !succeeded {
            return PipelineStep::Failed(self);
        }
        match self {
            Stage::CruiseDesign => PipelineStep::Run(Stage::CruiseOperations),
            Stage::CruiseOperations => PipelineStep::Run(Stage::ProximityMission),
            Stage::ProximityMission => PipelineStep::Complete,
        }
    }
}

/// The step that the mission stands at after these outcomes.
pub open spec fn pipeline(outcomes: Seq<bool>) -> PipelineStep
    decreases outcomes.len(),
{
    if outcomes.len() == 0 {
        PipelineStep::Run(Stage::CruiseDesign)
    } else {
        match pipeline(outcomes.drop_last()) {
            PipelineStep::Run(stage) => stage.step_after(outcomes.last()),
            end => end,
        }
    }
}

/// The mission is complete exactly when all three stages have succeeded, and no
/// stage runs after one that failed.
pub proof fn stages_run_in_order(a: bool, b: bool, c: bool)
    ensures
        pipeline(seq![a]) == (if a {
            PipelineStep::Run(Stage::CruiseOperations)
        } else {
            PipelineStep::Failed(Stage::CruiseDesign)
        }),
        pipeline(seq![a, b, c]) == PipelineStep::Complete <==> a && b && c,
        !a ==> pipeline(seq![a, b, c]) == PipelineStep::Failed(Stage::CruiseDesign),
        a && !b ==> pipeline(seq![a, b, c]) == PipelineStep::Failed(Stage::CruiseOperations),
{
    reveal_with_fuel(pipeline, 4);
    assert(seq![a, b, c].drop_last() =~= seq![a, b]);
    assert(seq![a, b].drop_last() =~= seq![a]);
    assert(seq![a].drop_last() =~= seq![]);
}

/// A stage that fails ends the mission with itself as the reason, whatever comes
/// after; one that succeeds is followed by the next, and the last by completion.
pub proof fn failure_ends_the_mission(outcomes: Seq<bool>, more: bool)
    ensures
        pipeline(outcomes) matches PipelineStep::Failed(s) ==> pipeline(outcomes.push(more)) == pipeline(outcomes),
        pipeline(outcomes) == PipelineStep::Complete ==> pipeline(outcomes.push(more)) == PipelineStep::Complete,
        pipeline(outcomes) matches PipelineStep::Run(s) ==> !more ==> pipeline(outcomes.push(more))
            == PipelineStep::Failed(s),
        pipeline(seq![]) == PipelineStep::Run(Stage::CruiseDesign),
        pipeline(seq![true]) == PipelineStep::Run(Stage::CruiseOperations),
        pipeline(seq![true, true]) == PipelineStep::Run(Stage::ProximityMission),
        pipeline(seq![true, true, true]) == PipelineStep::Complete,
{
    assert(outcomes.push(more).drop_last() =~= outcomes);
    reveal_with_fuel(pipeline, 5);
    assert(seq![true, true, true].drop_last() =~= seq![true, true]);
    assert(seq![true, true].drop_last() =~= seq![true]);
    assert(seq![true].drop_last() =~= seq![]);
}

} // verus!

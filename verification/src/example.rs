//! A week to start from: the schedules of the week of 6 July 2023, as a
//! value and as the text of a document.

use vstd::prelude::*;

use crate::calendar::{CivilDateTime, RESET_HOUR};
use crate::encode::encode;
use crate::json::text_of_document;
use crate::model::{
    Biome, DateRange, DeepDive, DeepDiveStage, DeepDiveView, DeepDivesInfo, DeepDivesInfoView,
    Dreadnought, PrimaryObjective, SecondaryObjective, Warning,
};
use crate::schema::encoded_info;

verus! {

/// A stage without an anomaly.
pub open spec fn plain_stage(
    primary_objective: PrimaryObjective,
    secondary_objective: SecondaryObjective,
    warning: Option<Warning>,
) -> DeepDiveStage {
    DeepDiveStage { primary_objective, secondary_objective, anomaly: None, warning }
}

/// The day of July 2023 at the hour of the weekly reset.
pub open spec fn july_2023(day: u32) -> CivilDateTime {
    CivilDateTime { year: 2023, month: 7, day, hour: RESET_HOUR, minute: 0, second: 0 }
}

/// The regular schedule of the example week.
pub open spec fn example_deep_dive() -> DeepDiveView {
    DeepDiveView {
        codename: "High Contact"@,
        biome: Biome::GlacialStrata,
        seed: 3116029769,
        stages: [
            plain_stage(PrimaryObjective::OnSiteRefining, SecondaryObjective::Mining150, None),
            plain_stage(
                PrimaryObjective::MiningExpedition200,
                SecondaryObjective::Egg,
                Some(Warning::RegenerativeBugs),
            ),
            plain_stage(
                PrimaryObjective::IndustrialSabotage,
                SecondaryObjective::MiniMules,
                Some(Warning::ExploderInfestation),
            ),
        ],
    }
}

/// The elite schedule of the example week.
pub open spec fn example_elite_deep_dive() -> DeepDiveView {
    DeepDiveView {
        codename: "Uncovered Arm"@,
        biome: Biome::MagmaCore,
        seed: 1688014532,
        stages: [
            plain_stage(PrimaryObjective::MiningExpedition200, SecondaryObjective::BlackBox, None),
            plain_stage(
                PrimaryObjective::PointExtraction10,
                SecondaryObjective::BlackBox,
                Some(Warning::ShieldDisruption),
            ),
            plain_stage(
                PrimaryObjective::MiniMules3,
                SecondaryObjective::Dreadnought(Dreadnought::Hiveguard),
                Some(Warning::MacteraPlague),
            ),
        ],
    }
}

/// The example week: 6 to 13 July 2023.
pub open spec fn example() -> DeepDivesInfoView {
    DeepDivesInfoView {
        date_range: DateRange { start: july_2023(6), end: july_2023(13) },
        deep_dive: example_deep_dive(),
        elite_deep_dive: example_elite_deep_dive(),
    }
}

fn stage_without_anomaly(
    primary_objective: PrimaryObjective,
    secondary_objective: SecondaryObjective,
    warning: Option<Warning>,
) -> (r: DeepDiveStage)
    ensures
        r == plain_stage(primary_objective, secondary_objective, warning),
{
    DeepDiveStage { primary_objective, secondary_objective, anomaly: None, warning }
}

/// Builds the example week.
pub fn example_info() -> (r: DeepDivesInfo)
    ensures
        r@ == example(),
        r.wf(),
{
    let deep_dive_stages = [
        stage_without_anomaly(PrimaryObjective::OnSiteRefining, SecondaryObjective::Mining150, None),
        stage_without_anomaly(
            PrimaryObjective::MiningExpedition200,
            SecondaryObjective::Egg,
            Some(Warning::RegenerativeBugs),
        ),
        stage_without_anomaly(
            PrimaryObjective::IndustrialSabotage,
            SecondaryObjective::MiniMules,
            Some(Warning::ExploderInfestation),
        ),
    ];
    let elite_stages = [
        stage_without_anomaly(
            PrimaryObjective::MiningExpedition200,
            SecondaryObjective::BlackBox,
            None,
        ),
        stage_without_anomaly(
            PrimaryObjective::PointExtraction10,
            SecondaryObjective::BlackBox,
            Some(Warning::ShieldDisruption),
        ),
        stage_without_anomaly(
            PrimaryObjective::MiniMules3,
            SecondaryObjective::Dreadnought(Dreadnought::Hiveguard),
            Some(Warning::MacteraPlague),
        ),
    ];
    assert(deep_dive_stages =~= example_deep_dive().stages);
    assert(elite_stages =~= example_elite_deep_dive().stages);
    DeepDivesInfo {
        date_range: DateRange {
            start: CivilDateTime {
                year: 2023,
                month: 7,
                day: 6,
                hour: RESET_HOUR,
                minute: 0,
                second: 0,
            },
            end: CivilDateTime {
                year: 2023,
                month: 7,
                day: 13,
                hour: RESET_HOUR,
                minute: 0,
                second: 0,
            },
        },
        deep_dive: DeepDive {
            codename: String::from_str("High Contact"),
            biome: Biome::GlacialStrata,
            seed: 3116029769,
            stages: deep_dive_stages,
        },
        elite_deep_dive: DeepDive {
            codename: String::from_str("Uncovered Arm"),
            biome: Biome::MagmaCore,
            seed: 1688014532,
            stages: elite_stages,
        },
    }
}

/// Writes the example week as the text of a document.
pub fn generate_example_json() -> (r: String)
    ensures
        r@ == text_of_document(encoded_info(example())),
{
    let example = example_info();
    encode(&example)
}

} // verus!

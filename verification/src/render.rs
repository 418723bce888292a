//! The chat report of a week: a header with the dates, the time of the next
//! reset, and one block of lines for each of the two schedules.

use vstd::prelude::*;

use crate::calendar::as_naive_date_without_time;
use crate::model::{DeepDive, DeepDiveStage, DeepDiveView, DeepDivesInfo, DeepDivesInfoView};
use crate::text::{signed_decimal, signed_decimal_text};

verus! {

/// Both objectives of a stage, each in bold, joined by ` + `.
pub open spec fn objectives_text(stage: DeepDiveStage) -> Seq<char> {
    "**"@ + stage.primary_objective.emoji_text() + "** + **"@
        + stage.secondary_objective.emoji_text() + "**"@
}

/// The mutators of a stage in bold, the anomaly before the warning, or the
/// words `No Mutator` where the stage has neither.
pub open spec fn mutator_text(stage: DeepDiveStage) -> Seq<char> {
    match (stage.anomaly, stage.warning) {
        (Some(anomaly), Some(warning)) => "**"@ + anomaly.emoji_text() + "** **"@
            + warning.emoji_text() + "**"@,
        (Some(anomaly), None) => "**"@ + anomaly.emoji_text() + "**"@,
        (None, Some(warning)) => "**"@ + warning.emoji_text() + "**"@,
        (None, None) => "**No Mutator**"@,
    }
}

/// The line that names the region and the code name of a schedule.
pub open spec fn region_codename_text(dive: DeepDiveView) -> Seq<char> {
    "Region: **"@ + dive.biome.label() + "** | Code Name: **"@ + dive.codename + "**"@
}

/// The line of one stage behind its heading, with the line break.
pub open spec fn stage_line(heading: Seq<char>, stage: DeepDiveStage) -> Seq<char> {
    heading + objectives_text(stage) + " | "@ + mutator_text(stage) + "\n"@
}

/// The lines of the three stages in order.
pub open spec fn stages_text(stages: [DeepDiveStage; 3]) -> Seq<char> {
    stage_line("Stage 1: "@, stages[0]) + stage_line("Stage 2: "@, stages[1]) + stage_line(
        "Stage 3: "@,
        stages[2],
    )
}

/// The block of a schedule: its banner, its region line, its stages.
pub open spec fn block_text(banner: Seq<char>, dive: DeepDiveView) -> Seq<char> {
    banner + region_codename_text(dive) + "\n"@ + stages_text(dive.stages)
}

/// The first two lines of the report and the blank line behind them: the
/// dates of the week, and the moment of the reset as a relative time mark
/// made of the seconds from 1970 to the end of the week.
pub open spec fn header_text(info: DeepDivesInfoView) -> Seq<char> {
    "Weekly schedule information for **"@ + info.date_range.start.date_text() + " to "@
        + info.date_range.end.date_text() + "**.\n"@ + "Deep Dives will reset in **<t:"@
        + signed_decimal(info.date_range.end.unix_seconds()) + ":R>**\n\n"@
}

/// The whole report: the header, the regular schedule, a blank line, the
/// elite schedule, a blank line.
pub open spec fn report_text(info: DeepDivesInfoView) -> Seq<char> {
    header_text(info) + block_text(":Deep_Dive: **DEEP DIVE** :Deep_Dive:\n"@, info.deep_dive)
        + "\n"@ + block_text(":Deep_Dive: **ELITE DEEP DIVE** :Deep_Dive:\n"@, info.elite_deep_dive)
        + "\n"@
}

/// Writes both objectives of a stage.
pub fn objectives_fmt(stage: &DeepDiveStage) -> (r: String)
    ensures
        r@ == objectives_text(*stage),
{
    let primary = stage.primary_objective.emoji_repr();
    let secondary = stage.secondary_objective.emoji_repr();
    let mut r = String::from_str("**");
    r.append(primary.as_str());
    r.append("** + **");
    r.append(secondary);
    r.append("**");
    r
}

/// Writes the mutators of a stage, or that it has none.
pub fn mutator_fmt(stage: &DeepDiveStage) -> (r: String)
    ensures
        r@ == mutator_text(*stage),
{
    match (stage.anomaly, stage.warning) {
        (Some(anomaly), Some(warning)) => {
            let anomaly = anomaly.emoji_repr();
            let warning = warning.emoji_repr();
            let mut r = String::from_str("**");
            r.append(anomaly.as_str());
            r.append("** **");
            r.append(warning.as_str());
            r.append("**");
            r
        },
        (Some(anomaly), None) => {
            let anomaly = anomaly.emoji_repr();
            let mut r = String::from_str("**");
            r.append(anomaly.as_str());
            r.append("**");
            r
        },
        (None, Some(warning)) => {
            let warning = warning.emoji_repr();
            let mut r = String::from_str("**");
            r.append(warning.as_str());
            r.append("**");
            r
        },
        (None, None) => String::from_str("**No Mutator**"),
    }
}

/// Writes the line that names the region and the code name of a schedule.
pub fn region_codename_fmt(dive: &DeepDive) -> (r: String)
    ensures
        r@ == region_codename_text(dive@),
{
    let mut r = String::from_str("Region: **");
    r.append(dive.biome.as_str());
    r.append("** | Code Name: **");
    r.append(dive.codename.as_str());
    r.append("**");
    r
}

fn stage_fmt(heading: &str, stage: &DeepDiveStage) -> (r: String)
    ensures
        r@ == stage_line(heading@, *stage),
{
    let objectives = objectives_fmt(stage);
    let mutator = mutator_fmt(stage);
    let mut r = String::from_str(heading);
    r.append(objectives.as_str());
    r.append(" | ");
    r.append(mutator.as_str());
    r.append("\n");
    r
}

/// Writes the lines of the three stages of a schedule.
pub fn stages_fmt(stages: &[DeepDiveStage; 3]) -> (r: String)
    ensures
        r@ == stages_text(*stages),
{
    let mut r = stage_fmt("Stage 1: ", &stages[0]);
    let second = stage_fmt("Stage 2: ", &stages[1]);
    let third = stage_fmt("Stage 3: ", &stages[2]);
    r.append(second.as_str());
    r.append(third.as_str());
    r
}

fn block_fmt(banner: &str, dive: &DeepDive) -> (r: String)
    ensures
        r@ == block_text(banner@, dive@),
{
    let region_codename = region_codename_fmt(dive);
    let stages = stages_fmt(&dive.stages);
    let mut r = String::from_str(banner);
    r.append(region_codename.as_str());
    r.append("\n");
    r.append(stages.as_str());
    r
}

fn header_fmt(info: &DeepDivesInfo) -> (r: String)
    requires
        info.wf(),
    ensures
        r@ == header_text(info@),
{
    let start = as_naive_date_without_time(&info.date_range.start);
    let end = as_naive_date_without_time(&info.date_range.end);
    let unix_timestamp = signed_decimal_text(info.date_range.end.timestamp());
    let mut r = String::from_str("Weekly schedule information for **");
    r.append(start.as_str());
    r.append(" to ");
    r.append(end.as_str());
    r.append("**.\n");
    r.append("Deep Dives will reset in **<t:");
    r.append(unix_timestamp.as_str());
    r.append(":R>**\n\n");
    r
}

/// Renders the report of a week for a chat channel.
pub fn discord_emojify_info(info: &DeepDivesInfo) -> (r: String)
    requires
        info.wf(),
    ensures
        r@ == report_text(info@),
{
    let mut r = header_fmt(info);
    let dd_info = block_fmt(":Deep_Dive: **DEEP DIVE** :Deep_Dive:\n", &info.deep_dive);
    let edd_info = block_fmt(":Deep_Dive: **ELITE DEEP DIVE** :Deep_Dive:\n", &info.elite_deep_dive);
    r.append(dd_info.as_str());
    r.append("\n");
    r.append(edd_info.as_str());
    r.append("\n");
    r
}

/// The report is a function of the week alone: whatever two renderings of
/// one week return, they return the same text.
pub proof fn lemma_render_idempotent(info: DeepDivesInfo, first: String, second: String)
    requires
        info.wf(),
        first@ == report_text(info@),
        second@ == report_text(info@),
    ensures
        first@ == second@,
{
}

} // verus!

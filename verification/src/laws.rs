//! What holds between writing a schedule document and reading it.

use vstd::prelude::*;

use crate::calendar::{reset_time_of_text, CivilDateTime};
use crate::decode::decoded_text;
use crate::encode::{lemma_dive_keys, lemma_stage_keys, lemma_top_keys};
use crate::json::{document_of_text, find_from, text_of_document, JsonValue};
use crate::model::{
    Anomaly, DateRange, DeepDiveStage, DeepDiveView, DeepDivesInfoView, Dreadnought,
    PrimaryObjective, SecondaryObjective, Warning,
};
use crate::schema::{
    child_path, decoded_anomaly, decoded_codename, decoded_dive, decoded_info, decoded_kind,
    decoded_primary, decoded_secondary, decoded_seed, decoded_stage, decoded_stage_primary,
    decoded_stage_secondary, decoded_stages, decoded_top_dive, decoded_warning, encoded_dive,
    encoded_info, encoded_kind, encoded_primary, encoded_secondary, encoded_stage, encoded_stages,
    index_path, SchemaErrorView,
};

verus! {

/// In an object of four entries under four different keys, each key finds
/// its own value.
proof fn lemma_find_in_four(entries: Seq<(Seq<char>, JsonValue)>)
    requires
        entries.len() == 4,
        entries[0].0 != entries[1].0,
        entries[0].0 != entries[2].0,
        entries[0].0 != entries[3].0,
        entries[1].0 != entries[2].0,
        entries[1].0 != entries[3].0,
        entries[2].0 != entries[3].0,
    ensures
        find_from(entries, entries[0].0, 0) == Some(entries[0].1),
        find_from(entries, entries[1].0, 0) == Some(entries[1].1),
        find_from(entries, entries[2].0, 0) == Some(entries[2].1),
        find_from(entries, entries[3].0, 0) == Some(entries[3].1),
{
    reveal_with_fuel(find_from, 5);
}

/// A kind of dreadnought is read back as written.
pub proof fn lemma_kind_round_trip(kind: Dreadnought, path: Seq<char>)
    ensures
        decoded_kind(encoded_kind(kind), path) == Ok::<Dreadnought, SchemaErrorView>(kind),
{
    kind.lemma_label_round_trip();
}

/// A primary objective is read back as written, kinds and their order
/// included.
pub proof fn lemma_primary_round_trip(objective: PrimaryObjective, path: Seq<char>)
    ensures
        decoded_primary(encoded_primary(objective), path) == Ok::<
            PrimaryObjective,
            SchemaErrorView,
        >(objective),
{
    PrimaryObjective::lemma_elimination_tags();
    match objective {
        PrimaryObjective::Dreadnought2(kinds) => {
            lemma_kind_round_trip(kinds[0], index_path(path, 0));
            lemma_kind_round_trip(kinds[1], index_path(path, 1));
            assert([kinds[0], kinds[1]] =~= kinds);
        },
        PrimaryObjective::Dreadnought3(kinds) => {
            lemma_kind_round_trip(kinds[0], index_path(path, 0));
            lemma_kind_round_trip(kinds[1], index_path(path, 1));
            lemma_kind_round_trip(kinds[2], index_path(path, 2));
            assert([kinds[0], kinds[1], kinds[2]] =~= kinds);
        },
        _ => {
            objective.lemma_tag_round_trip();
        },
    }
}

/// A secondary objective is read back as written.
pub proof fn lemma_secondary_round_trip(objective: SecondaryObjective, path: Seq<char>)
    ensures
        decoded_secondary(encoded_secondary(objective), path) == Ok::<
            SecondaryObjective,
            SchemaErrorView,
        >(objective),
{
    SecondaryObjective::lemma_dreadnought_tag();
    match objective {
        SecondaryObjective::Dreadnought(kind) => {
            lemma_kind_round_trip(kind, path);
        },
        _ => {
            objective.lemma_tag_round_trip();
        },
    }
}

/// A stage is read back as written.
pub proof fn lemma_stage_round_trip(stage: DeepDiveStage, path: Seq<char>)
    ensures
        decoded_stage(encoded_stage(stage), path) == Ok::<DeepDiveStage, SchemaErrorView>(stage),
{
    let doc = encoded_stage(stage);
    let entries = doc->Object_0;
    lemma_stage_keys();
    let keys = seq!["primaryObjective"@, "secondaryObjective"@, "anomaly"@, "warning"@];
    assert(keys[0] != keys[1] && keys[0] != keys[2] && keys[0] != keys[3] && keys[1] != keys[2]
        && keys[1] != keys[3] && keys[2] != keys[3]);
    lemma_find_in_four(entries);
    lemma_primary_round_trip(stage.primary_objective, child_path(path, "primaryObjective"@));
    lemma_secondary_round_trip(stage.secondary_objective, child_path(path, "secondaryObjective"@));
    if stage.anomaly is Some {
        stage.anomaly->0.lemma_label_round_trip();
    }
    if stage.warning is Some {
        stage.warning->0.lemma_label_round_trip();
    }
    assert(decoded_stage_primary(doc, path) == Ok::<PrimaryObjective, SchemaErrorView>(
        stage.primary_objective,
    ));
    assert(decoded_stage_secondary(doc, path) == Ok::<SecondaryObjective, SchemaErrorView>(
        stage.secondary_objective,
    ));
    assert(decoded_anomaly(doc, path) == Ok::<Option<Anomaly>, SchemaErrorView>(stage.anomaly));
    assert(decoded_warning(doc, path) == Ok::<Option<Warning>, SchemaErrorView>(stage.warning));
}

/// A schedule is read back as written.
pub proof fn lemma_dive_round_trip(dive: DeepDiveView, path: Seq<char>)
    ensures
        decoded_dive(encoded_dive(dive), path) == Ok::<DeepDiveView, SchemaErrorView>(dive),
{
    let doc = encoded_dive(dive);
    let entries = doc->Object_0;
    lemma_dive_keys();
    let keys = seq!["codename"@, "biome"@, "seed"@, "stages"@];
    assert(keys[0] != keys[1] && keys[0] != keys[2] && keys[0] != keys[3] && keys[1] != keys[2]
        && keys[1] != keys[3] && keys[2] != keys[3]);
    lemma_find_in_four(entries);
    dive.biome.lemma_label_round_trip();
    let stages_path = child_path(path, "stages"@);
    lemma_stage_round_trip(dive.stages[0], index_path(stages_path, 0));
    lemma_stage_round_trip(dive.stages[1], index_path(stages_path, 1));
    lemma_stage_round_trip(dive.stages[2], index_path(stages_path, 2));
    assert([dive.stages[0], dive.stages[1], dive.stages[2]] =~= dive.stages);
    assert(decoded_stages(encoded_stages(dive.stages), stages_path) == Ok::<
        [DeepDiveStage; 3],
        SchemaErrorView,
    >(dive.stages));
    assert(decoded_codename(doc, path) == Ok::<Seq<char>, SchemaErrorView>(dive.codename));
    assert(decoded_seed(doc, path) == Ok::<u64, SchemaErrorView>(dive.seed));
}

/// What reading a written week comes to. The schedules come back as they
/// were. Each bound comes back as chrono reads the date that was written
/// for it, at the hour of the weekly reset; a date that chrono did not
/// read would be a malformed date.
pub open spec fn reread(info: DeepDivesInfoView) -> Result<DeepDivesInfoView, SchemaErrorView> {
    let start_text = info.date_range.start.date_text();
    let end_text = info.date_range.end.date_text();
    match reset_time_of_text(start_text) {
        None => Err(SchemaErrorView::MalformedDate("start"@, start_text)),
        Some(start) => match reset_time_of_text(end_text) {
            None => Err(SchemaErrorView::MalformedDate("end"@, end_text)),
            Some(end) => Ok(
                DeepDivesInfoView {
                    date_range: DateRange { start, end },
                    deep_dive: info.deep_dive,
                    elite_deep_dive: info.elite_deep_dive,
                },
            ),
        },
    }
}

/// Chrono reads the date of the time back as it is written.
pub open spec fn date_reads_back(time: CivilDateTime) -> bool {
    reset_time_of_text(time.date_text()) == Some(time.at_reset())
}

/// Reading the document of a week gives the week back: the schedules as
/// they were, and the bounds as chrono reads the dates written for them.
/// Where chrono reads both dates back as written, the week comes back
/// with nothing changed but the time of day of its bounds, which is the
/// hour of the weekly reset.
pub proof fn lemma_decode_encode(info: DeepDivesInfoView)
    ensures
        decoded_info(encoded_info(info)) == reread(info),
        date_reads_back(info.date_range.start) && date_reads_back(info.date_range.end)
            ==> decoded_info(encoded_info(info)) == Ok::<DeepDivesInfoView, SchemaErrorView>(
            DeepDivesInfoView { date_range: info.date_range.at_reset(), ..info },
        ),
{
    let doc = encoded_info(info);
    let entries = doc->Object_0;
    lemma_top_keys();
    let keys = seq!["start"@, "end"@, "deep_dive"@, "elite_deep_dive"@];
    assert(keys[0] != keys[1] && keys[0] != keys[2] && keys[0] != keys[3] && keys[1] != keys[2]
        && keys[1] != keys[3] && keys[2] != keys[3]);
    lemma_find_in_four(entries);
    lemma_dive_round_trip(info.deep_dive, "deep_dive"@);
    lemma_dive_round_trip(info.elite_deep_dive, "elite_deep_dive"@);
    assert(child_path(Seq::<char>::empty(), "start"@) == "start"@);
    assert(child_path(Seq::<char>::empty(), "end"@) == "end"@);
    assert(decoded_top_dive(doc, "deep_dive"@) == Ok::<DeepDiveView, SchemaErrorView>(
        info.deep_dive,
    ));
    assert(decoded_top_dive(doc, "elite_deep_dive"@) == Ok::<DeepDiveView, SchemaErrorView>(
        info.elite_deep_dive,
    ));
}

/// serde_json reads the document back from the text that it writes for it.
pub open spec fn document_reads_back(doc: JsonValue) -> bool {
    document_of_text(text_of_document(doc)) == Some(doc)
}

/// Decoding the text that is encoded for a week gives the week back, as
/// far as serde_json and chrono read back what they wrote: where
/// serde_json reads the document back from its text, the outcome is that
/// of reading the document; where chrono reads both dates back as well,
/// it is the week with nothing changed but the time of day of its bounds,
/// which is the hour of the weekly reset.
pub proof fn lemma_decode_encode_text(info: DeepDivesInfoView)
    ensures
        document_reads_back(encoded_info(info)) ==> decoded_text(
            text_of_document(encoded_info(info)),
            reread(info),
        ),
        document_reads_back(encoded_info(info)) && date_reads_back(info.date_range.start)
            && date_reads_back(info.date_range.end) ==> decoded_text(
            text_of_document(encoded_info(info)),
            Ok(DeepDivesInfoView { date_range: info.date_range.at_reset(), ..info }),
        ),
{
    lemma_decode_encode(info);
}

} // verus!

//! Writing the data model as a schedule document.

use serde_json::Value;
use vstd::prelude::*;

use crate::calendar::as_naive_date_without_time;
use crate::json::{
    array_value, distinct_keys, json_model, null_value, object_value, owned_entry_models,
    owned_item_models, owned_keys, pretty_text, text_of_document, text_value, unsigned_value,
    JsonValue,
};
use crate::model::{
    Anomaly, DeepDive, DeepDiveStage, DeepDivesInfo, Dreadnought, PrimaryObjective,
    SecondaryObjective, Warning,
};
use crate::schema::{
    encoded_anomaly, encoded_dive, encoded_info, encoded_kind, encoded_primary, encoded_secondary,
    encoded_stage, encoded_stages, encoded_warning,
};
use crate::text::has_shape;

verus! {

/// An object of one entry.
fn object_of_one(key: &str, value: Value) -> (r: Value)
    ensures
        json_model(r) == JsonValue::Object(seq![(key@, json_model(value))]),
{
    let mut entries: Vec<(String, Value)> = Vec::new();
    entries.push((String::from_str(key), value));
    assert(owned_entry_models(entries@) =~= seq![(key@, json_model(value))]);
    object_value(entries)
}

/// An object of four entries under four different keys.
fn object_of_four(
    first: (&str, Value),
    second: (&str, Value),
    third: (&str, Value),
    fourth: (&str, Value),
) -> (r: Value)
    requires
        distinct_keys(seq![first.0@, second.0@, third.0@, fourth.0@]),
    ensures
        json_model(r) == JsonValue::Object(
            seq![
                (first.0@, json_model(first.1)),
                (second.0@, json_model(second.1)),
                (third.0@, json_model(third.1)),
                (fourth.0@, json_model(fourth.1)),
            ],
        ),
{
    let mut entries: Vec<(String, Value)> = Vec::new();
    entries.push((String::from_str(first.0), first.1));
    entries.push((String::from_str(second.0), second.1));
    entries.push((String::from_str(third.0), third.1));
    entries.push((String::from_str(fourth.0), fourth.1));
    assert(owned_keys(entries@) =~= seq![first.0@, second.0@, third.0@, fourth.0@]);
    assert(owned_entry_models(entries@) =~= seq![
        (first.0@, json_model(first.1)),
        (second.0@, json_model(second.1)),
        (third.0@, json_model(third.1)),
        (fourth.0@, json_model(fourth.1)),
    ]);
    object_value(entries)
}

fn encode_kind(kind: Dreadnought) -> (r: Value)
    ensures
        json_model(r) == encoded_kind(kind),
{
    text_value(kind.as_str())
}

/// Writes a primary objective: its tag, and for an elimination an object
/// of one entry with the kinds under the tag.
pub fn encode_primary(objective: &PrimaryObjective) -> (r: Value)
    ensures
        json_model(r) == encoded_primary(*objective),
{
    match objective {
        PrimaryObjective::Dreadnought2(kinds) => {
            let mut items: Vec<Value> = Vec::new();
            items.push(encode_kind(kinds[0]));
            items.push(encode_kind(kinds[1]));
            assert(owned_item_models(items@) =~= seq![
                encoded_kind(kinds[0]),
                encoded_kind(kinds[1]),
            ]);
            object_of_one("2 Dreadnoughts", array_value(items))
        },
        PrimaryObjective::Dreadnought3(kinds) => {
            let mut items: Vec<Value> = Vec::new();
            items.push(encode_kind(kinds[0]));
            items.push(encode_kind(kinds[1]));
            items.push(encode_kind(kinds[2]));
            assert(owned_item_models(items@) =~= seq![
                encoded_kind(kinds[0]),
                encoded_kind(kinds[1]),
                encoded_kind(kinds[2]),
            ]);
            object_of_one("3 Dreadnoughts", array_value(items))
        },
        _ => text_value(objective.tag_str()),
    }
}

/// Writes a secondary objective: its tag, and for the dreadnought an
/// object of one entry with the kind under the tag.
pub fn encode_secondary(objective: &SecondaryObjective) -> (r: Value)
    ensures
        json_model(r) == encoded_secondary(*objective),
{
    match objective {
        SecondaryObjective::Dreadnought(kind) => object_of_one("Dreadnought", encode_kind(*kind)),
        _ => text_value(objective.tag_str()),
    }
}

fn encode_anomaly(anomaly: &Option<Anomaly>) -> (r: Value)
    ensures
        json_model(r) == encoded_anomaly(*anomaly),
{
    match anomaly {
        Some(anomaly) => text_value(anomaly.as_str()),
        None => null_value(),
    }
}

fn encode_warning(warning: &Option<Warning>) -> (r: Value)
    ensures
        json_model(r) == encoded_warning(*warning),
{
    match warning {
        Some(warning) => text_value(warning.as_str()),
        None => null_value(),
    }
}

/// The keys of a stage differ from each other.
pub proof fn lemma_stage_keys()
    ensures
        distinct_keys(seq!["primaryObjective"@, "secondaryObjective"@, "anomaly"@, "warning"@]),
{
    reveal_strlit("primaryObjective");
    reveal_strlit("secondaryObjective");
    reveal_strlit("anomaly");
    reveal_strlit("warning");
    assert(has_shape("primaryObjective"@, 16, 'p', 'r', 'i'));
    assert(has_shape("secondaryObjective"@, 18, 's', 'e', 'c'));
    assert(has_shape("anomaly"@, 7, 'a', 'n', 'o'));
    assert(has_shape("warning"@, 7, 'w', 'a', 'r'));
}

/// The keys of a schedule differ from each other.
pub proof fn lemma_dive_keys()
    ensures
        distinct_keys(seq!["codename"@, "biome"@, "seed"@, "stages"@]),
{
    reveal_strlit("codename");
    reveal_strlit("biome");
    reveal_strlit("seed");
    reveal_strlit("stages");
    assert(has_shape("codename"@, 8, 'c', 'o', 'd'));
    assert(has_shape("biome"@, 5, 'b', 'i', 'o'));
    assert(has_shape("seed"@, 4, 's', 'e', 'e'));
    assert(has_shape("stages"@, 6, 's', 't', 'a'));
}

/// The keys at the top of a document differ from each other.
pub proof fn lemma_top_keys()
    ensures
        distinct_keys(seq!["start"@, "end"@, "deep_dive"@, "elite_deep_dive"@]),
{
    reveal_strlit("start");
    reveal_strlit("end");
    reveal_strlit("deep_dive");
    reveal_strlit("elite_deep_dive");
    assert(has_shape("start"@, 5, 's', 't', 'a'));
    assert(has_shape("end"@, 3, 'e', 'n', 'd'));
    assert(has_shape("deep_dive"@, 9, 'd', 'e', 'e'));
    assert(has_shape("elite_deep_dive"@, 15, 'e', 'l', 'i'));
}

/// Writes one stage of a schedule.
pub fn encode_stage(stage: &DeepDiveStage) -> (r: Value)
    ensures
        json_model(r) == encoded_stage(*stage),
{
    proof {
        lemma_stage_keys();
    }
    object_of_four(
        ("primaryObjective", encode_primary(&stage.primary_objective)),
        ("secondaryObjective", encode_secondary(&stage.secondary_objective)),
        ("anomaly", encode_anomaly(&stage.anomaly)),
        ("warning", encode_warning(&stage.warning)),
    )
}

fn encode_stages(stages: &[DeepDiveStage; 3]) -> (r: Value)
    ensures
        json_model(r) == encoded_stages(*stages),
{
    let mut items: Vec<Value> = Vec::new();
    items.push(encode_stage(&stages[0]));
    items.push(encode_stage(&stages[1]));
    items.push(encode_stage(&stages[2]));
    assert(owned_item_models(items@) =~= seq![
        encoded_stage(stages[0]),
        encoded_stage(stages[1]),
        encoded_stage(stages[2]),
    ]);
    array_value(items)
}

/// Writes one schedule.
pub fn encode_dive(dive: &DeepDive) -> (r: Value)
    ensures
        json_model(r) == encoded_dive(dive@),
{
    proof {
        lemma_dive_keys();
    }
    object_of_four(
        ("codename", text_value(dive.codename.as_str())),
        ("biome", text_value(dive.biome.as_str())),
        ("seed", unsigned_value(dive.seed)),
        ("stages", encode_stages(&dive.stages)),
    )
}

/// Writes a week with its two schedules as a document for serde_json.
pub fn encode_value(info: &DeepDivesInfo) -> (r: Value)
    requires
        info.wf(),
    ensures
        json_model(r) == encoded_info(info@),
{
    proof {
        lemma_top_keys();
    }
    let start = as_naive_date_without_time(&info.date_range.start);
    let end = as_naive_date_without_time(&info.date_range.end);
    object_of_four(
        ("start", text_value(start.as_str())),
        ("end", text_value(end.as_str())),
        ("deep_dive", encode_dive(&info.deep_dive)),
        ("elite_deep_dive", encode_dive(&info.elite_deep_dive)),
    )
}

/// Writes a week with its two schedules as the text of a document.
pub fn encode(info: &DeepDivesInfo) -> (r: String)
    requires
        info.wf(),
    ensures
        r@ == text_of_document(encoded_info(info@)),
{
    let doc = encode_value(info);
    pretty_text(&doc)
}

} // verus!

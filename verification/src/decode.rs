//! Reading a schedule document into the data model.

use serde_json::Value;
use vstd::prelude::*;

use crate::calendar::{from_naive_date_with_known_time, CivilDateTime};
use crate::json::{
    entry_models, error_text, find_entry, inspect, json_model, document_of_text, parse_value,
    JsonValue, Node,
};
use crate::model::{
    Anomaly, Biome, DateRange, DeepDive, DeepDiveStage, DeepDivesInfo, DeepDivesInfoView,
    Dreadnought, PrimaryObjective, SecondaryObjective, Warning,
};
use crate::schema::{
    child_path_text, decoded_anomaly, decoded_biome, decoded_codename, decoded_date, decoded_dive,
    decoded_info, decoded_kind, decoded_primary, decoded_primary_entry, decoded_primary_tag,
    decoded_secondary, decoded_secondary_entry, decoded_secondary_tag, decoded_seed, decoded_stage,
    decoded_stages, decoded_three_kinds, decoded_top_dive, decoded_two_kinds, decoded_warning,
    index_path_text, outcome, required, root_path, viewed, SchemaError, SchemaErrorView,
};
use crate::text::same_text;

verus! {

fn type_mismatch(path: &str, node: &Node) -> (r: SchemaError)
    ensures
        r@ == SchemaErrorView::TypeMismatch(path@, node.model().gist()),
{
    SchemaError::TypeMismatch(String::from_str(path), node.gist())
}

fn unknown_variant(path: &str, tag: &str) -> (r: SchemaError)
    ensures
        r@ == SchemaErrorView::UnknownVariant(path@, tag@),
{
    SchemaError::UnknownVariant(String::from_str(path), String::from_str(tag))
}

fn arity_mismatch(path: &str, expected: usize, actual: usize) -> (r: SchemaError)
    ensures
        r@ == SchemaErrorView::ArityMismatch(path@, expected as nat, actual as nat),
{
    SchemaError::ArityMismatch(String::from_str(path), expected, actual)
}

/// Looks up a key that the schema asks for among the entries of the object
/// at `path`.
fn require_entry<'a>(entries: &Vec<(&'a str, &'a Value)>, path: &str, key: &str) -> (r: Result<
    &'a Value,
    SchemaError,
>)
    ensures
        match r {
            Ok(v) => required(JsonValue::Object(entry_models(entries@)), path@, key@) == Ok::<
                JsonValue,
                SchemaErrorView,
            >(json_model(*v)),
            Err(error) => required(JsonValue::Object(entry_models(entries@)), path@, key@) == Err::<
                JsonValue,
                SchemaErrorView,
            >(error@),
        },
{
    match find_entry(entries, key) {
        Some(v) => Ok(v),
        None => Err(SchemaError::MissingField(child_path_text(path, key))),
    }
}

fn decode_kind(v: &Value, path: &str) -> (r: Result<Dreadnought, SchemaError>)
    ensures
        outcome(r) == decoded_kind(json_model(*v), path@),
{
    let node = inspect(v);
    match &node {
        Node::Text(tag) => match Dreadnought::from_label(tag) {
            Some(kind) => Ok(kind),
            None => Err(unknown_variant(path, tag)),
        },
        _ => Err(type_mismatch(path, &node)),
    }
}

fn decode_biome(v: &Value, path: &str) -> (r: Result<Biome, SchemaError>)
    ensures
        outcome(r) == decoded_biome(json_model(*v), path@),
{
    let node = inspect(v);
    match &node {
        Node::Text(tag) => match Biome::from_label(tag) {
            Some(biome) => Ok(biome),
            None => Err(unknown_variant(path, tag)),
        },
        _ => Err(type_mismatch(path, &node)),
    }
}

fn decode_anomaly(entries: &Vec<(&str, &Value)>, path: &str) -> (r: Result<
    Option<Anomaly>,
    SchemaError,
>)
    ensures
        outcome(r) == decoded_anomaly(JsonValue::Object(entry_models(entries@)), path@),
{
    match find_entry(entries, "anomaly") {
        None => Ok(None),
        Some(v) => {
            let node = inspect(v);
            match &node {
                Node::Null => Ok(None),
                Node::Text(tag) => match Anomaly::from_label(tag) {
                    Some(anomaly) => Ok(Some(anomaly)),
                    None => Err(unknown_variant(child_path_text(path, "anomaly").as_str(), tag)),
                },
                _ => Err(type_mismatch(child_path_text(path, "anomaly").as_str(), &node)),
            }
        },
    }
}

fn decode_warning(entries: &Vec<(&str, &Value)>, path: &str) -> (r: Result<
    Option<Warning>,
    SchemaError,
>)
    ensures
        outcome(r) == decoded_warning(JsonValue::Object(entry_models(entries@)), path@),
{
    match find_entry(entries, "warning") {
        None => Ok(None),
        Some(v) => {
            let node = inspect(v);
            match &node {
                Node::Null => Ok(None),
                Node::Text(tag) => match Warning::from_label(tag) {
                    Some(warning) => Ok(Some(warning)),
                    None => Err(unknown_variant(child_path_text(path, "warning").as_str(), tag)),
                },
                _ => Err(type_mismatch(child_path_text(path, "warning").as_str(), &node)),
            }
        },
    }
}

fn decode_two_kinds(payload: &Value, path: &str) -> (r: Result<[Dreadnought; 2], SchemaError>)
    ensures
        outcome(r) == decoded_two_kinds(json_model(*payload), path@),
{
    let node = inspect(payload);
    match &node {
        Node::Array(items) => {
            if items.len() != 2 {
                return Err(arity_mismatch(path, 2, items.len()));
            }
            let first = decode_kind(items[0], index_path_text(path, 0).as_str())?;
            let second = decode_kind(items[1], index_path_text(path, 1).as_str())?;
            Ok([first, second])
        },
        _ => Err(type_mismatch(path, &node)),
    }
}

fn decode_three_kinds(payload: &Value, path: &str) -> (r: Result<[Dreadnought; 3], SchemaError>)
    ensures
        outcome(r) == decoded_three_kinds(json_model(*payload), path@),
{
    let node = inspect(payload);
    match &node {
        Node::Array(items) => {
            if items.len() != 3 {
                return Err(arity_mismatch(path, 3, items.len()));
            }
            let first = decode_kind(items[0], index_path_text(path, 0).as_str())?;
            let second = decode_kind(items[1], index_path_text(path, 1).as_str())?;
            let third = decode_kind(items[2], index_path_text(path, 2).as_str())?;
            Ok([first, second, third])
        },
        _ => Err(type_mismatch(path, &node)),
    }
}

fn decode_primary_tag(tag: &str, path: &str) -> (r: Result<PrimaryObjective, SchemaError>)
    ensures
        outcome(r) == decoded_primary_tag(tag@, path@),
{
    if same_text(tag, "2 Dreadnoughts") {
        Err(arity_mismatch(path, 2, 0))
    } else if same_text(tag, "3 Dreadnoughts") {
        Err(arity_mismatch(path, 3, 0))
    } else {
        match PrimaryObjective::unit_from_tag(tag) {
            Some(objective) => Ok(objective),
            None => Err(unknown_variant(path, tag)),
        }
    }
}

fn decode_primary_entry(tag: &str, payload: &Value, path: &str) -> (r: Result<
    PrimaryObjective,
    SchemaError,
>)
    ensures
        outcome(r) == decoded_primary_entry(tag@, json_model(*payload), path@),
{
    if same_text(tag, "2 Dreadnoughts") {
        let kinds = decode_two_kinds(payload, path)?;
        Ok(PrimaryObjective::Dreadnought2(kinds))
    } else if same_text(tag, "3 Dreadnoughts") {
        let kinds = decode_three_kinds(payload, path)?;
        Ok(PrimaryObjective::Dreadnought3(kinds))
    } else {
        match PrimaryObjective::unit_from_tag(tag) {
            Some(objective) => {
                let node = inspect(payload);
                match &node {
                    Node::Null => Ok(objective),
                    _ => Err(type_mismatch(path, &node)),
                }
            },
            None => Err(unknown_variant(path, tag)),
        }
    }
}

/// Reads a primary objective: a bare tag, or an object of one entry that
/// holds the tag and what belongs to it.
pub fn decode_primary(v: &Value, path: &str) -> (r: Result<PrimaryObjective, SchemaError>)
    ensures
        outcome(r) == decoded_primary(json_model(*v), path@),
{
    let node = inspect(v);
    match &node {
        Node::Text(tag) => decode_primary_tag(tag, path),
        Node::Object(entries) => {
            if entries.len() == 1 {
                decode_primary_entry(entries[0].0, entries[0].1, path)
            } else {
                Err(type_mismatch(path, &node))
            }
        },
        _ => Err(type_mismatch(path, &node)),
    }
}

fn decode_secondary_tag(tag: &str, path: &str) -> (r: Result<SecondaryObjective, SchemaError>)
    ensures
        outcome(r) == decoded_secondary_tag(tag@, path@),
{
    if same_text(tag, "Dreadnought") {
        Err(arity_mismatch(path, 1, 0))
    } else {
        match SecondaryObjective::unit_from_tag(tag) {
            Some(objective) => Ok(objective),
            None => Err(unknown_variant(path, tag)),
        }
    }
}

fn decode_secondary_entry(tag: &str, payload: &Value, path: &str) -> (r: Result<
    SecondaryObjective,
    SchemaError,
>)
    ensures
        outcome(r) == decoded_secondary_entry(tag@, json_model(*payload), path@),
{
    if same_text(tag, "Dreadnought") {
        let kind = decode_kind(payload, path)?;
        Ok(SecondaryObjective::Dreadnought(kind))
    } else {
        match SecondaryObjective::unit_from_tag(tag) {
            Some(objective) => {
                let node = inspect(payload);
                match &node {
                    Node::Null => Ok(objective),
                    _ => Err(type_mismatch(path, &node)),
                }
            },
            None => Err(unknown_variant(path, tag)),
        }
    }
}

/// Reads a secondary objective: a bare tag, or an object of one entry
/// that holds the tag and what belongs to it.
pub fn decode_secondary(v: &Value, path: &str) -> (r: Result<SecondaryObjective, SchemaError>)
    ensures
        outcome(r) == decoded_secondary(json_model(*v), path@),
{
    let node = inspect(v);
    match &node {
        Node::Text(tag) => decode_secondary_tag(tag, path),
        Node::Object(entries) => {
            if entries.len() == 1 {
                decode_secondary_entry(entries[0].0, entries[0].1, path)
            } else {
                Err(type_mismatch(path, &node))
            }
        },
        _ => Err(type_mismatch(path, &node)),
    }
}

/// Reads one stage of a schedule.
pub fn decode_stage(v: &Value, path: &str) -> (r: Result<DeepDiveStage, SchemaError>)
    ensures
        outcome(r) == decoded_stage(json_model(*v), path@),
{
    let node = inspect(v);
    match &node {
        Node::Object(entries) => {
            let primary = require_entry(entries, path, "primaryObjective")?;
            let primary_objective = decode_primary(
                primary,
                child_path_text(path, "primaryObjective").as_str(),
            )?;
            let secondary = require_entry(entries, path, "secondaryObjective")?;
            let secondary_objective = decode_secondary(
                secondary,
                child_path_text(path, "secondaryObjective").as_str(),
            )?;
            let anomaly = decode_anomaly(entries, path)?;
            let warning = decode_warning(entries, path)?;
            Ok(DeepDiveStage { primary_objective, secondary_objective, anomaly, warning })
        },
        _ => Err(type_mismatch(path, &node)),
    }
}

fn decode_stages(v: &Value, path: &str) -> (r: Result<[DeepDiveStage; 3], SchemaError>)
    ensures
        outcome(r) == decoded_stages(json_model(*v), path@),
{
    let node = inspect(v);
    match &node {
        Node::Array(items) => {
            if items.len() != 3 {
                return Err(arity_mismatch(path, 3, items.len()));
            }
            let first = decode_stage(items[0], index_path_text(path, 0).as_str())?;
            let second = decode_stage(items[1], index_path_text(path, 1).as_str())?;
            let third = decode_stage(items[2], index_path_text(path, 2).as_str())?;
            Ok([first, second, third])
        },
        _ => Err(type_mismatch(path, &node)),
    }
}

fn decode_codename(entries: &Vec<(&str, &Value)>, path: &str) -> (r: Result<String, SchemaError>)
    ensures
        viewed(r) == decoded_codename(JsonValue::Object(entry_models(entries@)), path@),
{
    let v = require_entry(entries, path, "codename")?;
    let node = inspect(v);
    match &node {
        Node::Text(codename) => Ok(String::from_str(codename)),
        _ => Err(type_mismatch(child_path_text(path, "codename").as_str(), &node)),
    }
}

fn decode_seed(entries: &Vec<(&str, &Value)>, path: &str) -> (r: Result<u64, SchemaError>)
    ensures
        outcome(r) == decoded_seed(JsonValue::Object(entry_models(entries@)), path@),
{
    let v = require_entry(entries, path, "seed")?;
    let node = inspect(v);
    match &node {
        Node::Number(Some(seed), _) => Ok(*seed),
        _ => Err(type_mismatch(child_path_text(path, "seed").as_str(), &node)),
    }
}

/// Reads one schedule.
pub fn decode_dive(v: &Value, path: &str) -> (r: Result<DeepDive, SchemaError>)
    ensures
        viewed(r) == decoded_dive(json_model(*v), path@),
{
    let node = inspect(v);
    match &node {
        Node::Object(entries) => {
            let codename = decode_codename(entries, path)?;
            let biome_doc = require_entry(entries, path, "biome")?;
            let biome = decode_biome(biome_doc, child_path_text(path, "biome").as_str())?;
            let seed = decode_seed(entries, path)?;
            let stages_doc = require_entry(entries, path, "stages")?;
            let stages = decode_stages(stages_doc, child_path_text(path, "stages").as_str())?;
            Ok(DeepDive { codename, biome, seed, stages })
        },
        _ => Err(type_mismatch(path, &node)),
    }
}

fn decode_date(entries: &Vec<(&str, &Value)>, key: &str) -> (r: Result<CivilDateTime, SchemaError>)
    ensures
        outcome(r) == decoded_date(JsonValue::Object(entry_models(entries@)), key@),
        r matches Ok(time) ==> time.wf(),
{
    let v = require_entry(entries, root_path(), key)?;
    let node = inspect(v);
    match &node {
        Node::Text(text) => match from_naive_date_with_known_time(text) {
            Some(time) => Ok(time),
            None => Err(SchemaError::MalformedDate(String::from_str(key), String::from_str(text))),
        },
        _ => Err(type_mismatch(key, &node)),
    }
}

fn decode_top_dive(entries: &Vec<(&str, &Value)>, key: &str) -> (r: Result<DeepDive, SchemaError>)
    ensures
        viewed(r) == decoded_top_dive(JsonValue::Object(entry_models(entries@)), key@),
{
    let v = require_entry(entries, root_path(), key)?;
    decode_dive(v, key)
}

/// Reads a week with its two schedules from a document that serde_json
/// has parsed.
pub fn decode_value(doc: &Value) -> (r: Result<DeepDivesInfo, SchemaError>)
    ensures
        viewed(r) == decoded_info(json_model(*doc)),
        r matches Ok(info) ==> info.wf(),
{
    let node = inspect(doc);
    match &node {
        Node::Object(entries) => {
            let start = decode_date(entries, "start")?;
            let end = decode_date(entries, "end")?;
            let deep_dive = decode_top_dive(entries, "deep_dive")?;
            let elite_deep_dive = decode_top_dive(entries, "elite_deep_dive")?;
            Ok(DeepDivesInfo { date_range: DateRange { start, end }, deep_dive, elite_deep_dive })
        },
        _ => Err(type_mismatch(root_path(), &node)),
    }
}

/// What decoding a text comes to: a syntax error where serde_json reads
/// no document from it, and else what the schema makes of the document.
pub open spec fn decoded_text(text: Seq<char>, r: Result<DeepDivesInfoView, SchemaErrorView>) -> bool {
    match document_of_text(text) {
        Some(doc) => r == decoded_info(doc),
        None => r matches Err(SchemaErrorView::Syntax(_)),
    }
}

/// Reads a week with its two schedules from the text of a document.
pub fn decode(text: &str) -> (r: Result<DeepDivesInfo, SchemaError>)
    ensures
        decoded_text(text@, viewed(r)),
        r matches Ok(info) ==> info.wf(),
{
    match parse_value(text) {
        Ok(doc) => decode_value(&doc),
        Err(error) => Err(SchemaError::Syntax(error_text(&error))),
    }
}

} // verus!

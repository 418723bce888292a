//! The shape of a schedule document: which keys and tags it is made of,
//! what it decodes to, and what is wrong with one that does not decode.
//!
//! Everything here is stated over `JsonValue`, the contents of a document.
//! The functions that walk a `serde_json::Value` and build one are held to
//! these statements.

use vstd::prelude::*;

use crate::calendar::{reset_time_of_text, CivilDateTime};
use crate::json::JsonValue;
use crate::model::{
    dreadnought_tag, three_dreadnoughts_tag, two_dreadnoughts_tag, Anomaly, Biome, DateRange,
    DeepDiveStage, DeepDiveView, DeepDivesInfoView, Dreadnought, PrimaryObjective,
    SecondaryObjective, Warning,
};
use crate::text::{decimal, decimal_text, same_text};

verus! {

/// Why a text is not a schedule document. Each variant but the first
/// starts with the path of the place in the document: keys joined by dots,
/// the position in a list in square brackets, counted from 0.
#[derive(Debug, Clone, PartialEq, Eq)]
pub enum SchemaError {
    /// The text is not JSON; the message is serde_json's.
    Syntax(String),
    /// A key that the schema asks for is absent.
    MissingField(String),
    /// The value is of a JSON type that the schema does not take there;
    /// the second field shows the value.
    TypeMismatch(String, String),
    /// The string is not one of the tags of the enumeration.
    UnknownVariant(String, String),
    /// A list of the wrong length: expected, then found. A tag that asks
    /// for a list and stands alone counts as a list of length 0.
    ArityMismatch(String, usize, usize),
    /// The string is not a date in the form `YYYY-MM-DD`.
    MalformedDate(String, String),
}

/// A schema error with its texts as sequences of characters.
pub enum SchemaErrorView {
    Syntax(Seq<char>),
    MissingField(Seq<char>),
    TypeMismatch(Seq<char>, Seq<char>),
    UnknownVariant(Seq<char>, Seq<char>),
    ArityMismatch(Seq<char>, nat, nat),
    MalformedDate(Seq<char>, Seq<char>),
}

impl View for SchemaError {
    type V = SchemaErrorView;

    open spec fn view(&self) -> SchemaErrorView {
        match *self {
            SchemaError::Syntax(message) => SchemaErrorView::Syntax(message@),
            SchemaError::MissingField(path) => SchemaErrorView::MissingField(path@),
            SchemaError::TypeMismatch(path, value) => SchemaErrorView::TypeMismatch(path@, value@),
            SchemaError::UnknownVariant(path, value) => SchemaErrorView::UnknownVariant(
                path@,
                value@,
            ),
            SchemaError::ArityMismatch(path, expected, actual) => SchemaErrorView::ArityMismatch(
                path@,
                expected as nat,
                actual as nat,
            ),
            SchemaError::MalformedDate(path, value) => SchemaErrorView::MalformedDate(
                path@,
                value@,
            ),
        }
    }
}

/// The outcome of a decoding step with the error taken by its view.
pub open spec fn outcome<T>(r: Result<T, SchemaError>) -> Result<T, SchemaErrorView> {
    match r {
        Ok(value) => Ok(value),
        Err(error) => Err(error@),
    }
}

/// The outcome of a decoding step with value and error taken by their views.
pub open spec fn viewed<T: View>(r: Result<T, SchemaError>) -> Result<T::V, SchemaErrorView> {
    match r {
        Ok(value) => Ok(value@),
        Err(error) => Err(error@),
    }
}

/// The message of the error for a reader.
pub open spec fn message_text(error: SchemaErrorView) -> Seq<char> {
    match error {
        SchemaErrorView::Syntax(message) => "not a JSON document: "@ + message,
        SchemaErrorView::MissingField(path) => "missing field `"@ + path + "`"@,
        SchemaErrorView::TypeMismatch(path, value) => "wrong type of value at `"@ + path + "`: "@
            + value,
        SchemaErrorView::UnknownVariant(path, value) => "unknown variant at `"@ + path + "`: "@
            + value,
        SchemaErrorView::ArityMismatch(path, expected, actual) => "wrong number of items at `"@
            + path + "`: expected "@ + decimal(expected) + ", found "@ + decimal(actual),
        SchemaErrorView::MalformedDate(path, value) => "malformed date at `"@ + path + "`: "@
            + value,
    }
}

impl SchemaError {
    /// The message of the error for a reader: what is wrong, where, and
    /// with which value.
    pub fn message(&self) -> (r: String)
        ensures
            r@ == message_text(self@),
    {
        match self {
            SchemaError::Syntax(message) => {
                let mut r = String::from_str("not a JSON document: ");
                r.append(message.as_str());
                r
            },
            SchemaError::MissingField(path) => {
                let mut r = String::from_str("missing field `");
                r.append(path.as_str());
                r.append("`");
                r
            },
            SchemaError::TypeMismatch(path, value) => {
                let mut r = String::from_str("wrong type of value at `");
                r.append(path.as_str());
                r.append("`: ");
                r.append(value.as_str());
                r
            },
            SchemaError::UnknownVariant(path, value) => {
                let mut r = String::from_str("unknown variant at `");
                r.append(path.as_str());
                r.append("`: ");
                r.append(value.as_str());
                r
            },
            SchemaError::ArityMismatch(path, expected, actual) => {
                let expected = decimal_text(*expected as u64);
                let actual = decimal_text(*actual as u64);
                let mut r = String::from_str("wrong number of items at `");
                r.append(path.as_str());
                r.append("`: expected ");
                r.append(expected.as_str());
                r.append(", found ");
                r.append(actual.as_str());
                r
            },
            SchemaError::MalformedDate(path, value) => {
                let mut r = String::from_str("malformed date at `");
                r.append(path.as_str());
                r.append("`: ");
                r.append(value.as_str());
                r
            },
        }
    }
}

/// The path of the value under `key` in the object at `base`. The path of
/// the document itself is empty.
pub open spec fn child_path(base: Seq<char>, key: Seq<char>) -> Seq<char> {
    if base.len() == 0 {
        key
    } else {
        base + "."@ + key
    }
}

/// The path of the item at `index` in the list at `base`.
pub open spec fn index_path(base: Seq<char>, index: nat) -> Seq<char> {
    base + "["@ + decimal(index) + "]"@
}

/// The path of the document itself: the empty one.
pub fn root_path() -> (r: &'static str)
    ensures
        r@ == Seq::<char>::empty(),
{
    proof {
        reveal_strlit("");
        assert(""@ =~= Seq::<char>::empty());
    }
    ""
}

/// Writes the path of the value under `key` in the object at `base`.
pub fn child_path_text(base: &str, key: &str) -> (r: String)
    ensures
        r@ == child_path(base@, key@),
{
    proof {
        reveal_strlit("");
        assert(""@.len() == 0);
        if base@.len() == 0 {
            assert(base@ =~= ""@);
        }
    }
    if same_text(base, "") {
        String::from_str(key)
    } else {
        let mut r = String::from_str(base);
        r.append(".");
        r.append(key);
        r
    }
}

/// Writes the path of the item at `index` in the list at `base`.
pub fn index_path_text(base: &str, index: usize) -> (r: String)
    ensures
        r@ == index_path(base@, index as nat),
{
    let digits = decimal_text(index as u64);
    let mut r = String::from_str(base);
    r.append("[");
    r.append(digits.as_str());
    r.append("]");
    r
}

/// The value under a key that the schema asks for.
pub open spec fn required(doc: JsonValue, path: Seq<char>, key: Seq<char>) -> Result<
    JsonValue,
    SchemaErrorView,
> {
    match doc.field(key) {
        Some(value) => Ok(value),
        None => Err(SchemaErrorView::MissingField(child_path(path, key))),
    }
}

/// A kind of dreadnought is written as its name.
pub open spec fn decoded_kind(doc: JsonValue, path: Seq<char>) -> Result<
    Dreadnought,
    SchemaErrorView,
> {
    match doc {
        JsonValue::Text(tag) => match Dreadnought::of_label(tag) {
            Some(kind) => Ok(kind),
            None => Err(SchemaErrorView::UnknownVariant(path, tag)),
        },
        _ => Err(SchemaErrorView::TypeMismatch(path, doc.gist())),
    }
}

/// A region is written as its name.
pub open spec fn decoded_biome(doc: JsonValue, path: Seq<char>) -> Result<Biome, SchemaErrorView> {
    match doc {
        JsonValue::Text(tag) => match Biome::of_label(tag) {
            Some(biome) => Ok(biome),
            None => Err(SchemaErrorView::UnknownVariant(path, tag)),
        },
        _ => Err(SchemaErrorView::TypeMismatch(path, doc.gist())),
    }
}

/// An anomaly may be left out or written as `null`; one that is there is
/// written as its name.
pub open spec fn decoded_anomaly(stage: JsonValue, path: Seq<char>) -> Result<
    Option<Anomaly>,
    SchemaErrorView,
> {
    match stage.field("anomaly"@) {
        None => Ok(None),
        Some(JsonValue::Null) => Ok(None),
        Some(JsonValue::Text(tag)) => match Anomaly::of_label(tag) {
            Some(anomaly) => Ok(Some(anomaly)),
            None => Err(SchemaErrorView::UnknownVariant(child_path(path, "anomaly"@), tag)),
        },
        Some(other) => Err(
            SchemaErrorView::TypeMismatch(child_path(path, "anomaly"@), other.gist()),
        ),
    }
}

/// A warning may be left out or written as `null`; one that is there is
/// written as its name.
pub open spec fn decoded_warning(stage: JsonValue, path: Seq<char>) -> Result<
    Option<Warning>,
    SchemaErrorView,
> {
    match stage.field("warning"@) {
        None => Ok(None),
        Some(JsonValue::Null) => Ok(None),
        Some(JsonValue::Text(tag)) => match Warning::of_label(tag) {
            Some(warning) => Ok(Some(warning)),
            None => Err(SchemaErrorView::UnknownVariant(child_path(path, "warning"@), tag)),
        },
        Some(other) => Err(
            SchemaErrorView::TypeMismatch(child_path(path, "warning"@), other.gist()),
        ),
    }
}

/// The list under the tag of an elimination of two: two kinds in order.
pub open spec fn decoded_two_kinds(payload: JsonValue, path: Seq<char>) -> Result<
    [Dreadnought; 2],
    SchemaErrorView,
> {
    match payload {
        JsonValue::Array(items) => if items.len() != 2 {
            Err(SchemaErrorView::ArityMismatch(path, 2, items.len()))
        } else {
            match decoded_kind(items[0], index_path(path, 0)) {
                Err(error) => Err(error),
                Ok(first) => match decoded_kind(items[1], index_path(path, 1)) {
                    Err(error) => Err(error),
                    Ok(second) => Ok([first, second]),
                },
            }
        },
        _ => Err(SchemaErrorView::TypeMismatch(path, payload.gist())),
    }
}

/// The list under the tag of an elimination of three: three kinds in order.
pub open spec fn decoded_three_kinds(payload: JsonValue, path: Seq<char>) -> Result<
    [Dreadnought; 3],
    SchemaErrorView,
> {
    match payload {
        JsonValue::Array(items) => if items.len() != 3 {
            Err(SchemaErrorView::ArityMismatch(path, 3, items.len()))
        } else {
            match decoded_kind(items[0], index_path(path, 0)) {
                Err(error) => Err(error),
                Ok(first) => match decoded_kind(items[1], index_path(path, 1)) {
                    Err(error) => Err(error),
                    Ok(second) => match decoded_kind(items[2], index_path(path, 2)) {
                        Err(error) => Err(error),
                        Ok(third) => Ok([first, second, third]),
                    },
                },
            }
        },
        _ => Err(SchemaErrorView::TypeMismatch(path, payload.gist())),
    }
}

/// A primary objective that stands as a bare tag: one without kinds. The
/// tag of an elimination without its list is a list of the wrong length.
pub open spec fn decoded_primary_tag(tag: Seq<char>, path: Seq<char>) -> Result<
    PrimaryObjective,
    SchemaErrorView,
> {
    if tag == two_dreadnoughts_tag() {
        Err(SchemaErrorView::ArityMismatch(path, 2, 0))
    } else if tag == three_dreadnoughts_tag() {
        Err(SchemaErrorView::ArityMismatch(path, 3, 0))
    } else {
        match PrimaryObjective::unit_of_tag(tag) {
            Some(objective) => Ok(objective),
            None => Err(SchemaErrorView::UnknownVariant(path, tag)),
        }
    }
}

/// A primary objective that stands as an object of one entry, the tag
/// with what belongs to it: the list of kinds for an elimination, `null`
/// for an objective without kinds.
pub open spec fn decoded_primary_entry(tag: Seq<char>, payload: JsonValue, path: Seq<char>) -> Result<
    PrimaryObjective,
    SchemaErrorView,
> {
    if tag == two_dreadnoughts_tag() {
        match decoded_two_kinds(payload, path) {
            Ok(kinds) => Ok(PrimaryObjective::Dreadnought2(kinds)),
            Err(error) => Err(error),
        }
    } else if tag == three_dreadnoughts_tag() {
        match decoded_three_kinds(payload, path) {
            Ok(kinds) => Ok(PrimaryObjective::Dreadnought3(kinds)),
            Err(error) => Err(error),
        }
    } else {
        match PrimaryObjective::unit_of_tag(tag) {
            Some(objective) => if payload is Null {
                Ok(objective)
            } else {
                Err(SchemaErrorView::TypeMismatch(path, payload.gist()))
            },
            None => Err(SchemaErrorView::UnknownVariant(path, tag)),
        }
    }
}

/// A primary objective is a bare tag or an object of one entry.
pub open spec fn decoded_primary(doc: JsonValue, path: Seq<char>) -> Result<
    PrimaryObjective,
    SchemaErrorView,
> {
    match doc {
        JsonValue::Text(tag) => decoded_primary_tag(tag, path),
        JsonValue::Object(entries) => if entries.len() == 1 {
            decoded_primary_entry(entries[0].0, entries[0].1, path)
        } else {
            Err(SchemaErrorView::TypeMismatch(path, doc.gist()))
        },
        _ => Err(SchemaErrorView::TypeMismatch(path, doc.gist())),
    }
}

/// A secondary objective that stands as a bare tag.
pub open spec fn decoded_secondary_tag(tag: Seq<char>, path: Seq<char>) -> Result<
    SecondaryObjective,
    SchemaErrorView,
> {
    if tag == dreadnought_tag() {
        Err(SchemaErrorView::ArityMismatch(path, 1, 0))
    } else {
        match SecondaryObjective::unit_of_tag(tag) {
            Some(objective) => Ok(objective),
            None => Err(SchemaErrorView::UnknownVariant(path, tag)),
        }
    }
}

/// A secondary objective that stands as an object of one entry: the kind
/// under the tag of the dreadnought, `null` under any other tag.
pub open spec fn decoded_secondary_entry(
    tag: Seq<char>,
    payload: JsonValue,
    path: Seq<char>,
) -> Result<SecondaryObjective, SchemaErrorView> {
    if tag == dreadnought_tag() {
        match decoded_kind(payload, path) {
            Ok(kind) => Ok(SecondaryObjective::Dreadnought(kind)),
            Err(error) => Err(error),
        }
    } else {
        match SecondaryObjective::unit_of_tag(tag) {
            Some(objective) => if payload is Null {
                Ok(objective)
            } else {
                Err(SchemaErrorView::TypeMismatch(path, payload.gist()))
            },
            None => Err(SchemaErrorView::UnknownVariant(path, tag)),
        }
    }
}

/// A secondary objective is a bare tag or an object of one entry.
pub open spec fn decoded_secondary(doc: JsonValue, path: Seq<char>) -> Result<
    SecondaryObjective,
    SchemaErrorView,
> {
    match doc {
        JsonValue::Text(tag) => decoded_secondary_tag(tag, path),
        JsonValue::Object(entries) => if entries.len() == 1 {
            decoded_secondary_entry(entries[0].0, entries[0].1, path)
        } else {
            Err(SchemaErrorView::TypeMismatch(path, doc.gist()))
        },
        _ => Err(SchemaErrorView::TypeMismatch(path, doc.gist())),
    }
}

/// The primary objective of a stage, under the key `primaryObjective`.
pub open spec fn decoded_stage_primary(stage: JsonValue, path: Seq<char>) -> Result<
    PrimaryObjective,
    SchemaErrorView,
> {
    match required(stage, path, "primaryObjective"@) {
        Err(error) => Err(error),
        Ok(doc) => decoded_primary(doc, child_path(path, "primaryObjective"@)),
    }
}

/// The secondary objective of a stage, under the key `secondaryObjective`.
pub open spec fn decoded_stage_secondary(stage: JsonValue, path: Seq<char>) -> Result<
    SecondaryObjective,
    SchemaErrorView,
> {
    match required(stage, path, "secondaryObjective"@) {
        Err(error) => Err(error),
        Ok(doc) => decoded_secondary(doc, child_path(path, "secondaryObjective"@)),
    }
}

/// A stage is an object. Its fields are read in the order primary
/// objective, secondary objective, anomaly, warning, and the first that is
/// wrong decides the error.
pub open spec fn decoded_stage(doc: JsonValue, path: Seq<char>) -> Result<
    DeepDiveStage,
    SchemaErrorView,
> {
    if !(doc is Object) {
        Err(SchemaErrorView::TypeMismatch(path, doc.gist()))
    } else {
        match decoded_stage_primary(doc, path) {
            Err(error) => Err(error),
            Ok(primary_objective) => match decoded_stage_secondary(doc, path) {
                Err(error) => Err(error),
                Ok(secondary_objective) => match decoded_anomaly(doc, path) {
                    Err(error) => Err(error),
                    Ok(anomaly) => match decoded_warning(doc, path) {
                        Err(error) => Err(error),
                        Ok(warning) => Ok(
                            DeepDiveStage {
                                primary_objective,
                                secondary_objective,
                                anomaly,
                                warning,
                            },
                        ),
                    },
                },
            },
        }
    }
}

/// The stages of a schedule are a list of three, read in order.
pub open spec fn decoded_stages(doc: JsonValue, path: Seq<char>) -> Result<
    [DeepDiveStage; 3],
    SchemaErrorView,
> {
    match doc {
        JsonValue::Array(items) => if items.len() != 3 {
            Err(SchemaErrorView::ArityMismatch(path, 3, items.len()))
        } else {
            match decoded_stage(items[0], index_path(path, 0)) {
                Err(error) => Err(error),
                Ok(first) => match decoded_stage(items[1], index_path(path, 1)) {
                    Err(error) => Err(error),
                    Ok(second) => match decoded_stage(items[2], index_path(path, 2)) {
                        Err(error) => Err(error),
                        Ok(third) => Ok([first, second, third]),
                    },
                },
            }
        },
        _ => Err(SchemaErrorView::TypeMismatch(path, doc.gist())),
    }
}

/// The code name of a schedule: any string under the key `codename`.
pub open spec fn decoded_codename(dive: JsonValue, path: Seq<char>) -> Result<
    Seq<char>,
    SchemaErrorView,
> {
    match required(dive, path, "codename"@) {
        Err(error) => Err(error),
        Ok(JsonValue::Text(codename)) => Ok(codename),
        Ok(other) => Err(SchemaErrorView::TypeMismatch(child_path(path, "codename"@), other.gist())),
    }
}

/// The seed of a schedule: a whole number from 0 to 2^64 - 1 under the key
/// `seed`.
pub open spec fn decoded_seed(dive: JsonValue, path: Seq<char>) -> Result<u64, SchemaErrorView> {
    match required(dive, path, "seed"@) {
        Err(error) => Err(error),
        Ok(JsonValue::Unsigned(seed)) => Ok(seed),
        Ok(other) => Err(SchemaErrorView::TypeMismatch(child_path(path, "seed"@), other.gist())),
    }
}

/// A schedule is an object. Its fields are read in the order code name,
/// biome, seed, stages, and the first that is wrong decides the error.
pub open spec fn decoded_dive(doc: JsonValue, path: Seq<char>) -> Result<
    DeepDiveView,
    SchemaErrorView,
> {
    if !(doc is Object) {
        Err(SchemaErrorView::TypeMismatch(path, doc.gist()))
    } else {
        match decoded_codename(doc, path) {
            Err(error) => Err(error),
            Ok(codename) => match required(doc, path, "biome"@) {
                Err(error) => Err(error),
                Ok(biome_doc) => match decoded_biome(biome_doc, child_path(path, "biome"@)) {
                    Err(error) => Err(error),
                    Ok(biome) => match decoded_seed(doc, path) {
                        Err(error) => Err(error),
                        Ok(seed) => match required(doc, path, "stages"@) {
                            Err(error) => Err(error),
                            Ok(stages_doc) => match decoded_stages(
                                stages_doc,
                                child_path(path, "stages"@),
                            ) {
                                Err(error) => Err(error),
                                Ok(stages) => Ok(DeepDiveView { codename, biome, seed, stages }),
                            },
                        },
                    },
                },
            },
        }
    }
}

/// A bound of the week is a date in the form `YYYY-MM-DD`, taken at the
/// hour of the weekly reset.
pub open spec fn decoded_date(doc: JsonValue, key: Seq<char>) -> Result<
    CivilDateTime,
    SchemaErrorView,
> {
    match required(doc, Seq::empty(), key) {
        Err(error) => Err(error),
        Ok(JsonValue::Text(text)) => match reset_time_of_text(text) {
            Some(time) => Ok(time),
            None => Err(SchemaErrorView::MalformedDate(key, text)),
        },
        Ok(other) => Err(SchemaErrorView::TypeMismatch(key, other.gist())),
    }
}

/// A schedule of the week, under its key at the top of the document.
pub open spec fn decoded_top_dive(doc: JsonValue, key: Seq<char>) -> Result<
    DeepDiveView,
    SchemaErrorView,
> {
    match required(doc, Seq::empty(), key) {
        Err(error) => Err(error),
        Ok(dive) => decoded_dive(dive, key),
    }
}

/// A schedule document is an object with the two bounds of the week and
/// the two schedules side by side. They are read in the order `start`,
/// `end`, `deep_dive`, `elite_deep_dive`, and the first that is wrong
/// decides the error. Keys that the schema does not know are passed over.
pub open spec fn decoded_info(doc: JsonValue) -> Result<DeepDivesInfoView, SchemaErrorView> {
    if !(doc is Object) {
        Err(SchemaErrorView::TypeMismatch(Seq::empty(), doc.gist()))
    } else {
        match decoded_date(doc, "start"@) {
            Err(error) => Err(error),
            Ok(start) => match decoded_date(doc, "end"@) {
                Err(error) => Err(error),
                Ok(end) => match decoded_top_dive(doc, "deep_dive"@) {
                    Err(error) => Err(error),
                    Ok(deep_dive) => match decoded_top_dive(doc, "elite_deep_dive"@) {
                        Err(error) => Err(error),
                        Ok(elite_deep_dive) => Ok(
                            DeepDivesInfoView {
                                date_range: DateRange { start, end },
                                deep_dive,
                                elite_deep_dive,
                            },
                        ),
                    },
                },
            },
        }
    }
}

/// A kind of dreadnought as a document.
pub open spec fn encoded_kind(kind: Dreadnought) -> JsonValue {
    JsonValue::Text(kind.label())
}

/// A primary objective as a document: its tag, and for an elimination an
/// object of one entry that holds the kinds under the tag.
pub open spec fn encoded_primary(objective: PrimaryObjective) -> JsonValue {
    match objective {
        PrimaryObjective::Dreadnought2(kinds) => JsonValue::Object(
            seq![
                (
                    two_dreadnoughts_tag(),
                    JsonValue::Array(seq![encoded_kind(kinds[0]), encoded_kind(kinds[1])]),
                ),
            ],
        ),
        PrimaryObjective::Dreadnought3(kinds) => JsonValue::Object(
            seq![
                (
                    three_dreadnoughts_tag(),
                    JsonValue::Array(
                        seq![encoded_kind(kinds[0]), encoded_kind(kinds[1]), encoded_kind(kinds[2])],
                    ),
                ),
            ],
        ),
        _ => JsonValue::Text(objective.tag()),
    }
}

/// A secondary objective as a document: its tag, and for the dreadnought
/// an object of one entry that holds the kind under the tag.
pub open spec fn encoded_secondary(objective: SecondaryObjective) -> JsonValue {
    match objective {
        SecondaryObjective::Dreadnought(kind) => JsonValue::Object(
            seq![(dreadnought_tag(), encoded_kind(kind))],
        ),
        _ => JsonValue::Text(objective.tag()),
    }
}

/// An anomaly as a document: its name, or `null` where there is none.
pub open spec fn encoded_anomaly(anomaly: Option<Anomaly>) -> JsonValue {
    match anomaly {
        Some(anomaly) => JsonValue::Text(anomaly.label()),
        None => JsonValue::Null,
    }
}

/// A warning as a document: its name, or `null` where there is none.
pub open spec fn encoded_warning(warning: Option<Warning>) -> JsonValue {
    match warning {
        Some(warning) => JsonValue::Text(warning.label()),
        None => JsonValue::Null,
    }
}

/// A stage as a document.
pub open spec fn encoded_stage(stage: DeepDiveStage) -> JsonValue {
    JsonValue::Object(
        seq![
            ("primaryObjective"@, encoded_primary(stage.primary_objective)),
            ("secondaryObjective"@, encoded_secondary(stage.secondary_objective)),
            ("anomaly"@, encoded_anomaly(stage.anomaly)),
            ("warning"@, encoded_warning(stage.warning)),
        ],
    )
}

/// The three stages of a schedule as a document.
pub open spec fn encoded_stages(stages: [DeepDiveStage; 3]) -> JsonValue {
    JsonValue::Array(
        seq![encoded_stage(stages[0]), encoded_stage(stages[1]), encoded_stage(stages[2])],
    )
}

/// A schedule as a document.
pub open spec fn encoded_dive(dive: DeepDiveView) -> JsonValue {
    JsonValue::Object(
        seq![
            ("codename"@, JsonValue::Text(dive.codename)),
            ("biome"@, JsonValue::Text(dive.biome.label())),
            ("seed"@, JsonValue::Unsigned(dive.seed)),
            ("stages"@, encoded_stages(dive.stages)),
        ],
    )
}

/// A week as a document. Of each bound only the date is written.
pub open spec fn encoded_info(info: DeepDivesInfoView) -> JsonValue {
    JsonValue::Object(
        seq![
            ("start"@, JsonValue::Text(info.date_range.start.date_text())),
            ("end"@, JsonValue::Text(info.date_range.end.date_text())),
            ("deep_dive"@, encoded_dive(info.deep_dive)),
            ("elite_deep_dive"@, encoded_dive(info.elite_deep_dive)),
        ],
    )
}

} // verus!

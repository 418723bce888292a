//! Weekly deep dive schedules: the data model, its JSON encoding and the
//! chat report rendered from it.

pub mod calendar;
pub mod decode;
pub mod encode;
pub mod example;
pub mod json;
pub mod laws;
pub mod model;
pub mod render;
pub mod schema;
pub mod text;

pub use calendar::{as_naive_date_without_time, from_naive_date_with_known_time, CivilDateTime};
pub use decode::{decode, decode_value};
pub use encode::{encode, encode_value};
pub use example::{example_info, generate_example_json};
pub use model::{
    Anomaly, Biome, DateRange, DeepDive, DeepDiveStage, DeepDivesInfo, Dreadnought,
    PrimaryObjective, SecondaryObjective, Warning,
};
pub use render::{
    discord_emojify_info, mutator_fmt, objectives_fmt, region_codename_fmt, stages_fmt,
};
pub use schema::SchemaError;

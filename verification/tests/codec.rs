use deep_dives::decode::{decode_dive, decode_primary, decode_secondary, decode_stage};
use deep_dives::encode::{encode_dive, encode_primary, encode_secondary, encode_stage};
use deep_dives::{
    decode, decode_value, encode, encode_value, example_info, generate_example_json, Anomaly,
    Biome, CivilDateTime, DateRange, DeepDive, DeepDiveStage, DeepDivesInfo, Dreadnought,
    PrimaryObjective, SchemaError, SecondaryObjective, Warning,
};

const EXAMPLE_JSON: &str = r#"{
    "start": "2023-07-06",
    "end": "2023-07-13",
    "deep_dive": {
        "codename": "High Contact",
        "biome": "Glacial Strata",
        "seed": 3116029769,
        "stages": [
            {
                "primaryObjective": "On-Site Refining",
                "secondaryObjective": "150 Morkite",
                "anomaly": null,
                "warning": null
            },
            {
                "primaryObjective": "200 Morkite",
                "secondaryObjective": "2 Eggs",
                "anomaly": null,
                "warning": "Regenerative Bugs"
            },
            {
                "primaryObjective": "Industrial Sabotage",
                "secondaryObjective": "2 Mini-mules",
                "anomaly": null,
                "warning": "Exploder Infestation"
            }
        ]
    },
    "elite_deep_dive": {
        "codename": "Uncovered Arm",
        "biome": "Magma Core",
        "seed": 1688014532,
        "stages": [
            {
                "primaryObjective": "200 Morkite",
                "secondaryObjective": "Black Box",
                "anomaly": null,
                "warning": null
            },
            {
                "primaryObjective": "10 Aquarqs",
                "secondaryObjective": "Black Box",
                "anomaly": null,
                "warning": "Shield Disruption"
            },
            {
                "primaryObjective": "3 Mini-mules",
                "secondaryObjective": {
                    "Dreadnought": "Hiveguard"
                },
                "anomaly": null,
                "warning": "Mactera Plague"
            }
        ]
    }
}"#;

fn at_reset(year: i32, month: u32, day: u32) -> CivilDateTime {
    CivilDateTime { year, month, day, hour: 11, minute: 0, second: 0 }
}

fn full_stage() -> DeepDiveStage {
    DeepDiveStage {
        primary_objective: PrimaryObjective::Dreadnought3([
            Dreadnought::Hiveguard,
            Dreadnought::Classic,
            Dreadnought::Twins,
        ]),
        secondary_objective: SecondaryObjective::Dreadnought(Dreadnought::Twins),
        anomaly: Some(Anomaly::RichAtmosphere),
        warning: Some(Warning::HauntedCave),
    }
}

fn hand_made() -> DeepDivesInfo {
    DeepDivesInfo {
        date_range: DateRange {
            start: CivilDateTime { year: 2024, month: 2, day: 29, hour: 0, minute: 0, second: 0 },
            end: CivilDateTime { year: 2024, month: 3, day: 7, hour: 23, minute: 59, second: 59 },
        },
        deep_dive: DeepDive {
            codename: "Quote \" and \\ and \u{e9}\n".to_string(),
            biome: Biome::AzureWeald,
            seed: u64::MAX,
            stages: [
                full_stage(),
                DeepDiveStage {
                    primary_objective: PrimaryObjective::Dreadnought2([
                        Dreadnought::Twins,
                        Dreadnought::Twins,
                    ]),
                    secondary_objective: SecondaryObjective::Egg,
                    anomaly: Some(Anomaly::CriticalWeakness),
                    warning: None,
                },
                DeepDiveStage {
                    primary_objective: PrimaryObjective::PointExtraction7,
                    secondary_objective: SecondaryObjective::MiniMules,
                    anomaly: None,
                    warning: Some(Warning::Swarmageddon),
                },
            ],
        },
        elite_deep_dive: DeepDive {
            codename: String::new(),
            biome: Biome::HollowBough,
            seed: 0,
            stages: [full_stage(), full_stage(), full_stage()],
        },
    }
}

fn normalized(info: &DeepDivesInfo) -> DeepDivesInfo {
    let mut week = info.clone();
    let start = week.date_range.start;
    let end = week.date_range.end;
    week.date_range = DateRange {
        start: at_reset(start.year, start.month, start.day),
        end: at_reset(end.year, end.month, end.day),
    };
    week
}

fn parsed(text: &str) -> serde_json::Value {
    serde_json::from_str(text).unwrap()
}

fn with(old: &str, new: &str) -> String {
    assert!(EXAMPLE_JSON.contains(old));
    EXAMPLE_JSON.replacen(old, new, 1)
}

fn path_error(found: Result<DeepDivesInfo, SchemaError>) -> SchemaError {
    match found {
        Err(error) => error,
        Ok(_) => panic!("the document was accepted"),
    }
}

#[test]
fn example_document_text() {
    assert_eq!(generate_example_json(), EXAMPLE_JSON);
    assert_eq!(encode(&example_info()), EXAMPLE_JSON);
}

#[test]
fn example_document_is_read() {
    assert_eq!(decode(EXAMPLE_JSON), Ok(example_info()));
    assert_eq!(decode_value(&parsed(EXAMPLE_JSON)), Ok(example_info()));
}

#[test]
fn round_trip_of_the_example() {
    let info = example_info();
    assert_eq!(decode(&encode(&info)), Ok(info));
}

#[test]
fn round_trip_normalizes_the_time_of_day() {
    let info = hand_made();
    let back = decode(&encode(&info));
    assert_eq!(back, Ok(normalized(&info)));
    assert_ne!(back, Ok(info));
}

#[test]
fn round_trip_is_stable_after_the_first() {
    let once = decode(&encode(&hand_made())).unwrap();
    let twice = decode(&encode(&once)).unwrap();
    assert_eq!(once, twice);
    assert_eq!(encode(&once), encode(&hand_made()));
}

#[test]
fn round_trip_through_values() {
    let info = hand_made();
    assert_eq!(decode_value(&encode_value(&info)), Ok(normalized(&info)));
}

#[test]
fn round_trip_of_every_part() {
    let info = hand_made();
    for stage in info.deep_dive.stages {
        assert_eq!(decode_stage(&encode_stage(&stage), "here"), Ok(stage));
        assert_eq!(
            decode_primary(&encode_primary(&stage.primary_objective), "here"),
            Ok(stage.primary_objective)
        );
        assert_eq!(
            decode_secondary(&encode_secondary(&stage.secondary_objective), "here"),
            Ok(stage.secondary_objective)
        );
    }
    assert_eq!(decode_dive(&encode_dive(&info.deep_dive), "here"), Ok(info.deep_dive));
}

#[test]
fn encoded_value_has_the_keys_in_order() {
    let doc = encode_value(&example_info());
    let keys: Vec<&String> = doc.as_object().unwrap().keys().collect();
    assert_eq!(keys, ["start", "end", "deep_dive", "elite_deep_dive"]);
    assert_eq!(doc["start"], serde_json::Value::from("2023-07-06"));
    assert_eq!(doc["deep_dive"]["seed"].as_u64(), Some(3116029769));
    assert!(doc["deep_dive"]["stages"][0]["anomaly"].is_null());
    assert_eq!(doc["deep_dive"]["stages"].as_array().unwrap().len(), 3);
}

#[test]
fn eliminations_are_written_as_objects_of_one_entry() {
    let two = PrimaryObjective::Dreadnought2([Dreadnought::Classic, Dreadnought::Hiveguard]);
    assert_eq!(encode_primary(&two), parsed(r#"{"2 Dreadnoughts": ["Classic", "Hiveguard"]}"#));
    let three = PrimaryObjective::Dreadnought3([
        Dreadnought::Classic,
        Dreadnought::Twins,
        Dreadnought::Hiveguard,
    ]);
    assert_eq!(
        encode_primary(&three),
        parsed(r#"{"3 Dreadnoughts": ["Classic", "Twins", "Hiveguard"]}"#)
    );
    let one = SecondaryObjective::Dreadnought(Dreadnought::Twins);
    assert_eq!(encode_secondary(&one), parsed(r#"{"Dreadnought": "Twins"}"#));
    assert_eq!(encode_primary(&PrimaryObjective::OnSiteRefining), parsed(r#""On-Site Refining""#));
}

#[test]
fn unknown_tag_is_rejected() {
    let text = with("\"biome\": \"Glacial Strata\"", "\"biome\": \"Nonexistent Place\"");
    assert_eq!(
        decode(&text),
        Err(SchemaError::UnknownVariant(
            "deep_dive.biome".to_string(),
            "Nonexistent Place".to_string()
        ))
    );
}

#[test]
fn unknown_tags_of_every_enumeration() {
    let text = with("\"On-Site Refining\"", "\"On-Site Refinery\"");
    assert_eq!(
        decode(&text),
        Err(SchemaError::UnknownVariant(
            "deep_dive.stages[0].primaryObjective".to_string(),
            "On-Site Refinery".to_string()
        ))
    );
    let text = with("\"2 Mini-mules\"", "\"3 Mini-mules\"");
    assert_eq!(
        decode(&text),
        Err(SchemaError::UnknownVariant(
            "deep_dive.stages[2].secondaryObjective".to_string(),
            "3 Mini-mules".to_string()
        ))
    );
    let text = with("\"warning\": \"Shield Disruption\"", "\"warning\": \"Low Gravity\"");
    assert_eq!(
        decode(&text),
        Err(SchemaError::UnknownVariant(
            "elite_deep_dive.stages[1].warning".to_string(),
            "Low Gravity".to_string()
        ))
    );
    let text = with("\"anomaly\": null", "\"anomaly\": \"\"");
    assert_eq!(
        decode(&text),
        Err(SchemaError::UnknownVariant("deep_dive.stages[0].anomaly".to_string(), String::new()))
    );
    let text = with("\"Hiveguard\"", "\"hiveguard\"");
    assert_eq!(
        decode(&text),
        Err(SchemaError::UnknownVariant(
            "elite_deep_dive.stages[2].secondaryObjective".to_string(),
            "hiveguard".to_string()
        ))
    );
    let text = with("\"On-Site Refining\"", "{\"3 Dreadnoughts\": [\"Classic\", \"Twin\", 5]}");
    assert_eq!(
        decode(&text),
        Err(SchemaError::UnknownVariant(
            "deep_dive.stages[0].primaryObjective[1]".to_string(),
            "Twin".to_string()
        ))
    );
    let text = with("\"On-Site Refining\"", "{\"4 Dreadnoughts\": []}");
    assert_eq!(
        decode(&text),
        Err(SchemaError::UnknownVariant(
            "deep_dive.stages[0].primaryObjective".to_string(),
            "4 Dreadnoughts".to_string()
        ))
    );
}

#[test]
fn arity_is_enforced() {
    let text = with(
        "\"primaryObjective\": \"On-Site Refining\"",
        "\"primaryObjective\": {\"2 Dreadnoughts\": [\"Classic\"]}",
    );
    assert_eq!(
        decode(&text),
        Err(SchemaError::ArityMismatch("deep_dive.stages[0].primaryObjective".to_string(), 2, 1))
    );
}

#[test]
fn arity_of_every_list() {
    let text = with(
        "\"On-Site Refining\"",
        "{\"3 Dreadnoughts\": [\"Classic\", \"Twins\", \"Twins\", \"Twins\"]}",
    );
    assert_eq!(
        decode(&text),
        Err(SchemaError::ArityMismatch("deep_dive.stages[0].primaryObjective".to_string(), 3, 4))
    );
    let text = with("\"On-Site Refining\"", "{\"2 Dreadnoughts\": []}");
    assert_eq!(
        decode(&text),
        Err(SchemaError::ArityMismatch("deep_dive.stages[0].primaryObjective".to_string(), 2, 0))
    );
    let text = with("\"On-Site Refining\"", "\"2 Dreadnoughts\"");
    assert_eq!(
        decode(&text),
        Err(SchemaError::ArityMismatch("deep_dive.stages[0].primaryObjective".to_string(), 2, 0))
    );
    let text = with("\"On-Site Refining\"", "\"3 Dreadnoughts\"");
    assert_eq!(
        decode(&text),
        Err(SchemaError::ArityMismatch("deep_dive.stages[0].primaryObjective".to_string(), 3, 0))
    );
    let text = with("\"150 Morkite\"", "\"Dreadnought\"");
    assert_eq!(
        decode(&text),
        Err(SchemaError::ArityMismatch("deep_dive.stages[0].secondaryObjective".to_string(), 1, 0))
    );
    let doc = parsed(r#"{"codename": "x", "biome": "Salt Pits", "seed": 1, "stages": []}"#);
    assert_eq!(
        decode_dive(&doc, "deep_dive"),
        Err(SchemaError::ArityMismatch("deep_dive.stages".to_string(), 3, 0))
    );
}

#[test]
fn missing_fields_are_named() {
    assert_eq!(decode("{}"), Err(SchemaError::MissingField("start".to_string())));
    assert_eq!(
        decode(r#"{"start": "2023-07-06"}"#),
        Err(SchemaError::MissingField("end".to_string()))
    );
    assert_eq!(
        decode(r#"{"start": "2023-07-06", "end": "2023-07-13"}"#),
        Err(SchemaError::MissingField("deep_dive".to_string()))
    );
    assert_eq!(
        decode(&with("\"elite_deep_dive\"", "\"elite\"")),
        Err(SchemaError::MissingField("elite_deep_dive".to_string()))
    );
    assert_eq!(
        decode(&with("\"codename\"", "\"code_name\"")),
        Err(SchemaError::MissingField("deep_dive.codename".to_string()))
    );
    assert_eq!(
        decode(&with("\"seed\": 1688014532", "\"sead\": 1688014532")),
        Err(SchemaError::MissingField("elite_deep_dive.seed".to_string()))
    );
    assert_eq!(
        decode(&with("\"primaryObjective\"", "\"primary_objective\"")),
        Err(SchemaError::MissingField("deep_dive.stages[0].primaryObjective".to_string()))
    );
    assert_eq!(
        decode(&with("\"secondaryObjective\": \"2 Eggs\"", "\"secondary\": \"2 Eggs\"")),
        Err(SchemaError::MissingField("deep_dive.stages[1].secondaryObjective".to_string()))
    );
}

#[test]
fn wrong_types_are_named() {
    assert_eq!(
        decode("[]"),
        Err(SchemaError::TypeMismatch(String::new(), "[...]".to_string()))
    );
    assert_eq!(decode("17"), Err(SchemaError::TypeMismatch(String::new(), "17".to_string())));
    assert_eq!(
        decode(&with("\"seed\": 3116029769", "\"seed\": -1")),
        Err(SchemaError::TypeMismatch("deep_dive.seed".to_string(), "-1".to_string()))
    );
    assert_eq!(
        decode(&with("\"seed\": 3116029769", "\"seed\": 1.5")),
        Err(SchemaError::TypeMismatch("deep_dive.seed".to_string(), "1.5".to_string()))
    );
    assert_eq!(
        decode(&with("\"seed\": 3116029769", "\"seed\": \"3116029769\"")),
        Err(SchemaError::TypeMismatch("deep_dive.seed".to_string(), "3116029769".to_string()))
    );
    assert_eq!(
        decode(&with("\"codename\": \"High Contact\"", "\"codename\": null")),
        Err(SchemaError::TypeMismatch("deep_dive.codename".to_string(), "null".to_string()))
    );
    assert_eq!(
        decode(&with("\"biome\": \"Glacial Strata\"", "\"biome\": {}")),
        Err(SchemaError::TypeMismatch("deep_dive.biome".to_string(), "{...}".to_string()))
    );
    assert_eq!(
        decode(&with("\"start\": \"2023-07-06\"", "\"start\": 20230706")),
        Err(SchemaError::TypeMismatch("start".to_string(), "20230706".to_string()))
    );
    assert_eq!(
        decode(&with("\"On-Site Refining\"", "true")),
        Err(SchemaError::TypeMismatch(
            "deep_dive.stages[0].primaryObjective".to_string(),
            "true".to_string()
        ))
    );
    assert_eq!(
        decode(&with("\"On-Site Refining\"", "{}")),
        Err(SchemaError::TypeMismatch(
            "deep_dive.stages[0].primaryObjective".to_string(),
            "{...}".to_string()
        ))
    );
    assert_eq!(
        decode(&with("\"On-Site Refining\"", "{\"2 Dreadnoughts\": \"Classic\"}")),
        Err(SchemaError::TypeMismatch(
            "deep_dive.stages[0].primaryObjective".to_string(),
            "Classic".to_string()
        ))
    );
    assert_eq!(
        decode(&with("\"On-Site Refining\"", "{\"2 Dreadnoughts\": [null, \"Classic\"]}")),
        Err(SchemaError::TypeMismatch(
            "deep_dive.stages[0].primaryObjective[0]".to_string(),
            "null".to_string()
        ))
    );
    assert_eq!(
        decode(&with("\"On-Site Refining\"", "{\"Escort Duty\": []}")),
        Err(SchemaError::TypeMismatch(
            "deep_dive.stages[0].primaryObjective".to_string(),
            "[...]".to_string()
        ))
    );
    assert_eq!(
        decode(&with("\"150 Morkite\"", "{\"Dreadnought\": [\"Classic\"]}")),
        Err(SchemaError::TypeMismatch(
            "deep_dive.stages[0].secondaryObjective".to_string(),
            "[...]".to_string()
        ))
    );
    let doc = parsed(r#"{"deep_dive": []}"#);
    assert_eq!(
        decode_dive(&doc["deep_dive"], "deep_dive"),
        Err(SchemaError::TypeMismatch("deep_dive".to_string(), "[...]".to_string()))
    );
    let doc = parsed(r#"{"codename": "x", "biome": "Salt Pits", "seed": 1, "stages": {}}"#);
    assert_eq!(
        decode_dive(&doc, "elite_deep_dive"),
        Err(SchemaError::TypeMismatch("elite_deep_dive.stages".to_string(), "{...}".to_string()))
    );
    let doc = parsed(r#"{"codename": "x", "biome": "Salt Pits", "seed": 1, "stages": [1, 2, 3]}"#);
    assert_eq!(
        decode_dive(&doc, "elite_deep_dive"),
        Err(SchemaError::TypeMismatch("elite_deep_dive.stages[0]".to_string(), "1".to_string()))
    );
}

#[test]
fn falsy_mutators_other_than_null_are_rejected() {
    assert_eq!(
        decode(&with("\"anomaly\": null", "\"anomaly\": false")),
        Err(SchemaError::TypeMismatch(
            "deep_dive.stages[0].anomaly".to_string(),
            "false".to_string()
        ))
    );
    assert_eq!(
        decode(&with("\"warning\": null", "\"warning\": 0")),
        Err(SchemaError::TypeMismatch("deep_dive.stages[0].warning".to_string(), "0".to_string()))
    );
    assert_eq!(
        decode(&with("\"warning\": null", "\"warning\": []")),
        Err(SchemaError::TypeMismatch(
            "deep_dive.stages[0].warning".to_string(),
            "[...]".to_string()
        ))
    );
}

#[test]
fn absent_mutators_are_none() {
    let doc = parsed(r#"{"primaryObjective": "4 Eggs", "secondaryObjective": "Black Box"}"#);
    assert_eq!(
        decode_stage(&doc, ""),
        Ok(DeepDiveStage {
            primary_objective: PrimaryObjective::Egg4,
            secondary_objective: SecondaryObjective::BlackBox,
            anomaly: None,
            warning: None,
        })
    );
    let doc = parsed(
        r#"{"warning": "Parasites", "anomaly": "Low Gravity",
            "secondaryObjective": "Black Box", "primaryObjective": "4 Eggs"}"#,
    );
    assert_eq!(
        decode_stage(&doc, ""),
        Ok(DeepDiveStage {
            primary_objective: PrimaryObjective::Egg4,
            secondary_objective: SecondaryObjective::BlackBox,
            anomaly: Some(Anomaly::LowGravity),
            warning: Some(Warning::Parasites),
        })
    );
}

#[test]
fn malformed_dates_are_rejected() {
    assert_eq!(
        decode(&with("\"2023-07-06\"", "\"6 July 2023\"")),
        Err(SchemaError::MalformedDate("start".to_string(), "6 July 2023".to_string()))
    );
    assert_eq!(
        decode(&with("\"2023-07-13\"", "\"2023-02-30\"")),
        Err(SchemaError::MalformedDate("end".to_string(), "2023-02-30".to_string()))
    );
    assert_eq!(
        decode(&with("\"2023-07-13\"", "\"2023-07-13T11:00:00\"")),
        Err(SchemaError::MalformedDate("end".to_string(), "2023-07-13T11:00:00".to_string()))
    );
}

#[test]
fn text_that_is_not_json_is_a_syntax_error() {
    for text in ["", "{", "{\"start\": }", "nul", "{} {}", "{'start': 1}"] {
        assert!(matches!(decode(text), Err(SchemaError::Syntax(_))), "{}", text);
    }
    let message = match decode("{") {
        Err(SchemaError::Syntax(message)) => message,
        other => panic!("{:?}", other),
    };
    assert!(message.contains("line 1"));
}

#[test]
fn first_error_in_reading_order_wins() {
    let text = with("\"2023-07-06\"", "\"soon\"").replace("Glacial Strata", "Nowhere");
    assert_eq!(
        decode(&text),
        Err(SchemaError::MalformedDate("start".to_string(), "soon".to_string()))
    );
    let text = with("\"seed\": 3116029769", "\"seed\": null").replace("200 Morkite", "2 Morkite");
    assert_eq!(
        decode(&text),
        Err(SchemaError::TypeMismatch("deep_dive.seed".to_string(), "null".to_string()))
    );
    let text = with("\"codename\": \"Uncovered Arm\",", "").replace("Magma Core", "Magma");
    assert_eq!(
        decode(&text),
        Err(SchemaError::MissingField("elite_deep_dive.codename".to_string()))
    );
}

#[test]
fn unknown_keys_are_passed_over() {
    let text = with("\"start\"", "\"comment\": [1, 2.5, {\"a\": null}], \"start\"");
    assert_eq!(decode(&text), Ok(example_info()));
    let text = with("\"seed\": 3116029769", "\"seed\": 3116029769, \"length\": \"long\"");
    assert_eq!(decode(&text), Ok(example_info()));
}

#[test]
fn order_of_keys_does_not_matter() {
    let doc = parsed(
        r#"{"stages": [
                {"secondaryObjective": "2 Eggs", "primaryObjective": "6 Eggs"},
                {"secondaryObjective": "2 Eggs", "primaryObjective": "6 Eggs"},
                {"secondaryObjective": "2 Eggs", "primaryObjective": "6 Eggs"}],
            "seed": 18446744073709551615, "biome": "Dense Biozone", "codename": "Last First"}"#,
    );
    let stage = DeepDiveStage {
        primary_objective: PrimaryObjective::Egg6,
        secondary_objective: SecondaryObjective::Egg,
        anomaly: None,
        warning: None,
    };
    assert_eq!(
        decode_dive(&doc, "deep_dive"),
        Ok(DeepDive {
            codename: "Last First".to_string(),
            biome: Biome::DenseBiozone,
            seed: u64::MAX,
            stages: [stage, stage, stage],
        })
    );
}

#[test]
fn tag_without_kinds_may_stand_in_an_object_with_null() {
    assert_eq!(
        decode_primary(&parsed(r#"{"Escort Duty": null}"#), "p"),
        Ok(PrimaryObjective::EscortDuty)
    );
    assert_eq!(
        decode_secondary(&parsed(r#"{"Black Box": null}"#), "s"),
        Ok(SecondaryObjective::BlackBox)
    );
    assert_eq!(
        decode_primary(&parsed(r#"{"Escort Duty": null, "4 Eggs": null}"#), "p"),
        Err(SchemaError::TypeMismatch("p".to_string(), "{...}".to_string()))
    );
}

#[test]
fn kinds_are_read_in_order() {
    assert_eq!(
        decode_primary(&parsed(r#"{"2 Dreadnoughts": ["Hiveguard", "Classic"]}"#), "p"),
        Ok(PrimaryObjective::Dreadnought2([Dreadnought::Hiveguard, Dreadnought::Classic]))
    );
    assert_eq!(
        decode_primary(&parsed(r#"{"3 Dreadnoughts": ["Twins", "Hiveguard", "Classic"]}"#), "p"),
        Ok(PrimaryObjective::Dreadnought3([
            Dreadnought::Twins,
            Dreadnought::Hiveguard,
            Dreadnought::Classic
        ]))
    );
    assert_eq!(
        decode_secondary(&parsed(r#"{"Dreadnought": "Classic"}"#), "s"),
        Ok(SecondaryObjective::Dreadnought(Dreadnought::Classic))
    );
}

#[test]
fn decoded_week_is_well_formed_and_renders() {
    let info = decode(EXAMPLE_JSON).unwrap();
    assert!(info.is_well_formed());
    assert_eq!(info.date_range.start, at_reset(2023, 7, 6));
    assert_eq!(info.date_range.end, at_reset(2023, 7, 13));
    assert_eq!(deep_dives::discord_emojify_info(&info).lines().count(), 15);
}

#[test]
fn error_messages() {
    assert_eq!(
        SchemaError::MissingField("deep_dive.seed".to_string()).message(),
        "missing field `deep_dive.seed`"
    );
    assert_eq!(
        SchemaError::UnknownVariant("deep_dive.biome".to_string(), "Nowhere".to_string())
            .message(),
        "unknown variant at `deep_dive.biome`: Nowhere"
    );
    assert_eq!(
        SchemaError::ArityMismatch("deep_dive.stages".to_string(), 3, 12).message(),
        "wrong number of items at `deep_dive.stages`: expected 3, found 12"
    );
    assert_eq!(
        SchemaError::MalformedDate("end".to_string(), "soon".to_string()).message(),
        "malformed date at `end`: soon"
    );
    assert_eq!(
        SchemaError::TypeMismatch("deep_dive.seed".to_string(), "null".to_string()).message(),
        "wrong type of value at `deep_dive.seed`: null"
    );
    assert_eq!(
        SchemaError::Syntax("EOF while parsing".to_string()).message(),
        "not a JSON document: EOF while parsing"
    );
}

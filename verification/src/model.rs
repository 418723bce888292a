//! The closed taxonomy of a weekly schedule: biomes, objectives, mutators,
//! and the schedules built from them.
//!
//! Each enumeration keeps its table of names beside it. A name is what the
//! game shows and what a schedule document writes as the tag of the variant.

use vstd::prelude::*;

use crate::calendar::CivilDateTime;
use crate::text::{has_shape, same_text};

verus! {

/// The kind of dreadnought that an elimination objective asks for.
#[derive(Debug, Clone, Copy, PartialEq, Eq)]
pub enum Dreadnought {
    Classic,
    Twins,
    Hiveguard,
}

impl Dreadnought {
    /// The name of the kind as the game shows it, which is also its tag
    /// in a schedule document.
    pub open spec fn label(self) -> Seq<char> {
        match self {
            Dreadnought::Classic => "Classic"@,
            Dreadnought::Twins => "Twins"@,
            Dreadnought::Hiveguard => "Hiveguard"@,
        }
    }

    /// The kind that a tag names, if it names one.
    pub open spec fn of_label(tag: Seq<char>) -> Option<Dreadnought> {
        if tag == "Classic"@ {
            Some(Dreadnought::Classic)
        } else if tag == "Twins"@ {
            Some(Dreadnought::Twins)
        } else if tag == "Hiveguard"@ {
            Some(Dreadnought::Hiveguard)
        } else {
            None
        }
    }

    /// The name of the kind as the game shows it.
    pub fn as_str(&self) -> (r: &'static str)
        ensures
            r@ == self.label(),
    {
        match self {
            Dreadnought::Classic => "Classic",
            Dreadnought::Twins => "Twins",
            Dreadnought::Hiveguard => "Hiveguard",
        }
    }

    /// Looks a tag up among the names of the kinds.
    pub fn from_label(tag: &str) -> (r: Option<Dreadnought>)
        ensures
            r == Dreadnought::of_label(tag@),
    {
        if same_text(tag, "Classic") {
            Some(Dreadnought::Classic)
        } else if same_text(tag, "Twins") {
            Some(Dreadnought::Twins)
        } else if same_text(tag, "Hiveguard") {
            Some(Dreadnought::Hiveguard)
        } else {
            None
        }
    }

    /// Every kind is found again under its own name.
    pub proof fn lemma_label_round_trip(self)
        ensures
            Dreadnought::of_label(self.label()) == Some(self),
    {
        reveal_strlit("Classic");
        reveal_strlit("Twins");
        reveal_strlit("Hiveguard");
        assert(has_shape("Classic"@, 7, 'C', 'l', 'a'));
        assert(has_shape("Twins"@, 5, 'T', 'w', 'i'));
        assert(has_shape("Hiveguard"@, 9, 'H', 'i', 'v'));
    }
}

/// The main task of a stage. The two dreadnought eliminations say which
/// kinds are to be fought, in order.
#[derive(Debug, Clone, Copy, PartialEq, Eq)]
pub enum PrimaryObjective {
    MiningExpedition200,
    MiningExpedition225,
    MiningExpedition250,
    Egg4,
    Egg6,
    OnSiteRefining,
    MiniMules2,
    MiniMules3,
    PointExtraction7,
    PointExtraction10,
    EscortDuty,
    Dreadnought2([Dreadnought; 2]),
    Dreadnought3([Dreadnought; 3]),
    IndustrialSabotage,
}

/// The tag of the elimination of two dreadnoughts.
pub open spec fn two_dreadnoughts_tag() -> Seq<char> {
    "2 Dreadnoughts"@
}

/// The tag of the elimination of three dreadnoughts.
pub open spec fn three_dreadnoughts_tag() -> Seq<char> {
    "3 Dreadnoughts"@
}

impl PrimaryObjective {
    /// Whether the objective carries no dreadnought kinds.
    pub open spec fn is_unit(self) -> bool {
        !(self is Dreadnought2) && !(self is Dreadnought3)
    }

    /// The tag of the objective in a schedule document.
    pub open spec fn tag(self) -> Seq<char> {
        match self {
            PrimaryObjective::MiningExpedition200 => "200 Morkite"@,
            PrimaryObjective::MiningExpedition225 => "225 Morkite"@,
            PrimaryObjective::MiningExpedition250 => "250 Morkite"@,
            PrimaryObjective::Egg4 => "4 Eggs"@,
            PrimaryObjective::Egg6 => "6 Eggs"@,
            PrimaryObjective::OnSiteRefining => "On-Site Refining"@,
            PrimaryObjective::MiniMules2 => "2 Mini-mules"@,
            PrimaryObjective::MiniMules3 => "3 Mini-mules"@,
            PrimaryObjective::PointExtraction7 => "7 Aquarqs"@,
            PrimaryObjective::PointExtraction10 => "10 Aquarqs"@,
            PrimaryObjective::EscortDuty => "Escort Duty"@,
            PrimaryObjective::Dreadnought2(_) => two_dreadnoughts_tag(),
            PrimaryObjective::Dreadnought3(_) => three_dreadnoughts_tag(),
            PrimaryObjective::IndustrialSabotage => "Industrial Sabotage"@,
        }
    }

    /// The objective without dreadnought kinds that a tag names, if it
    /// names one.
    pub open spec fn unit_of_tag(tag: Seq<char>) -> Option<PrimaryObjective> {
        if tag == "200 Morkite"@ {
            Some(PrimaryObjective::MiningExpedition200)
        } else if tag == "225 Morkite"@ {
            Some(PrimaryObjective::MiningExpedition225)
        } else if tag == "250 Morkite"@ {
            Some(PrimaryObjective::MiningExpedition250)
        } else if tag == "4 Eggs"@ {
            Some(PrimaryObjective::Egg4)
        } else if tag == "6 Eggs"@ {
            Some(PrimaryObjective::Egg6)
        } else if tag == "On-Site Refining"@ {
            Some(PrimaryObjective::OnSiteRefining)
        } else if tag == "2 Mini-mules"@ {
            Some(PrimaryObjective::MiniMules2)
        } else if tag == "3 Mini-mules"@ {
            Some(PrimaryObjective::MiniMules3)
        } else if tag == "7 Aquarqs"@ {
            Some(PrimaryObjective::PointExtraction7)
        } else if tag == "10 Aquarqs"@ {
            Some(PrimaryObjective::PointExtraction10)
        } else if tag == "Escort Duty"@ {
            Some(PrimaryObjective::EscortDuty)
        } else if tag == "Industrial Sabotage"@ {
            Some(PrimaryObjective::IndustrialSabotage)
        } else {
            None
        }
    }

    /// The text of the objective in the report: its emoji, then its name,
    /// and for an elimination the kinds in brackets, joined by ` + `.
    pub open spec fn emoji_text(self) -> Seq<char> {
        match self {
            PrimaryObjective::MiningExpedition200 => ":morkite: 200 Morkite"@,
            PrimaryObjective::MiningExpedition225 => ":morkite: 225 Morkite"@,
            PrimaryObjective::MiningExpedition250 => ":morkite: 250 Morkite"@,
            PrimaryObjective::Egg4 => ":gegg: 4 Eggs"@,
            PrimaryObjective::Egg6 => ":gegg: 6 Eggs"@,
            PrimaryObjective::OnSiteRefining => ":refinerywell: On-Site Refinery"@,
            PrimaryObjective::MiniMules2 => ":molly: 2 Mini-mules"@,
            PrimaryObjective::MiniMules3 => ":molly: 3 Mini-mules"@,
            PrimaryObjective::PointExtraction7 => ":aquarq: 7 Aquarqs"@,
            PrimaryObjective::PointExtraction10 => ":aquarq: 10 Aquarqs"@,
            PrimaryObjective::EscortDuty => ":drill: Escort Duty"@,
            PrimaryObjective::Dreadnought2(kinds) => ":dreadegg: 2 Dreadnoughts ("@ + kinds[0].label()
                + " + "@ + kinds[1].label() + ")"@,
            PrimaryObjective::Dreadnought3(kinds) => ":dreadegg: 3 Dreadnoughts ("@ + kinds[0].label()
                + " + "@ + kinds[1].label() + " + "@ + kinds[2].label() + ")"@,
            PrimaryObjective::IndustrialSabotage => ":caretaker: Industrial Sabotage"@,
        }
    }

    /// The tag of the objective in a schedule document.
    pub fn tag_str(&self) -> (r: &'static str)
        ensures
            r@ == self.tag(),
    {
        match self {
            PrimaryObjective::MiningExpedition200 => "200 Morkite",
            PrimaryObjective::MiningExpedition225 => "225 Morkite",
            PrimaryObjective::MiningExpedition250 => "250 Morkite",
            PrimaryObjective::Egg4 => "4 Eggs",
            PrimaryObjective::Egg6 => "6 Eggs",
            PrimaryObjective::OnSiteRefining => "On-Site Refining",
            PrimaryObjective::MiniMules2 => "2 Mini-mules",
            PrimaryObjective::MiniMules3 => "3 Mini-mules",
            PrimaryObjective::PointExtraction7 => "7 Aquarqs",
            PrimaryObjective::PointExtraction10 => "10 Aquarqs",
            PrimaryObjective::EscortDuty => "Escort Duty",
            PrimaryObjective::Dreadnought2(_) => "2 Dreadnoughts",
            PrimaryObjective::Dreadnought3(_) => "3 Dreadnoughts",
            PrimaryObjective::IndustrialSabotage => "Industrial Sabotage",
        }
    }

    /// Looks a tag up among the objectives without dreadnought kinds.
    pub fn unit_from_tag(tag: &str) -> (r: Option<PrimaryObjective>)
        ensures
            r == PrimaryObjective::unit_of_tag(tag@),
    {
        if same_text(tag, "200 Morkite") {
            Some(PrimaryObjective::MiningExpedition200)
        } else if same_text(tag, "225 Morkite") {
            Some(PrimaryObjective::MiningExpedition225)
        } else if same_text(tag, "250 Morkite") {
            Some(PrimaryObjective::MiningExpedition250)
        } else if same_text(tag, "4 Eggs") {
            Some(PrimaryObjective::Egg4)
        } else if same_text(tag, "6 Eggs") {
            Some(PrimaryObjective::Egg6)
        } else if same_text(tag, "On-Site Refining") {
            Some(PrimaryObjective::OnSiteRefining)
        } else if same_text(tag, "2 Mini-mules") {
            Some(PrimaryObjective::MiniMules2)
        } else if same_text(tag, "3 Mini-mules") {
            Some(PrimaryObjective::MiniMules3)
        } else if same_text(tag, "7 Aquarqs") {
            Some(PrimaryObjective::PointExtraction7)
        } else if same_text(tag, "10 Aquarqs") {
            Some(PrimaryObjective::PointExtraction10)
        } else if same_text(tag, "Escort Duty") {
            Some(PrimaryObjective::EscortDuty)
        } else if same_text(tag, "Industrial Sabotage") {
            Some(PrimaryObjective::IndustrialSabotage)
        } else {
            None
        }
    }

    /// The text of the objective in the report.
    pub fn emoji_repr(&self) -> (r: String)
        ensures
            r@ == self.emoji_text(),
    {
        match self {
            PrimaryObjective::Dreadnought2(kinds) => {
                let mut r = String::from_str(":dreadegg: 2 Dreadnoughts (");
                r.append(kinds[0].as_str());
                r.append(" + ");
                r.append(kinds[1].as_str());
                r.append(")");
                r
            },
            PrimaryObjective::Dreadnought3(kinds) => {
                let mut r = String::from_str(":dreadegg: 3 Dreadnoughts (");
                r.append(kinds[0].as_str());
                r.append(" + ");
                r.append(kinds[1].as_str());
                r.append(" + ");
                r.append(kinds[2].as_str());
                r.append(")");
                r
            },
            PrimaryObjective::MiningExpedition200 => String::from_str(":morkite: 200 Morkite"),
            PrimaryObjective::MiningExpedition225 => String::from_str(":morkite: 225 Morkite"),
            PrimaryObjective::MiningExpedition250 => String::from_str(":morkite: 250 Morkite"),
            PrimaryObjective::Egg4 => String::from_str(":gegg: 4 Eggs"),
            PrimaryObjective::Egg6 => String::from_str(":gegg: 6 Eggs"),
            PrimaryObjective::OnSiteRefining => String::from_str(":refinerywell: On-Site Refinery"),
            PrimaryObjective::MiniMules2 => String::from_str(":molly: 2 Mini-mules"),
            PrimaryObjective::MiniMules3 => String::from_str(":molly: 3 Mini-mules"),
            PrimaryObjective::PointExtraction7 => String::from_str(":aquarq: 7 Aquarqs"),
            PrimaryObjective::PointExtraction10 => String::from_str(":aquarq: 10 Aquarqs"),
            PrimaryObjective::EscortDuty => String::from_str(":drill: Escort Duty"),
            PrimaryObjective::IndustrialSabotage => String::from_str(":caretaker: Industrial Sabotage"),
        }
    }

    /// An objective without dreadnought kinds is found again under its own
    /// tag, and its tag is not that of an elimination.
    pub proof fn lemma_tag_round_trip(self)
        requires
            self.is_unit(),
        ensures
            PrimaryObjective::unit_of_tag(self.tag()) == Some(self),
            self.tag() != two_dreadnoughts_tag(),
            self.tag() != three_dreadnoughts_tag(),
    {
        reveal_strlit("200 Morkite");
        reveal_strlit("225 Morkite");
        reveal_strlit("250 Morkite");
        reveal_strlit("4 Eggs");
        reveal_strlit("6 Eggs");
        reveal_strlit("On-Site Refining");
        reveal_strlit("2 Mini-mules");
        reveal_strlit("3 Mini-mules");
        reveal_strlit("7 Aquarqs");
        reveal_strlit("10 Aquarqs");
        reveal_strlit("Escort Duty");
        reveal_strlit("Industrial Sabotage");
        reveal_strlit("2 Dreadnoughts");
        reveal_strlit("3 Dreadnoughts");
        assert(has_shape("200 Morkite"@, 11, '2', '0', '0'));
        assert(has_shape("225 Morkite"@, 11, '2', '2', '5'));
        assert(has_shape("250 Morkite"@, 11, '2', '5', '0'));
        assert(has_shape("4 Eggs"@, 6, '4', ' ', 'E'));
        assert(has_shape("6 Eggs"@, 6, '6', ' ', 'E'));
        assert(has_shape("On-Site Refining"@, 16, 'O', 'n', '-'));
        assert(has_shape("2 Mini-mules"@, 12, '2', ' ', 'M'));
        assert(has_shape("3 Mini-mules"@, 12, '3', ' ', 'M'));
        assert(has_shape("7 Aquarqs"@, 9, '7', ' ', 'A'));
        assert(has_shape("10 Aquarqs"@, 10, '1', '0', ' '));
        assert(has_shape("Escort Duty"@, 11, 'E', 's', 'c'));
        assert(has_shape("Industrial Sabotage"@, 19, 'I', 'n', 'd'));
        assert(has_shape("2 Dreadnoughts"@, 14, '2', ' ', 'D'));
        assert(has_shape("3 Dreadnoughts"@, 14, '3', ' ', 'D'));
    }

    /// The tags of the two eliminations differ and name no other objective.
    pub proof fn lemma_elimination_tags()
        ensures
            PrimaryObjective::unit_of_tag(two_dreadnoughts_tag()) is None,
            PrimaryObjective::unit_of_tag(three_dreadnoughts_tag()) is None,
            two_dreadnoughts_tag() != three_dreadnoughts_tag(),
    {
        reveal_strlit("200 Morkite");
        reveal_strlit("225 Morkite");
        reveal_strlit("250 Morkite");
        reveal_strlit("4 Eggs");
        reveal_strlit("6 Eggs");
        reveal_strlit("On-Site Refining");
        reveal_strlit("2 Mini-mules");
        reveal_strlit("3 Mini-mules");
        reveal_strlit("7 Aquarqs");
        reveal_strlit("10 Aquarqs");
        reveal_strlit("Escort Duty");
        reveal_strlit("Industrial Sabotage");
        reveal_strlit("2 Dreadnoughts");
        reveal_strlit("3 Dreadnoughts");
        assert(has_shape("200 Morkite"@, 11, '2', '0', '0'));
        assert(has_shape("225 Morkite"@, 11, '2', '2', '5'));
        assert(has_shape("250 Morkite"@, 11, '2', '5', '0'));
        assert(has_shape("4 Eggs"@, 6, '4', ' ', 'E'));
        assert(has_shape("6 Eggs"@, 6, '6', ' ', 'E'));
        assert(has_shape("On-Site Refining"@, 16, 'O', 'n', '-'));
        assert(has_shape("2 Mini-mules"@, 12, '2', ' ', 'M'));
        assert(has_shape("3 Mini-mules"@, 12, '3', ' ', 'M'));
        assert(has_shape("7 Aquarqs"@, 9, '7', ' ', 'A'));
        assert(has_shape("10 Aquarqs"@, 10, '1', '0', ' '));
        assert(has_shape("Escort Duty"@, 11, 'E', 's', 'c'));
        assert(has_shape("Industrial Sabotage"@, 19, 'I', 'n', 'd'));
        assert(has_shape("2 Dreadnoughts"@, 14, '2', ' ', 'D'));
        assert(has_shape("3 Dreadnoughts"@, 14, '3', ' ', 'D'));
    }
}

/// The bonus task of a stage.
#[derive(Debug, Clone, Copy, PartialEq, Eq)]
pub enum SecondaryObjective {
    Mining150,
    Egg,
    MiniMules,
    Dreadnought(Dreadnought),
    BlackBox,
}

/// The tag of the bonus task that asks for one dreadnought.
pub open spec fn dreadnought_tag() -> Seq<char> {
    "Dreadnought"@
}

impl SecondaryObjective {
    /// Whether the objective carries no dreadnought kind.
    pub open spec fn is_unit(self) -> bool {
        !(self is Dreadnought)
    }

    /// The tag of the objective in a schedule document.
    pub open spec fn tag(self) -> Seq<char> {
        match self {
            SecondaryObjective::Mining150 => "150 Morkite"@,
            SecondaryObjective::Egg => "2 Eggs"@,
            SecondaryObjective::MiniMules => "2 Mini-mules"@,
            SecondaryObjective::Dreadnought(_) => dreadnought_tag(),
            SecondaryObjective::BlackBox => "Black Box"@,
        }
    }

    /// The objective without a dreadnought kind that a tag names, if it
    /// names one.
    pub open spec fn unit_of_tag(tag: Seq<char>) -> Option<SecondaryObjective> {
        if tag == "150 Morkite"@ {
            Some(SecondaryObjective::Mining150)
        } else if tag == "2 Eggs"@ {
            Some(SecondaryObjective::Egg)
        } else if tag == "2 Mini-mules"@ {
            Some(SecondaryObjective::MiniMules)
        } else if tag == "Black Box"@ {
            Some(SecondaryObjective::BlackBox)
        } else {
            None
        }
    }

    /// The text of the objective in the report: its emoji, then its name,
    /// which for a dreadnought is the name of its kind.
    pub open spec fn emoji_text(self) -> Seq<char> {
        match self {
            SecondaryObjective::Mining150 => ":morkite: 150 Morkite"@,
            SecondaryObjective::Egg => ":gegg: 2 Eggs"@,
            SecondaryObjective::MiniMules => ":molly: 2 Mini-mules"@,
            SecondaryObjective::Dreadnought(kind) => ":dreadegg: "@ + kind.label(),
            SecondaryObjective::BlackBox => ":uplink: Black Box"@,
        }
    }

    /// The tag of the objective in a schedule document.
    pub fn tag_str(&self) -> (r: &'static str)
        ensures
            r@ == self.tag(),
    {
        match self {
            SecondaryObjective::Mining150 => "150 Morkite",
            SecondaryObjective::Egg => "2 Eggs",
            SecondaryObjective::MiniMules => "2 Mini-mules",
            SecondaryObjective::Dreadnought(_) => "Dreadnought",
            SecondaryObjective::BlackBox => "Black Box",
        }
    }

    /// Looks a tag up among the objectives without a dreadnought kind.
    pub fn unit_from_tag(tag: &str) -> (r: Option<SecondaryObjective>)
        ensures
            r == SecondaryObjective::unit_of_tag(tag@),
    {
        if same_text(tag, "150 Morkite") {
            Some(SecondaryObjective::Mining150)
        } else if same_text(tag, "2 Eggs") {
            Some(SecondaryObjective::Egg)
        } else if same_text(tag, "2 Mini-mules") {
            Some(SecondaryObjective::MiniMules)
        } else if same_text(tag, "Black Box") {
            Some(SecondaryObjective::BlackBox)
        } else {
            None
        }
    }

    /// The text of the objective in the report.
    pub fn emoji_repr(&self) -> (r: &'static str)
        ensures
            r@ == self.emoji_text(),
    {
        proof {
            reveal_strlit(":dreadegg: ");
            reveal_strlit("Classic");
            reveal_strlit("Twins");
            reveal_strlit("Hiveguard");
            reveal_strlit(":dreadegg: Classic");
            reveal_strlit(":dreadegg: Twins");
            reveal_strlit(":dreadegg: Hiveguard");
        }
        let r = match self {
            SecondaryObjective::Mining150 => ":morkite: 150 Morkite",
            SecondaryObjective::Egg => ":gegg: 2 Eggs",
            SecondaryObjective::MiniMules => ":molly: 2 Mini-mules",
            SecondaryObjective::Dreadnought(dread) => match dread {
                Dreadnought::Classic => ":dreadegg: Classic",
                Dreadnought::Twins => ":dreadegg: Twins",
                Dreadnought::Hiveguard => ":dreadegg: Hiveguard",
            },
            SecondaryObjective::BlackBox => ":uplink: Black Box",
        };
        assert(r@ =~= self.emoji_text());
        r
    }

    /// An objective without a dreadnought kind is found again under its own
    /// tag, and its tag is not that of the dreadnought.
    pub proof fn lemma_tag_round_trip(self)
        requires
            self.is_unit(),
        ensures
            SecondaryObjective::unit_of_tag(self.tag()) == Some(self),
            self.tag() != dreadnought_tag(),
    {
        reveal_strlit("150 Morkite");
        reveal_strlit("2 Eggs");
        reveal_strlit("2 Mini-mules");
        reveal_strlit("Black Box");
        reveal_strlit("Dreadnought");
        assert(has_shape("150 Morkite"@, 11, '1', '5', '0'));
        assert(has_shape("2 Eggs"@, 6, '2', ' ', 'E'));
        assert(has_shape("2 Mini-mules"@, 12, '2', ' ', 'M'));
        assert(has_shape("Black Box"@, 9, 'B', 'l', 'a'));
        assert(has_shape("Dreadnought"@, 11, 'D', 'r', 'e'));
    }

    /// The tag of the dreadnought names no other objective.
    pub proof fn lemma_dreadnought_tag()
        ensures
            SecondaryObjective::unit_of_tag(dreadnought_tag()) is None,
    {
        reveal_strlit("150 Morkite");
        reveal_strlit("2 Eggs");
        reveal_strlit("2 Mini-mules");
        reveal_strlit("Black Box");
        reveal_strlit("Dreadnought");
        assert(has_shape("150 Morkite"@, 11, '1', '5', '0'));
        assert(has_shape("2 Eggs"@, 6, '2', ' ', 'E'));
        assert(has_shape("2 Mini-mules"@, 12, '2', ' ', 'M'));
        assert(has_shape("Black Box"@, 9, 'B', 'l', 'a'));
        assert(has_shape("Dreadnought"@, 11, 'D', 'r', 'e'));
    }
}

/// The region that hosts a schedule.
#[derive(Debug, Clone, Copy, PartialEq, Eq)]
pub enum Biome {
    SandblastedCorridors,
    CrystallineCaverns,
    SaltPits,
    FungusBogs,
    RadioactiveExclusionZone,
    DenseBiozone,
    GlacialStrata,
    HollowBough,
    AzureWeald,
    MagmaCore,
}

impl Biome {
    /// The name of the region as the game shows it, which is also its tag
    /// in a schedule document.
    pub open spec fn label(self) -> Seq<char> {
        match self {
            Biome::SandblastedCorridors => "Sandblasted Corridors"@,
            Biome::CrystallineCaverns => "Crystalline Caverns"@,
            Biome::SaltPits => "Salt Pits"@,
            Biome::FungusBogs => "Fungus Bogs"@,
            Biome::RadioactiveExclusionZone => "Radioactive Exclusion Zone"@,
            Biome::DenseBiozone => "Dense Biozone"@,
            Biome::GlacialStrata => "Glacial Strata"@,
            Biome::HollowBough => "Hollow Bough"@,
            Biome::AzureWeald => "Azure Weald"@,
            Biome::MagmaCore => "Magma Core"@,
        }
    }

    /// The region that a tag names, if it names one.
    pub open spec fn of_label(tag: Seq<char>) -> Option<Biome> {
        if tag == "Sandblasted Corridors"@ {
            Some(Biome::SandblastedCorridors)
        } else if tag == "Crystalline Caverns"@ {
            Some(Biome::CrystallineCaverns)
        } else if tag == "Salt Pits"@ {
            Some(Biome::SaltPits)
        } else if tag == "Fungus Bogs"@ {
            Some(Biome::FungusBogs)
        } else if tag == "Radioactive Exclusion Zone"@ {
            Some(Biome::RadioactiveExclusionZone)
        } else if tag == "Dense Biozone"@ {
            Some(Biome::DenseBiozone)
        } else if tag == "Glacial Strata"@ {
            Some(Biome::GlacialStrata)
        } else if tag == "Hollow Bough"@ {
            Some(Biome::HollowBough)
        } else if tag == "Azure Weald"@ {
            Some(Biome::AzureWeald)
        } else if tag == "Magma Core"@ {
            Some(Biome::MagmaCore)
        } else {
            None
        }
    }

    /// The name of the region as the game shows it.
    pub fn as_str(&self) -> (r: &'static str)
        ensures
            r@ == self.label(),
    {
        match self {
            Biome::SandblastedCorridors => "Sandblasted Corridors",
            Biome::CrystallineCaverns => "Crystalline Caverns",
            Biome::SaltPits => "Salt Pits",
            Biome::FungusBogs => "Fungus Bogs",
            Biome::RadioactiveExclusionZone => "Radioactive Exclusion Zone",
            Biome::DenseBiozone => "Dense Biozone",
            Biome::GlacialStrata => "Glacial Strata",
            Biome::HollowBough => "Hollow Bough",
            Biome::AzureWeald => "Azure Weald",
            Biome::MagmaCore => "Magma Core",
        }
    }

    /// Looks a tag up among the names of the regions.
    pub fn from_label(tag: &str) -> (r: Option<Biome>)
        ensures
            r == Biome::of_label(tag@),
    {
        if same_text(tag, "Sandblasted Corridors") {
            Some(Biome::SandblastedCorridors)
        } else if same_text(tag, "Crystalline Caverns") {
            Some(Biome::CrystallineCaverns)
        } else if same_text(tag, "Salt Pits") {
            Some(Biome::SaltPits)
        } else if same_text(tag, "Fungus Bogs") {
            Some(Biome::FungusBogs)
        } else if same_text(tag, "Radioactive Exclusion Zone") {
            Some(Biome::RadioactiveExclusionZone)
        } else if same_text(tag, "Dense Biozone") {
            Some(Biome::DenseBiozone)
        } else if same_text(tag, "Glacial Strata") {
            Some(Biome::GlacialStrata)
        } else if same_text(tag, "Hollow Bough") {
            Some(Biome::HollowBough)
        } else if same_text(tag, "Azure Weald") {
            Some(Biome::AzureWeald)
        } else if same_text(tag, "Magma Core") {
            Some(Biome::MagmaCore)
        } else {
            None
        }
    }

    /// Every region is found again under its own name.
    pub proof fn lemma_label_round_trip(self)
        ensures
            Biome::of_label(self.label()) == Some(self),
    {
        reveal_strlit("Sandblasted Corridors");
        reveal_strlit("Crystalline Caverns");
        reveal_strlit("Salt Pits");
        reveal_strlit("Fungus Bogs");
        reveal_strlit("Radioactive Exclusion Zone");
        reveal_strlit("Dense Biozone");
        reveal_strlit("Glacial Strata");
        reveal_strlit("Hollow Bough");
        reveal_strlit("Azure Weald");
        reveal_strlit("Magma Core");
        assert(has_shape("Sandblasted Corridors"@, 21, 'S', 'a', 'n'));
        assert(has_shape("Crystalline Caverns"@, 19, 'C', 'r', 'y'));
        assert(has_shape("Salt Pits"@, 9, 'S', 'a', 'l'));
        assert(has_shape("Fungus Bogs"@, 11, 'F', 'u', 'n'));
        assert(has_shape("Radioactive Exclusion Zone"@, 26, 'R', 'a', 'd'));
        assert(has_shape("Dense Biozone"@, 13, 'D', 'e', 'n'));
        assert(has_shape("Glacial Strata"@, 14, 'G', 'l', 'a'));
        assert(has_shape("Hollow Bough"@, 12, 'H', 'o', 'l'));
        assert(has_shape("Azure Weald"@, 11, 'A', 'z', 'u'));
        assert(has_shape("Magma Core"@, 10, 'M', 'a', 'g'));
    }
}

/// A modifier of a stage that helps the team.
#[derive(Debug, Clone, Copy, PartialEq, Eq)]
pub enum Anomaly {
    CriticalWeakness,
    LowGravity,
    RichAtmosphere,
    VolatileGuts,
}

impl Anomaly {
    /// The name of the anomaly as the game shows it, which is also its tag
    /// in a schedule document.
    pub open spec fn label(self) -> Seq<char> {
        match self {
            Anomaly::CriticalWeakness => "Critical Weakness"@,
            Anomaly::LowGravity => "Low Gravity"@,
            Anomaly::RichAtmosphere => "Rich Atmosphere"@,
            Anomaly::VolatileGuts => "Volatile Guts"@,
        }
    }

    /// The anomaly that a tag names, if it names one.
    pub open spec fn of_label(tag: Seq<char>) -> Option<Anomaly> {
        if tag == "Critical Weakness"@ {
            Some(Anomaly::CriticalWeakness)
        } else if tag == "Low Gravity"@ {
            Some(Anomaly::LowGravity)
        } else if tag == "Rich Atmosphere"@ {
            Some(Anomaly::RichAtmosphere)
        } else if tag == "Volatile Guts"@ {
            Some(Anomaly::VolatileGuts)
        } else {
            None
        }
    }

    /// The name of the anomaly as the game shows it.
    pub fn as_str(&self) -> (r: &'static str)
        ensures
            r@ == self.label(),
    {
        match self {
            Anomaly::CriticalWeakness => "Critical Weakness",
            Anomaly::LowGravity => "Low Gravity",
            Anomaly::RichAtmosphere => "Rich Atmosphere",
            Anomaly::VolatileGuts => "Volatile Guts",
        }
    }

    /// Looks a tag up among the names of the anomalys.
    pub fn from_label(tag: &str) -> (r: Option<Anomaly>)
        ensures
            r == Anomaly::of_label(tag@),
    {
        if same_text(tag, "Critical Weakness") {
            Some(Anomaly::CriticalWeakness)
        } else if same_text(tag, "Low Gravity") {
            Some(Anomaly::LowGravity)
        } else if same_text(tag, "Rich Atmosphere") {
            Some(Anomaly::RichAtmosphere)
        } else if same_text(tag, "Volatile Guts") {
            Some(Anomaly::VolatileGuts)
        } else {
            None
        }
    }

    /// Every anomaly is found again under its own name.
    pub proof fn lemma_label_round_trip(self)
        ensures
            Anomaly::of_label(self.label()) == Some(self),
    {
        reveal_strlit("Critical Weakness");
        reveal_strlit("Low Gravity");
        reveal_strlit("Rich Atmosphere");
        reveal_strlit("Volatile Guts");
        assert(has_shape("Critical Weakness"@, 17, 'C', 'r', 'i'));
        assert(has_shape("Low Gravity"@, 11, 'L', 'o', 'w'));
        assert(has_shape("Rich Atmosphere"@, 15, 'R', 'i', 'c'));
        assert(has_shape("Volatile Guts"@, 13, 'V', 'o', 'l'));
    }

    /// The label with its emoji before it.
    pub open spec fn emoji_text(self) -> Seq<char> {
        ":rocknstone: "@ + self.label()
    }

    /// The name with its emoji before it, as the report shows it.
    pub fn emoji_repr(&self) -> (r: String)
        ensures
            r@ == self.emoji_text(),
    {
        let mut r = String::from_str(":rocknstone: ");
        r.append(self.as_str());
        r
    }
}

/// A modifier of a stage that works against the team.
#[derive(Debug, Clone, Copy, PartialEq, Eq)]
pub enum Warning {
    CaveLeechCluster,
    EliteThreat,
    ExploderInfestation,
    HauntedCave,
    LethalEnemies,
    LowOxygen,
    MacteraPlague,
    Parasites,
    RegenerativeBugs,
    RivalPresence,
    ShieldDisruption,
    Swarmageddon,
}

impl Warning {
    /// The name of the warning as the game shows it, which is also its tag
    /// in a schedule document.
    pub open spec fn label(self) -> Seq<char> {
        match self {
            Warning::CaveLeechCluster => "Cave Leech Cluster"@,
            Warning::EliteThreat => "Elite Threat"@,
            Warning::ExploderInfestation => "Exploder Infestation"@,
            Warning::HauntedCave => "Haunted Cave"@,
            Warning::LethalEnemies => "Lethal Enemies"@,
            Warning::LowOxygen => "Low Oxygen"@,
            Warning::MacteraPlague => "Mactera Plague"@,
            Warning::Parasites => "Parasites"@,
            Warning::RegenerativeBugs => "Regenerative Bugs"@,
            Warning::RivalPresence => "Rival Presence"@,
            Warning::ShieldDisruption => "Shield Disruption"@,
            Warning::Swarmageddon => "Swarmageddon"@,
        }
    }

    /// The warning that a tag names, if it names one.
    pub open spec fn of_label(tag: Seq<char>) -> Option<Warning> {
        if tag == "Cave Leech Cluster"@ {
            Some(Warning::CaveLeechCluster)
        } else if tag == "Elite Threat"@ {
            Some(Warning::EliteThreat)
        } else if tag == "Exploder Infestation"@ {
            Some(Warning::ExploderInfestation)
        } else if tag == "Haunted Cave"@ {
            Some(Warning::HauntedCave)
        } else if tag == "Lethal Enemies"@ {
            Some(Warning::LethalEnemies)
        } else if tag == "Low Oxygen"@ {
            Some(Warning::LowOxygen)
        } else if tag == "Mactera Plague"@ {
            Some(Warning::MacteraPlague)
        } else if tag == "Parasites"@ {
            Some(Warning::Parasites)
        } else if tag == "Regenerative Bugs"@ {
            Some(Warning::RegenerativeBugs)
        } else if tag == "Rival Presence"@ {
            Some(Warning::RivalPresence)
        } else if tag == "Shield Disruption"@ {
            Some(Warning::ShieldDisruption)
        } else if tag == "Swarmageddon"@ {
            Some(Warning::Swarmageddon)
        } else {
            None
        }
    }

    /// The name of the warning as the game shows it.
    pub fn as_str(&self) -> (r: &'static str)
        ensures
            r@ == self.label(),
    {
        match self {
            Warning::CaveLeechCluster => "Cave Leech Cluster",
            Warning::EliteThreat => "Elite Threat",
            Warning::ExploderInfestation => "Exploder Infestation",
            Warning::HauntedCave => "Haunted Cave",
            Warning::LethalEnemies => "Lethal Enemies",
            Warning::LowOxygen => "Low Oxygen",
            Warning::MacteraPlague => "Mactera Plague",
            Warning::Parasites => "Parasites",
            Warning::RegenerativeBugs => "Regenerative Bugs",
            Warning::RivalPresence => "Rival Presence",
            Warning::ShieldDisruption => "Shield Disruption",
            Warning::Swarmageddon => "Swarmageddon",
        }
    }

    /// Looks a tag up among the names of the warnings.
    pub fn from_label(tag: &str) -> (r: Option<Warning>)
        ensures
            r == Warning::of_label(tag@),
    {
        if same_text(tag, "Cave Leech Cluster") {
            Some(Warning::CaveLeechCluster)
        } else if same_text(tag, "Elite Threat") {
            Some(Warning::EliteThreat)
        } else if same_text(tag, "Exploder Infestation") {
            Some(Warning::ExploderInfestation)
        } else if same_text(tag, "Haunted Cave") {
            Some(Warning::HauntedCave)
        } else if same_text(tag, "Lethal Enemies") {
            Some(Warning::LethalEnemies)
        } else if same_text(tag, "Low Oxygen") {
            Some(Warning::LowOxygen)
        } else if same_text(tag, "Mactera Plague") {
            Some(Warning::MacteraPlague)
        } else if same_text(tag, "Parasites") {
            Some(Warning::Parasites)
        } else if same_text(tag, "Regenerative Bugs") {
            Some(Warning::RegenerativeBugs)
        } else if same_text(tag, "Rival Presence") {
            Some(Warning::RivalPresence)
        } else if same_text(tag, "Shield Disruption") {
            Some(Warning::ShieldDisruption)
        } else if same_text(tag, "Swarmageddon") {
            Some(Warning::Swarmageddon)
        } else {
            None
        }
    }

    /// Every warning is found again under its own name.
    pub proof fn lemma_label_round_trip(self)
        ensures
            Warning::of_label(self.label()) == Some(self),
    {
        reveal_strlit("Cave Leech Cluster");
        reveal_strlit("Elite Threat");
        reveal_strlit("Exploder Infestation");
        reveal_strlit("Haunted Cave");
        reveal_strlit("Lethal Enemies");
        reveal_strlit("Low Oxygen");
        reveal_strlit("Mactera Plague");
        reveal_strlit("Parasites");
        reveal_strlit("Regenerative Bugs");
        reveal_strlit("Rival Presence");
        reveal_strlit("Shield Disruption");
        reveal_strlit("Swarmageddon");
        assert(has_shape("Cave Leech Cluster"@, 18, 'C', 'a', 'v'));
        assert(has_shape("Elite Threat"@, 12, 'E', 'l', 'i'));
        assert(has_shape("Exploder Infestation"@, 20, 'E', 'x', 'p'));
        assert(has_shape("Haunted Cave"@, 12, 'H', 'a', 'u'));
        assert(has_shape("Lethal Enemies"@, 14, 'L', 'e', 't'));
        assert(has_shape("Low Oxygen"@, 10, 'L', 'o', 'w'));
        assert(has_shape("Mactera Plague"@, 14, 'M', 'a', 'c'));
        assert(has_shape("Parasites"@, 9, 'P', 'a', 'r'));
        assert(has_shape("Regenerative Bugs"@, 17, 'R', 'e', 'g'));
        assert(has_shape("Rival Presence"@, 14, 'R', 'i', 'v'));
        assert(has_shape("Shield Disruption"@, 17, 'S', 'h', 'i'));
        assert(has_shape("Swarmageddon"@, 12, 'S', 'w', 'a'));
    }

    /// The label with its emoji before it.
    pub open spec fn emoji_text(self) -> Seq<char> {
        ":tothebone: "@ + self.label()
    }

    /// The name with its emoji before it, as the report shows it.
    pub fn emoji_repr(&self) -> (r: String)
        ensures
            r@ == self.emoji_text(),
    {
        let mut r = String::from_str(":tothebone: ");
        r.append(self.as_str());
        r
    }
}

/// One of the three stages of a schedule.
#[derive(Debug, Clone, Copy, PartialEq, Eq)]
pub struct DeepDiveStage {
    pub primary_objective: PrimaryObjective,
    pub secondary_objective: SecondaryObjective,
    pub anomaly: Option<Anomaly>,
    pub warning: Option<Warning>,
}

/// A schedule: where it takes place, under which code name, and its three
/// stages in order.
#[derive(Debug, Clone, PartialEq, Eq)]
pub struct DeepDive {
    pub codename: String,
    pub biome: Biome,
    pub seed: u64,
    pub stages: [DeepDiveStage; 3],
}

/// A schedule with its code name as a sequence of characters.
pub struct DeepDiveView {
    pub codename: Seq<char>,
    pub biome: Biome,
    pub seed: u64,
    pub stages: [DeepDiveStage; 3],
}

impl View for DeepDive {
    type V = DeepDiveView;

    open spec fn view(&self) -> DeepDiveView {
        DeepDiveView {
            codename: self.codename@,
            biome: self.biome,
            seed: self.seed,
            stages: self.stages,
        }
    }
}

/// The week that a pair of schedules is valid for.
#[derive(Debug, Clone, Copy, PartialEq, Eq)]
pub struct DateRange {
    pub start: CivilDateTime,
    pub end: CivilDateTime,
}

impl DateRange {
    /// Both bounds are times of days that exist. That the week starts
    /// before it ends is not asked.
    pub open spec fn wf(self) -> bool {
        self.start.wf() && self.end.wf()
    }

    /// The same week with both bounds at the hour of the weekly reset.
    pub open spec fn at_reset(self) -> DateRange {
        DateRange { start: self.start.at_reset(), end: self.end.at_reset() }
    }
}

/// A week with its regular and its elite schedule.
#[derive(Debug, Clone, PartialEq, Eq)]
pub struct DeepDivesInfo {
    pub date_range: DateRange,
    pub deep_dive: DeepDive,
    pub elite_deep_dive: DeepDive,
}

/// A week with the code names of its schedules as sequences of characters.
pub struct DeepDivesInfoView {
    pub date_range: DateRange,
    pub deep_dive: DeepDiveView,
    pub elite_deep_dive: DeepDiveView,
}

impl View for DeepDivesInfo {
    type V = DeepDivesInfoView;

    open spec fn view(&self) -> DeepDivesInfoView {
        DeepDivesInfoView {
            date_range: self.date_range,
            deep_dive: self.deep_dive@,
            elite_deep_dive: self.elite_deep_dive@,
        }
    }
}

impl DeepDivesInfo {
    /// The week is well formed; the schedules always are.
    pub open spec fn wf(&self) -> bool {
        self.date_range.wf()
    }

    /// Tests whether both bounds of the week are times of days that exist.
    pub fn is_well_formed(&self) -> (r: bool)
        ensures
            r == self.wf(),
    {
        self.date_range.start.is_well_formed() && self.date_range.end.is_well_formed()
    }
}

} // verus!

//! The plant catalog: plant definitions, the season and crop-ratio
//! enumerations, token parsing, and the ratio-derived arithmetic.

use vstd::prelude::*;
use vstd::string::StrSliceExecFns;

verus! {

broadcast use vstd::string::group_string_axioms;

/// Per-season availability flags of a plant, fixed at definition time.
#[derive(Debug, PartialEq, Eq, Structural, Clone, Copy)]
pub struct Season {
    pub autumn: bool,
    pub winter: bool,
    pub spring: bool,
    pub summer: bool,
}

/// One immutable catalog entry. A plant's identity is its `name`; the
/// `color` field is an opaque 256-color terminal code, meaningful only to
/// a rendering layer.
#[derive(Debug, PartialEq, Eq, Clone, Copy)]
pub struct Plant {
    pub name: &'static str,
    pub abbrev: &'static str,
    pub seasons: Season,
    pub formula: i8,
    pub compost: i8,
    pub manure: i8,
    pub color: u8,
}

impl DeepView for Plant {
    type V = Plant;

    open spec fn deep_view(&self) -> Plant {
        *self
    }
}

/// The four seasons of the game year.
#[derive(Debug, PartialEq, Eq, Structural, Clone, Copy)]
pub enum Seasons {
    Autumn,
    Winter,
    Spring,
    Summer,
}

/// The four supported crop ratios: the numeric pattern of plant counts per
/// combination slot (`2:1` means two plant types, the first at double weight).
#[derive(Debug, PartialEq, Eq, Structural, Clone, Copy)]
pub enum CropRatios {
    OneOneOne,
    OneOne,
    TwoOne,
    TwoOneOne,
}

/// A rectangular farm plot, in grid cells.
#[derive(Debug, PartialEq, Eq, Structural, Clone, Copy)]
pub struct FarmSize {
    pub width: u16,
    pub height: u16,
}

/// A token that matched neither vocabulary; carries the offending token.
#[derive(Debug, PartialEq, Eq)]
pub enum ParseError {
    UnknownSeasonToken(String),
    UnknownRatioToken(String),
}

impl ParseError {
    /// The offending token that failed to parse.
    pub fn token(&self) -> (r: &str)
        ensures
            match self {
                ParseError::UnknownSeasonToken(t) => r@ == t@,
                ParseError::UnknownRatioToken(t) => r@ == t@,
            },
    {
        match self {
            ParseError::UnknownSeasonToken(t) => t.as_str(),
            ParseError::UnknownRatioToken(t) => t.as_str(),
        }
    }
}

/// Character-for-character string equality, decided executably.
fn str_eq(a: &str, b: &str) -> (r: bool)
    ensures
        r == (a@ == b@),
{
    let alen = a.unicode_len();
    let blen = b.unicode_len();
    if alen != blen {
        return false;
    }
    let mut i: usize = 0;
    while i < alen
        invariant
            i <= alen,
            alen == a@.len(),
            alen == b@.len(),
            forall|j: int| 0 <= j < i ==> a@[j] == b@[j],
        decreases alen - i,
    {
        if a.get_char(i) != b.get_char(i) {
            return false;
        }
        i = i + 1;
    }
    proof {
        assert(a@ =~= b@);
    }
    true
}

/// The season denoted by a token, or `None` where the token is not one of
/// the four exact season literals.
pub open spec fn spec_parse_season(s: Seq<char>) -> Option<Seasons> {
    if s == "Autumn"@ {
        Some(Seasons::Autumn)
    } else if s == "Winter"@ {
        Some(Seasons::Winter)
    } else if s == "Spring"@ {
        Some(Seasons::Spring)
    } else if s == "Summer"@ {
        Some(Seasons::Summer)
    } else {
        None
    }
}

/// Parses a season token by exact, case-sensitive match against
/// `{"Autumn", "Winter", "Spring", "Summer"}`; no trimming, no fuzzy match.
pub fn parse_season(s: &str) -> (r: Result<Seasons, ParseError>)
    ensures
        match spec_parse_season(s@) {
            Some(v) => r == Ok::<Seasons, ParseError>(v),
            None => r matches Err(ParseError::UnknownSeasonToken(t)) && t@ == s@,
        },
{
    if str_eq(s, "Autumn") {
        Ok(Seasons::Autumn)
    } else if str_eq(s, "Winter") {
        Ok(Seasons::Winter)
    } else if str_eq(s, "Spring") {
        Ok(Seasons::Spring)
    } else if str_eq(s, "Summer") {
        Ok(Seasons::Summer)
    } else {
        Err(ParseError::UnknownSeasonToken(s.to_owned()))
    }
}

/// The crop ratio denoted by a token, or `None` where the token is not one
/// of the four exact ratio literals.
pub open spec fn spec_parse_crop_ratio(s: Seq<char>) -> Option<CropRatios> {
    if s == "1:1:1"@ {
        Some(CropRatios::OneOneOne)
    } else if s == "1:1"@ {
        Some(CropRatios::OneOne)
    } else if s == "2:1"@ {
        Some(CropRatios::TwoOne)
    } else if s == "2:1:1"@ {
        Some(CropRatios::TwoOneOne)
    } else {
        None
    }
}

/// Parses a ratio token by exact match against
/// `{"1:1:1", "1:1", "2:1", "2:1:1"}`.
pub fn parse_crop_ratio(s: &str) -> (r: Result<CropRatios, ParseError>)
    ensures
        match spec_parse_crop_ratio(s@) {
            Some(v) => r == Ok::<CropRatios, ParseError>(v),
            None => r matches Err(ParseError::UnknownRatioToken(t)) && t@ == s@,
        },
{
    if str_eq(s, "1:1:1") {
        Ok(CropRatios::OneOneOne)
    } else if str_eq(s, "1:1") {
        Ok(CropRatios::OneOne)
    } else if str_eq(s, "2:1") {
        Ok(CropRatios::TwoOne)
    } else if str_eq(s, "2:1:1") {
        Ok(CropRatios::TwoOneOne)
    } else {
        Err(ParseError::UnknownRatioToken(s.to_owned()))
    }
}

impl CropRatios {
    /// The fixed minimum seed count per crop type for this ratio.
    pub open spec fn spec_min_seeds_per_crop(self) -> u32 {
        match self {
            CropRatios::OneOne => 4u32,
            CropRatios::OneOneOne => 12u32,
            CropRatios::TwoOne => 6u32,
            CropRatios::TwoOneOne => 8u32,
        }
    }

    /// Minimum seeds to buy per crop type when planting at this ratio.
    pub fn get_min_seeds_per_crop(&self) -> (r: u32)
        ensures
            r == self.spec_min_seeds_per_crop(),
    {
        match self {
            CropRatios::OneOne => 4,
            CropRatios::OneOneOne => 12,
            CropRatios::TwoOne => 6,
            CropRatios::TwoOneOne => 8,
        }
    }

    /// Horizontal cell count occupied on `size`: the full width for `1:1`,
    /// half the width (floor) for every other ratio.
    pub open spec fn spec_filled_size_horizontal(self, size: FarmSize) -> u16 {
        match self {
            CropRatios::OneOne => size.width,
            _ => size.width / 2,
        }
    }

    /// Vertical cell count occupied on `size`: the full height for `1:1`
    /// and `2:1`, half the height (floor) for `1:1:1` and `2:1:1`.
    pub open spec fn spec_filled_size_vertical(self, size: FarmSize) -> u16 {
        match self {
            CropRatios::OneOne | CropRatios::TwoOne => size.height,
            CropRatios::OneOneOne | CropRatios::TwoOneOne => size.height / 2,
        }
    }

    /// Total cell count occupied on `size` when planting at this ratio.
    pub fn get_filled_size(&self, size: &FarmSize) -> (r: u16)
        requires
            self.spec_filled_size_horizontal(*size) as int
                * self.spec_filled_size_vertical(*size) as int <= u16::MAX as int,
        ensures
            r == self.spec_filled_size_horizontal(*size)
                * self.spec_filled_size_vertical(*size),
    {
        self.get_filled_size_horizontal(size) * self.get_filled_size_vertical(size)
    }

    /// Horizontal cell count occupied on `size`.
    pub fn get_filled_size_horizontal(&self, size: &FarmSize) -> (r: u16)
        ensures
            r == self.spec_filled_size_horizontal(*size),
    {
        match self {
            CropRatios::OneOne => size.width,
            _ => size.width / 2,
        }
    }

    /// Vertical cell count occupied on `size`.
    pub fn get_filled_size_vertical(&self, size: &FarmSize) -> (r: u16)
        ensures
            r == self.spec_filled_size_vertical(*size),
    {
        match self {
            CropRatios::OneOne | CropRatios::TwoOne => size.height,
            CropRatios::OneOneOne | CropRatios::TwoOneOne => size.height / 2,
        }
    }
}

impl Plant {
    /// Whether this plant is available in `season`, by its fixed flags.
    pub open spec fn spec_in_season(self, season: Seasons) -> bool {
        match season {
            Seasons::Autumn => self.seasons.autumn,
            Seasons::Winter => self.seasons.winter,
            Seasons::Spring => self.seasons.spring,
            Seasons::Summer => self.seasons.summer,
        }
    }

    /// Whether this plant is available in `season`.
    pub fn in_season(&self, season: &Seasons) -> (r: bool)
        ensures
            r == self.spec_in_season(*season),
    {
        match season {
            Seasons::Autumn => self.seasons.autumn,
            Seasons::Winter => self.seasons.winter,
            Seasons::Spring => self.seasons.spring,
            Seasons::Summer => self.seasons.summer,
        }
    }

    /// The Carrot catalog entry, as a spec value.
    pub open spec fn spec_carrot() -> Plant {
        Plant {
            name: "Carrot",
            abbrev: "Ct",
            seasons: Season { autumn: true, winter: true, spring: true, summer: false },
            formula: -4i8,
            compost: 2,
            manure: 2,
            color: 208,
        }
    }

    /// The Carrot catalog entry.
    pub fn carrot() -> (p: Plant)
        ensures
            p == Plant::spec_carrot(),
    {
        Plant {
            name: "Carrot",
            abbrev: "Ct",
            seasons: Season { autumn: true, winter: true, spring: true, summer: false },
            formula: -4i8,
            compost: 2,
            manure: 2,
            color: 208,
        }
    }

    /// The Corn catalog entry, as a spec value.
    pub open spec fn spec_corn() -> Plant {
        Plant {
            name: "Corn",
            abbrev: "Cn",
            seasons: Season { autumn: true, winter: false, spring: true, summer: true },
            formula: 2,
            compost: -4i8,
            manure: 2,
            color: 11,
        }
    }

    /// The Corn catalog entry.
    pub fn corn() -> (p: Plant)
        ensures
            p == Plant::spec_corn(),
    {
        Plant {
            name: "Corn",
            abbrev: "Cn",
            seasons: Season { autumn: true, winter: false, spring: true, summer: true },
            formula: 2,
            compost: -4i8,
            manure: 2,
            color: 11,
        }
    }

    /// The Potato catalog entry, as a spec value.
    pub open spec fn spec_potato() -> Plant {
        Plant {
            name: "Potato",
            abbrev: "Po",
            seasons: Season { autumn: true, winter: true, spring: true, summer: false },
            formula: 2,
            compost: 2,
            manure: -4i8,
            color: 3,
        }
    }

    /// The Potato catalog entry.
    pub fn potato() -> (p: Plant)
        ensures
            p == Plant::spec_potato(),
    {
        Plant {
            name: "Potato",
            abbrev: "Po",
            seasons: Season { autumn: true, winter: true, spring: true, summer: false },
            formula: 2,
            compost: 2,
            manure: -4i8,
            color: 3,
        }
    }

    /// The Toma Root catalog entry, as a spec value.
    pub open spec fn spec_toma_root() -> Plant {
        Plant {
            name: "Toma Root",
            abbrev: "TR",
            seasons: Season { autumn: true, winter: false, spring: true, summer: true },
            formula: -2i8,
            compost: -2i8,
            manure: 4,
            color: 9,
        }
    }

    /// The Toma Root catalog entry.
    pub fn toma_root() -> (p: Plant)
        ensures
            p == Plant::spec_toma_root(),
    {
        Plant {
            name: "Toma Root",
            abbrev: "TR",
            seasons: Season { autumn: true, winter: false, spring: true, summer: true },
            formula: -2i8,
            compost: -2i8,
            manure: 4,
            color: 9,
        }
    }

    /// The Asparagus catalog entry, as a spec value.
    pub open spec fn spec_asparagus() -> Plant {
        Plant {
            name: "Asparagus",
            abbrev: "As",
            seasons: Season { autumn: false, winter: true, spring: true, summer: false },
            formula: 2,
            compost: -4i8,
            manure: 2,
            color: 2,
        }
    }

    /// The Asparagus catalog entry.
    pub fn asparagus() -> (p: Plant)
        ensures
            p == Plant::spec_asparagus(),
    {
        Plant {
            name: "Asparagus",
            abbrev: "As",
            seasons: Season { autumn: false, winter: true, spring: true, summer: false },
            formula: 2,
            compost: -4i8,
            manure: 2,
            color: 2,
        }
    }

    /// The Eggplant catalog entry, as a spec value.
    pub open spec fn spec_eggplant() -> Plant {
        Plant {
            name: "Eggplant",
            abbrev: "Eg",
            seasons: Season { autumn: true, winter: false, spring: true, summer: false },
            formula: 2,
            compost: 2,
            manure: -4i8,
            color: 5,
        }
    }

    /// The Eggplant catalog entry.
    pub fn eggplant() -> (p: Plant)
        ensures
            p == Plant::spec_eggplant(),
    {
        Plant {
            name: "Eggplant",
            abbrev: "Eg",
            seasons: Season { autumn: true, winter: false, spring: true, summer: false },
            formula: 2,
            compost: 2,
            manure: -4i8,
            color: 5,
        }
    }

    /// The Pumpkin catalog entry, as a spec value.
    pub open spec fn spec_pumpkin() -> Plant {
        Plant {
            name: "Pumpkin",
            abbrev: "Pk",
            seasons: Season { autumn: true, winter: true, spring: false, summer: false },
            formula: -4i8,
            compost: 2,
            manure: 2,
            color: 172,
        }
    }

    /// The Pumpkin catalog entry.
    pub fn pumpkin() -> (p: Plant)
        ensures
            p == Plant::spec_pumpkin(),
    {
        Plant {
            name: "Pumpkin",
            abbrev: "Pk",
            seasons: Season { autumn: true, winter: true, spring: false, summer: false },
            formula: -4i8,
            compost: 2,
            manure: 2,
            color: 172,
        }
    }

    /// The Watermelon catalog entry, as a spec value.
    pub open spec fn spec_watermelon() -> Plant {
        Plant {
            name: "Watermelon",
            abbrev: "Wm",
            seasons: Season { autumn: false, winter: false, spring: true, summer: true },
            formula: 4,
            compost: -2i8,
            manure: -2i8,
            color: 10,
        }
    }

    /// The Watermelon catalog entry.
    pub fn watermelon() -> (p: Plant)
        ensures
            p == Plant::spec_watermelon(),
    {
        Plant {
            name: "Watermelon",
            abbrev: "Wm",
            seasons: Season { autumn: false, winter: false, spring: true, summer: true },
            formula: 4,
            compost: -2i8,
            manure: -2i8,
            color: 10,
        }
    }

    /// The Dragon Fruit catalog entry, as a spec value.
    pub open spec fn spec_dragon_fruit() -> Plant {
        Plant {
            name: "Dragon Fruit",
            abbrev: "DF",
            seasons: Season { autumn: false, winter: false, spring: true, summer: true },
            formula: 4,
            compost: 4,
            manure: -8i8,
            color: 13,
        }
    }

    /// The Dragon Fruit catalog entry.
    pub fn dragon_fruit() -> (p: Plant)
        ensures
            p == Plant::spec_dragon_fruit(),
    {
        Plant {
            name: "Dragon Fruit",
            abbrev: "DF",
            seasons: Season { autumn: false, winter: false, spring: true, summer: true },
            formula: 4,
            compost: 4,
            manure: -8i8,
            color: 13,
        }
    }

    /// The Durian catalog entry, as a spec value.
    pub open spec fn spec_durian() -> Plant {
        Plant {
            name: "Durian",
            abbrev: "Du",
            seasons: Season { autumn: false, winter: false, spring: true, summer: false },
            formula: 4,
            compost: -8i8,
            manure: 4,
            color: 8,
        }
    }

    /// The Durian catalog entry.
    pub fn durian() -> (p: Plant)
        ensures
            p == Plant::spec_durian(),
    {
        Plant {
            name: "Durian",
            abbrev: "Du",
            seasons: Season { autumn: false, winter: false, spring: true, summer: false },
            formula: 4,
            compost: -8i8,
            manure: 4,
            color: 8,
        }
    }

    /// The Garlic catalog entry, as a spec value.
    pub open spec fn spec_garlic() -> Plant {
        Plant {
            name: "Garlic",
            abbrev: "Ga",
            seasons: Season { autumn: true, winter: true, spring: true, summer: true },
            formula: 4,
            compost: -8i8,
            manure: 4,
            color: 230,
        }
    }

    /// The Garlic catalog entry.
    pub fn garlic() -> (p: Plant)
        ensures
            p == Plant::spec_garlic(),
    {
        Plant {
            name: "Garlic",
            abbrev: "Ga",
            seasons: Season { autumn: true, winter: true, spring: true, summer: true },
            formula: 4,
            compost: -8i8,
            manure: 4,
            color: 230,
        }
    }

    /// The Onion catalog entry, as a spec value.
    pub open spec fn spec_onion() -> Plant {
        Plant {
            name: "Onion",
            abbrev: "On",
            seasons: Season { autumn: true, winter: false, spring: true, summer: true },
            formula: -8i8,
            compost: 4,
            manure: 4,
            color: 130,
        }
    }

    /// The Onion catalog entry.
    pub fn onion() -> (p: Plant)
        ensures
            p == Plant::spec_onion(),
    {
        Plant {
            name: "Onion",
            abbrev: "On",
            seasons: Season { autumn: true, winter: false, spring: true, summer: true },
            formula: -8i8,
            compost: 4,
            manure: 4,
            color: 130,
        }
    }

    /// The Pepper catalog entry, as a spec value.
    pub open spec fn spec_pepper() -> Plant {
        Plant {
            name: "Pepper",
            abbrev: "Pe",
            seasons: Season { autumn: true, winter: false, spring: false, summer: true },
            formula: 4,
            compost: 4,
            manure: -8i8,
            color: 1,
        }
    }

    /// The Pepper catalog entry.
    pub fn pepper() -> (p: Plant)
        ensures
            p == Plant::spec_pepper(),
    {
        Plant {
            name: "Pepper",
            abbrev: "Pe",
            seasons: Season { autumn: true, winter: false, spring: false, summer: true },
            formula: 4,
            compost: 4,
            manure: -8i8,
            color: 1,
        }
    }

    /// The Pomegranate catalog entry, as a spec value.
    pub open spec fn spec_pomegranate() -> Plant {
        Plant {
            name: "Pomegranate",
            abbrev: "Pg",
            seasons: Season { autumn: false, winter: false, spring: true, summer: true },
            formula: -8i8,
            compost: 4,
            manure: 4,
            color: 162,
        }
    }

    /// The Pomegranate catalog entry.
    pub fn pomegranate() -> (p: Plant)
        ensures
            p == Plant::spec_pomegranate(),
    {
        Plant {
            name: "Pomegranate",
            abbrev: "Pg",
            seasons: Season { autumn: false, winter: false, spring: true, summer: true },
            formula: -8i8,
            compost: 4,
            manure: 4,
            color: 162,
        }
    }
}


/// The full plant catalog, in its fixed order.
pub open spec fn catalog() -> Seq<Plant> {
    seq![
        Plant::spec_carrot(),
        Plant::spec_corn(),
        Plant::spec_potato(),
        Plant::spec_toma_root(),
        Plant::spec_asparagus(),
        Plant::spec_eggplant(),
        Plant::spec_pumpkin(),
        Plant::spec_watermelon(),
        Plant::spec_dragon_fruit(),
        Plant::spec_durian(),
        Plant::spec_garlic(),
        Plant::spec_onion(),
        Plant::spec_pepper(),
        Plant::spec_pomegranate(),
    ]
}

/// The fourteen plants of the catalog, in their fixed order.
pub fn all_plants() -> (v: Vec<Plant>)
    ensures
        v@ == catalog(),
{
    let v: Vec<Plant> = vec![
        Plant::carrot(),
        Plant::corn(),
        Plant::potato(),
        Plant::toma_root(),
        Plant::asparagus(),
        Plant::eggplant(),
        Plant::pumpkin(),
        Plant::watermelon(),
        Plant::dragon_fruit(),
        Plant::durian(),
        Plant::garlic(),
        Plant::onion(),
        Plant::pepper(),
        Plant::pomegranate(),
    ];
    proof {
        assert(v@ =~= catalog());
    }
    v
}

/// Each pair of catalog entries is told apart by name, shown pair by
/// pair from the revealed literals.
#[verifier::rlimit(100)]
proof fn lemma_catalog_names_pairwise_distinct()
    ensures
        forall|i: int, j: int|
            #![trigger catalog()[i], catalog()[j]]
            0 <= i < j < catalog().len() ==> catalog()[i].name@ != catalog()[j].name@,
{
    reveal_strlit("Carrot");
    reveal_strlit("Corn");
    reveal_strlit("Potato");
    reveal_strlit("Toma Root");
    reveal_strlit("Asparagus");
    reveal_strlit("Eggplant");
    reveal_strlit("Pumpkin");
    reveal_strlit("Watermelon");
    reveal_strlit("Dragon Fruit");
    reveal_strlit("Durian");
    reveal_strlit("Garlic");
    reveal_strlit("Onion");
    reveal_strlit("Pepper");
    reveal_strlit("Pomegranate");
    assert(catalog().len() == 14);
    assert(catalog()[0] == Plant::spec_carrot());
    assert(catalog()[1] == Plant::spec_corn());
    assert(catalog()[2] == Plant::spec_potato());
    assert(catalog()[3] == Plant::spec_toma_root());
    assert(catalog()[4] == Plant::spec_asparagus());
    assert(catalog()[5] == Plant::spec_eggplant());
    assert(catalog()[6] == Plant::spec_pumpkin());
    assert(catalog()[7] == Plant::spec_watermelon());
    assert(catalog()[8] == Plant::spec_dragon_fruit());
    assert(catalog()[9] == Plant::spec_durian());
    assert(catalog()[10] == Plant::spec_garlic());
    assert(catalog()[11] == Plant::spec_onion());
    assert(catalog()[12] == Plant::spec_pepper());
    assert(catalog()[13] == Plant::spec_pomegranate());
    assert(catalog()[0].name@ == "Carrot"@);
    assert(catalog()[1].name@ == "Corn"@);
    assert(catalog()[2].name@ == "Potato"@);
    assert(catalog()[3].name@ == "Toma Root"@);
    assert(catalog()[4].name@ == "Asparagus"@);
    assert(catalog()[5].name@ == "Eggplant"@);
    assert(catalog()[6].name@ == "Pumpkin"@);
    assert(catalog()[7].name@ == "Watermelon"@);
    assert(catalog()[8].name@ == "Dragon Fruit"@);
    assert(catalog()[9].name@ == "Durian"@);
    assert(catalog()[10].name@ == "Garlic"@);
    assert(catalog()[11].name@ == "Onion"@);
    assert(catalog()[12].name@ == "Pepper"@);
    assert(catalog()[13].name@ == "Pomegranate"@);
    assert(catalog()[0].name@.len() != catalog()[1].name@.len());
    assert(catalog()[0].name@ != catalog()[1].name@);
    assert(catalog()[0].name@[0] != catalog()[2].name@[0]);
    assert(catalog()[0].name@ != catalog()[2].name@);
    assert(catalog()[0].name@.len() != catalog()[3].name@.len());
    assert(catalog()[0].name@ != catalog()[3].name@);
    assert(catalog()[0].name@.len() != catalog()[4].name@.len());
    assert(catalog()[0].name@ != catalog()[4].name@);
    assert(catalog()[0].name@.len() != catalog()[5].name@.len());
    assert(catalog()[0].name@ != catalog()[5].name@);
    assert(catalog()[0].name@.len() != catalog()[6].name@.len());
    assert(catalog()[0].name@ != catalog()[6].name@);
    assert(catalog()[0].name@.len() != catalog()[7].name@.len());
    assert(catalog()[0].name@ != catalog()[7].name@);
    assert(catalog()[0].name@.len() != catalog()[8].name@.len());
    assert(catalog()[0].name@ != catalog()[8].name@);
    assert(catalog()[0].name@[0] != catalog()[9].name@[0]);
    assert(catalog()[0].name@ != catalog()[9].name@);
    assert(catalog()[0].name@[0] != catalog()[10].name@[0]);
    assert(catalog()[0].name@ != catalog()[10].name@);
    assert(catalog()[0].name@.len() != catalog()[11].name@.len());
    assert(catalog()[0].name@ != catalog()[11].name@);
    assert(catalog()[0].name@[0] != catalog()[12].name@[0]);
    assert(catalog()[0].name@ != catalog()[12].name@);
    assert(catalog()[0].name@.len() != catalog()[13].name@.len());
    assert(catalog()[0].name@ != catalog()[13].name@);
    assert(catalog()[1].name@.len() != catalog()[2].name@.len());
    assert(catalog()[1].name@ != catalog()[2].name@);
    assert(catalog()[1].name@.len() != catalog()[3].name@.len());
    assert(catalog()[1].name@ != catalog()[3].name@);
    assert(catalog()[1].name@.len() != catalog()[4].name@.len());
    assert(catalog()[1].name@ != catalog()[4].name@);
    assert(catalog()[1].name@.len() != catalog()[5].name@.len());
    assert(catalog()[1].name@ != catalog()[5].name@);
    assert(catalog()[1].name@.len() != catalog()[6].name@.len());
    assert(catalog()[1].name@ != catalog()[6].name@);
    assert(catalog()[1].name@.len() != catalog()[7].name@.len());
    assert(catalog()[1].name@ != catalog()[7].name@);
    assert(catalog()[1].name@.len() != catalog()[8].name@.len());
    assert(catalog()[1].name@ != catalog()[8].name@);
    assert(catalog()[1].name@.len() != catalog()[9].name@.len());
    assert(catalog()[1].name@ != catalog()[9].name@);
    assert(catalog()[1].name@.len() != catalog()[10].name@.len());
    assert(catalog()[1].name@ != catalog()[10].name@);
    assert(catalog()[1].name@.len() != catalog()[11].name@.len());
    assert(catalog()[1].name@ != catalog()[11].name@);
    assert(catalog()[1].name@.len() != catalog()[12].name@.len());
    assert(catalog()[1].name@ != catalog()[12].name@);
    assert(catalog()[1].name@.len() != catalog()[13].name@.len());
    assert(catalog()[1].name@ != catalog()[13].name@);
    assert(catalog()[2].name@.len() != catalog()[3].name@.len());
    assert(catalog()[2].name@ != catalog()[3].name@);
    assert(catalog()[2].name@.len() != catalog()[4].name@.len());
    assert(catalog()[2].name@ != catalog()[4].name@);
    assert(catalog()[2].name@.len() != catalog()[5].name@.len());
    assert(catalog()[2].name@ != catalog()[5].name@);
    assert(catalog()[2].name@.len() != catalog()[6].name@.len());
    assert(catalog()[2].name@ != catalog()[6].name@);
    assert(catalog()[2].name@.len() != catalog()[7].name@.len());
    assert(catalog()[2].name@ != catalog()[7].name@);
    assert(catalog()[2].name@.len() != catalog()[8].name@.len());
    assert(catalog()[2].name@ != catalog()[8].name@);
    assert(catalog()[2].name@[0] != catalog()[9].name@[0]);
    assert(catalog()[2].name@ != catalog()[9].name@);
    assert(catalog()[2].name@[0] != catalog()[10].name@[0]);
    assert(catalog()[2].name@ != catalog()[10].name@);
    assert(catalog()[2].name@.len() != catalog()[11].name@.len());
    assert(catalog()[2].name@ != catalog()[11].name@);
    assert(catalog()[2].name@[1] != catalog()[12].name@[1]);
    assert(catalog()[2].name@ != catalog()[12].name@);
    assert(catalog()[2].name@.len() != catalog()[13].name@.len());
    assert(catalog()[2].name@ != catalog()[13].name@);
    assert(catalog()[3].name@[0] != catalog()[4].name@[0]);
    assert(catalog()[3].name@ != catalog()[4].name@);
    assert(catalog()[3].name@.len() != catalog()[5].name@.len());
    assert(catalog()[3].name@ != catalog()[5].name@);
    assert(catalog()[3].name@.len() != catalog()[6].name@.len());
    assert(catalog()[3].name@ != catalog()[6].name@);
    assert(catalog()[3].name@.len() != catalog()[7].name@.len());
    assert(catalog()[3].name@ != catalog()[7].name@);
    assert(catalog()[3].name@.len() != catalog()[8].name@.len());
    assert(catalog()[3].name@ != catalog()[8].name@);
    assert(catalog()[3].name@.len() != catalog()[9].name@.len());
    assert(catalog()[3].name@ != catalog()[9].name@);
    assert(catalog()[3].name@.len() != catalog()[10].name@.len());
    assert(catalog()[3].name@ != catalog()[10].name@);
    assert(catalog()[3].name@.len() != catalog()[11].name@.len());
    assert(catalog()[3].name@ != catalog()[11].name@);
    assert(catalog()[3].name@.len() != catalog()[12].name@.len());
    assert(catalog()[3].name@ != catalog()[12].name@);
    assert(catalog()[3].name@.len() != catalog()[13].name@.len());
    assert(catalog()[3].name@ != catalog()[13].name@);
    assert(catalog()[4].name@.len() != catalog()[5].name@.len());
    assert(catalog()[4].name@ != catalog()[5].name@);
    assert(catalog()[4].name@.len() != catalog()[6].name@.len());
    assert(catalog()[4].name@ != catalog()[6].name@);
    assert(catalog()[4].name@.len() != catalog()[7].name@.len());
    assert(catalog()[4].name@ != catalog()[7].name@);
    assert(catalog()[4].name@.len() != catalog()[8].name@.len());
    assert(catalog()[4].name@ != catalog()[8].name@);
    assert(catalog()[4].name@.len() != catalog()[9].name@.len());
    assert(catalog()[4].name@ != catalog()[9].name@);
    assert(catalog()[4].name@.len() != catalog()[10].name@.len());
    assert(catalog()[4].name@ != catalog()[10].name@);
    assert(catalog()[4].name@.len() != catalog()[11].name@.len());
    assert(catalog()[4].name@ != catalog()[11].name@);
    assert(catalog()[4].name@.len() != catalog()[12].name@.len());
    assert(catalog()[4].name@ != catalog()[12].name@);
    assert(catalog()[4].name@.len() != catalog()[13].name@.len());
    assert(catalog()[4].name@ != catalog()[13].name@);
    assert(catalog()[5].name@.len() != catalog()[6].name@.len());
    assert(catalog()[5].name@ != catalog()[6].name@);
    assert(catalog()[5].name@.len() != catalog()[7].name@.len());
    assert(catalog()[5].name@ != catalog()[7].name@);
    assert(catalog()[5].name@.len() != catalog()[8].name@.len());
    assert(catalog()[5].name@ != catalog()[8].name@);
    assert(catalog()[5].name@.len() != catalog()[9].name@.len());
    assert(catalog()[5].name@ != catalog()[9].name@);
    assert(catalog()[5].name@.len() != catalog()[10].name@.len());
    assert(catalog()[5].name@ != catalog()[10].name@);
    assert(catalog()[5].name@.len() != catalog()[11].name@.len());
    assert(catalog()[5].name@ != catalog()[11].name@);
    assert(catalog()[5].name@.len() != catalog()[12].name@.len());
    assert(catalog()[5].name@ != catalog()[12].name@);
    assert(catalog()[5].name@.len() != catalog()[13].name@.len());
    assert(catalog()[5].name@ != catalog()[13].name@);
    assert(catalog()[6].name@.len() != catalog()[7].name@.len());
    assert(catalog()[6].name@ != catalog()[7].name@);
    assert(catalog()[6].name@.len() != catalog()[8].name@.len());
    assert(catalog()[6].name@ != catalog()[8].name@);
    assert(catalog()[6].name@.len() != catalog()[9].name@.len());
    assert(catalog()[6].name@ != catalog()[9].name@);
    assert(catalog()[6].name@.len() != catalog()[10].name@.len());
    assert(catalog()[6].name@ != catalog()[10].name@);
    assert(catalog()[6].name@.len() != catalog()[11].name@.len());
    assert(catalog()[6].name@ != catalog()[11].name@);
    assert(catalog()[6].name@.len() != catalog()[12].name@.len());
    assert(catalog()[6].name@ != catalog()[12].name@);
    assert(catalog()[6].name@.len() != catalog()[13].name@.len());
    assert(catalog()[6].name@ != catalog()[13].name@);
    assert(catalog()[7].name@.len() != catalog()[8].name@.len());
    assert(catalog()[7].name@ != catalog()[8].name@);
    assert(catalog()[7].name@.len() != catalog()[9].name@.len());
    assert(catalog()[7].name@ != catalog()[9].name@);
    assert(catalog()[7].name@.len() != catalog()[10].name@.len());
    assert(catalog()[7].name@ != catalog()[10].name@);
    assert(catalog()[7].name@.len() != catalog()[11].name@.len());
    assert(catalog()[7].name@ != catalog()[11].name@);
    assert(catalog()[7].name@.len() != catalog()[12].name@.len());
    assert(catalog()[7].name@ != catalog()[12].name@);
    assert(catalog()[7].name@.len() != catalog()[13].name@.len());
    assert(catalog()[7].name@ != catalog()[13].name@);
    assert(catalog()[8].name@.len() != catalog()[9].name@.len());
    assert(catalog()[8].name@ != catalog()[9].name@);
    assert(catalog()[8].name@.len() != catalog()[10].name@.len());
    assert(catalog()[8].name@ != catalog()[10].name@);
    assert(catalog()[8].name@.len() != catalog()[11].name@.len());
    assert(catalog()[8].name@ != catalog()[11].name@);
    assert(catalog()[8].name@.len() != catalog()[12].name@.len());
    assert(catalog()[8].name@ != catalog()[12].name@);
    assert(catalog()[8].name@.len() != catalog()[13].name@.len());
    assert(catalog()[8].name@ != catalog()[13].name@);
    assert(catalog()[9].name@[0] != catalog()[10].name@[0]);
    assert(catalog()[9].name@ != catalog()[10].name@);
    assert(catalog()[9].name@.len() != catalog()[11].name@.len());
    assert(catalog()[9].name@ != catalog()[11].name@);
    assert(catalog()[9].name@[0] != catalog()[12].name@[0]);
    assert(catalog()[9].name@ != catalog()[12].name@);
    assert(catalog()[9].name@.len() != catalog()[13].name@.len());
    assert(catalog()[9].name@ != catalog()[13].name@);
    assert(catalog()[10].name@.len() != catalog()[11].name@.len());
    assert(catalog()[10].name@ != catalog()[11].name@);
    assert(catalog()[10].name@[0] != catalog()[12].name@[0]);
    assert(catalog()[10].name@ != catalog()[12].name@);
    assert(catalog()[10].name@.len() != catalog()[13].name@.len());
    assert(catalog()[10].name@ != catalog()[13].name@);
    assert(catalog()[11].name@.len() != catalog()[12].name@.len());
    assert(catalog()[11].name@ != catalog()[12].name@);
    assert(catalog()[11].name@.len() != catalog()[13].name@.len());
    assert(catalog()[11].name@ != catalog()[13].name@);
    assert(catalog()[12].name@.len() != catalog()[13].name@.len());
    assert(catalog()[12].name@ != catalog()[13].name@);
    assert forall|i: int, j: int|
        #![trigger catalog()[i], catalog()[j]]
        0 <= i < j < catalog().len() implies catalog()[i].name@ != catalog()[j].name@ by {
        assert(catalog().len() == 14);
    }
}

/// Each pair of catalog entries is told apart by abbreviation, shown
/// pair by pair from the revealed literals.
#[verifier::rlimit(100)]
proof fn lemma_catalog_abbrevs_pairwise_distinct()
    ensures
        forall|i: int, j: int|
            #![trigger catalog()[i], catalog()[j]]
            0 <= i < j < catalog().len() ==> catalog()[i].abbrev@ != catalog()[j].abbrev@,
{
    reveal_strlit("Ct");
    reveal_strlit("Cn");
    reveal_strlit("Po");
    reveal_strlit("TR");
    reveal_strlit("As");
    reveal_strlit("Eg");
    reveal_strlit("Pk");
    reveal_strlit("Wm");
    reveal_strlit("DF");
    reveal_strlit("Du");
    reveal_strlit("Ga");
    reveal_strlit("On");
    reveal_strlit("Pe");
    reveal_strlit("Pg");
    assert(catalog().len() == 14);
    assert(catalog()[0] == Plant::spec_carrot());
    assert(catalog()[1] == Plant::spec_corn());
    assert(catalog()[2] == Plant::spec_potato());
    assert(catalog()[3] == Plant::spec_toma_root());
    assert(catalog()[4] == Plant::spec_asparagus());
    assert(catalog()[5] == Plant::spec_eggplant());
    assert(catalog()[6] == Plant::spec_pumpkin());
    assert(catalog()[7] == Plant::spec_watermelon());
    assert(catalog()[8] == Plant::spec_dragon_fruit());
    assert(catalog()[9] == Plant::spec_durian());
    assert(catalog()[10] == Plant::spec_garlic());
    assert(catalog()[11] == Plant::spec_onion());
    assert(catalog()[12] == Plant::spec_pepper());
    assert(catalog()[13] == Plant::spec_pomegranate());
    assert(catalog()[0].abbrev@ == "Ct"@);
    assert(catalog()[1].abbrev@ == "Cn"@);
    assert(catalog()[2].abbrev@ == "Po"@);
    assert(catalog()[3].abbrev@ == "TR"@);
    assert(catalog()[4].abbrev@ == "As"@);
    assert(catalog()[5].abbrev@ == "Eg"@);
    assert(catalog()[6].abbrev@ == "Pk"@);
    assert(catalog()[7].abbrev@ == "Wm"@);
    assert(catalog()[8].abbrev@ == "DF"@);
    assert(catalog()[9].abbrev@ == "Du"@);
    assert(catalog()[10].abbrev@ == "Ga"@);
    assert(catalog()[11].abbrev@ == "On"@);
    assert(catalog()[12].abbrev@ == "Pe"@);
    assert(catalog()[13].abbrev@ == "Pg"@);
    assert(catalog()[0].abbrev@[1] != catalog()[1].abbrev@[1]);
    assert(catalog()[0].abbrev@ != catalog()[1].abbrev@);
    assert(catalog()[0].abbrev@[0] != catalog()[2].abbrev@[0]);
    assert(catalog()[0].abbrev@ != catalog()[2].abbrev@);
    assert(catalog()[0].abbrev@[0] != catalog()[3].abbrev@[0]);
    assert(catalog()[0].abbrev@ != catalog()[3].abbrev@);
    assert(catalog()[0].abbrev@[0] != catalog()[4].abbrev@[0]);
    assert(catalog()[0].abbrev@ != catalog()[4].abbrev@);
    assert(catalog()[0].abbrev@[0] != catalog()[5].abbrev@[0]);
    assert(catalog()[0].abbrev@ != catalog()[5].abbrev@);
    assert(catalog()[0].abbrev@[0] != catalog()[6].abbrev@[0]);
    assert(catalog()[0].abbrev@ != catalog()[6].abbrev@);
    assert(catalog()[0].abbrev@[0] != catalog()[7].abbrev@[0]);
    assert(catalog()[0].abbrev@ != catalog()[7].abbrev@);
    assert(catalog()[0].abbrev@[0] != catalog()[8].abbrev@[0]);
    assert(catalog()[0].abbrev@ != catalog()[8].abbrev@);
    assert(catalog()[0].abbrev@[0] != catalog()[9].abbrev@[0]);
    assert(catalog()[0].abbrev@ != catalog()[9].abbrev@);
    assert(catalog()[0].abbrev@[0] != catalog()[10].abbrev@[0]);
    assert(catalog()[0].abbrev@ != catalog()[10].abbrev@);
    assert(catalog()[0].abbrev@[0] != catalog()[11].abbrev@[0]);
    assert(catalog()[0].abbrev@ != catalog()[11].abbrev@);
    assert(catalog()[0].abbrev@[0] != catalog()[12].abbrev@[0]);
    assert(catalog()[0].abbrev@ != catalog()[12].abbrev@);
    assert(catalog()[0].abbrev@[0] != catalog()[13].abbrev@[0]);
    assert(catalog()[0].abbrev@ != catalog()[13].abbrev@);
    assert(catalog()[1].abbrev@[0] != catalog()[2].abbrev@[0]);
    assert(catalog()[1].abbrev@ != catalog()[2].abbrev@);
    assert(catalog()[1].abbrev@[0] != catalog()[3].abbrev@[0]);
    assert(catalog()[1].abbrev@ != catalog()[3].abbrev@);
    assert(catalog()[1].abbrev@[0] != catalog()[4].abbrev@[0]);
    assert(catalog()[1].abbrev@ != catalog()[4].abbrev@);
    assert(catalog()[1].abbrev@[0] != catalog()[5].abbrev@[0]);
    assert(catalog()[1].abbrev@ != catalog()[5].abbrev@);
    assert(catalog()[1].abbrev@[0] != catalog()[6].abbrev@[0]);
    assert(catalog()[1].abbrev@ != catalog()[6].abbrev@);
    assert(catalog()[1].abbrev@[0] != catalog()[7].abbrev@[0]);
    assert(catalog()[1].abbrev@ != catalog()[7].abbrev@);
    assert(catalog()[1].abbrev@[0] != catalog()[8].abbrev@[0]);
    assert(catalog()[1].abbrev@ != catalog()[8].abbrev@);
    assert(catalog()[1].abbrev@[0] != catalog()[9].abbrev@[0]);
    assert(catalog()[1].abbrev@ != catalog()[9].abbrev@);
    assert(catalog()[1].abbrev@[0] != catalog()[10].abbrev@[0]);
    assert(catalog()[1].abbrev@ != catalog()[10].abbrev@);
    assert(catalog()[1].abbrev@[0] != catalog()[11].abbrev@[0]);
    assert(catalog()[1].abbrev@ != catalog()[11].abbrev@);
    assert(catalog()[1].abbrev@[0] != catalog()[12].abbrev@[0]);
    assert(catalog()[1].abbrev@ != catalog()[12].abbrev@);
    assert(catalog()[1].abbrev@[0] != catalog()[13].abbrev@[0]);
    assert(catalog()[1].abbrev@ != catalog()[13].abbrev@);
    assert(catalog()[2].abbrev@[0] != catalog()[3].abbrev@[0]);
    assert(catalog()[2].abbrev@ != catalog()[3].abbrev@);
    assert(catalog()[2].abbrev@[0] != catalog()[4].abbrev@[0]);
    assert(catalog()[2].abbrev@ != catalog()[4].abbrev@);
    assert(catalog()[2].abbrev@[0] != catalog()[5].abbrev@[0]);
    assert(catalog()[2].abbrev@ != catalog()[5].abbrev@);
    assert(catalog()[2].abbrev@[1] != catalog()[6].abbrev@[1]);
    assert(catalog()[2].abbrev@ != catalog()[6].abbrev@);
    assert(catalog()[2].abbrev@[0] != catalog()[7].abbrev@[0]);
    assert(catalog()[2].abbrev@ != catalog()[7].abbrev@);
    assert(catalog()[2].abbrev@[0] != catalog()[8].abbrev@[0]);
    assert(catalog()[2].abbrev@ != catalog()[8].abbrev@);
    assert(catalog()[2].abbrev@[0] != catalog()[9].abbrev@[0]);
    assert(catalog()[2].abbrev@ != catalog()[9].abbrev@);
    assert(catalog()[2].abbrev@[0] != catalog()[10].abbrev@[0]);
    assert(catalog()[2].abbrev@ != catalog()[10].abbrev@);
    assert(catalog()[2].abbrev@[0] != catalog()[11].abbrev@[0]);
    assert(catalog()[2].abbrev@ != catalog()[11].abbrev@);
    assert(catalog()[2].abbrev@[1] != catalog()[12].abbrev@[1]);
    assert(catalog()[2].abbrev@ != catalog()[12].abbrev@);
    assert(catalog()[2].abbrev@[1] != catalog()[13].abbrev@[1]);
    assert(catalog()[2].abbrev@ != catalog()[13].abbrev@);
    assert(catalog()[3].abbrev@[0] != catalog()[4].abbrev@[0]);
    assert(catalog()[3].abbrev@ != catalog()[4].abbrev@);
    assert(catalog()[3].abbrev@[0] != catalog()[5].abbrev@[0]);
    assert(catalog()[3].abbrev@ != catalog()[5].abbrev@);
    assert(catalog()[3].abbrev@[0] != catalog()[6].abbrev@[0]);
    assert(catalog()[3].abbrev@ != catalog()[6].abbrev@);
    assert(catalog()[3].abbrev@[0] != catalog()[7].abbrev@[0]);
    assert(catalog()[3].abbrev@ != catalog()[7].abbrev@);
    assert(catalog()[3].abbrev@[0] != catalog()[8].abbrev@[0]);
    assert(catalog()[3].abbrev@ != catalog()[8].abbrev@);
    assert(catalog()[3].abbrev@[0] != catalog()[9].abbrev@[0]);
    assert(catalog()[3].abbrev@ != catalog()[9].abbrev@);
    assert(catalog()[3].abbrev@[0] != catalog()[10].abbrev@[0]);
    assert(catalog()[3].abbrev@ != catalog()[10].abbrev@);
    assert(catalog()[3].abbrev@[0] != catalog()[11].abbrev@[0]);
    assert(catalog()[3].abbrev@ != catalog()[11].abbrev@);
    assert(catalog()[3].abbrev@[0] != catalog()[12].abbrev@[0]);
    assert(catalog()[3].abbrev@ != catalog()[12].abbrev@);
    assert(catalog()[3].abbrev@[0] != catalog()[13].abbrev@[0]);
    assert(catalog()[3].abbrev@ != catalog()[13].abbrev@);
    assert(catalog()[4].abbrev@[0] != catalog()[5].abbrev@[0]);
    assert(catalog()[4].abbrev@ != catalog()[5].abbrev@);
    assert(catalog()[4].abbrev@[0] != catalog()[6].abbrev@[0]);
    assert(catalog()[4].abbrev@ != catalog()[6].abbrev@);
    assert(catalog()[4].abbrev@[0] != catalog()[7].abbrev@[0]);
    assert(catalog()[4].abbrev@ != catalog()[7].abbrev@);
    assert(catalog()[4].abbrev@[0] != catalog()[8].abbrev@[0]);
    assert(catalog()[4].abbrev@ != catalog()[8].abbrev@);
    assert(catalog()[4].abbrev@[0] != catalog()[9].abbrev@[0]);
    assert(catalog()[4].abbrev@ != catalog()[9].abbrev@);
    assert(catalog()[4].abbrev@[0] != catalog()[10].abbrev@[0]);
    assert(catalog()[4].abbrev@ != catalog()[10].abbrev@);
    assert(catalog()[4].abbrev@[0] != catalog()[11].abbrev@[0]);
    assert(catalog()[4].abbrev@ != catalog()[11].abbrev@);
    assert(catalog()[4].abbrev@[0] != catalog()[12].abbrev@[0]);
    assert(catalog()[4].abbrev@ != catalog()[12].abbrev@);
    assert(catalog()[4].abbrev@[0] != catalog()[13].abbrev@[0]);
    assert(catalog()[4].abbrev@ != catalog()[13].abbrev@);
    assert(catalog()[5].abbrev@[0] != catalog()[6].abbrev@[0]);
    assert(catalog()[5].abbrev@ != catalog()[6].abbrev@);
    assert(catalog()[5].abbrev@[0] != catalog()[7].abbrev@[0]);
    assert(catalog()[5].abbrev@ != catalog()[7].abbrev@);
    assert(catalog()[5].abbrev@[0] != catalog()[8].abbrev@[0]);
    assert(catalog()[5].abbrev@ != catalog()[8].abbrev@);
    assert(catalog()[5].abbrev@[0] != catalog()[9].abbrev@[0]);
    assert(catalog()[5].abbrev@ != catalog()[9].abbrev@);
    assert(catalog()[5].abbrev@[0] != catalog()[10].abbrev@[0]);
    assert(catalog()[5].abbrev@ != catalog()[10].abbrev@);
    assert(catalog()[5].abbrev@[0] != catalog()[11].abbrev@[0]);
    assert(catalog()[5].abbrev@ != catalog()[11].abbrev@);
    assert(catalog()[5].abbrev@[0] != catalog()[12].abbrev@[0]);
    assert(catalog()[5].abbrev@ != catalog()[12].abbrev@);
    assert(catalog()[5].abbrev@[0] != catalog()[13].abbrev@[0]);
    assert(catalog()[5].abbrev@ != catalog()[13].abbrev@);
    assert(catalog()[6].abbrev@[0] != catalog()[7].abbrev@[0]);
    assert(catalog()[6].abbrev@ != catalog()[7].abbrev@);
    assert(catalog()[6].abbrev@[0] != catalog()[8].abbrev@[0]);
    assert(catalog()[6].abbrev@ != catalog()[8].abbrev@);
    assert(catalog()[6].abbrev@[0] != catalog()[9].abbrev@[0]);
    assert(catalog()[6].abbrev@ != catalog()[9].abbrev@);
    assert(catalog()[6].abbrev@[0] != catalog()[10].abbrev@[0]);
    assert(catalog()[6].abbrev@ != catalog()[10].abbrev@);
    assert(catalog()[6].abbrev@[0] != catalog()[11].abbrev@[0]);
    assert(catalog()[6].abbrev@ != catalog()[11].abbrev@);
    assert(catalog()[6].abbrev@[1] != catalog()[12].abbrev@[1]);
    assert(catalog()[6].abbrev@ != catalog()[12].abbrev@);
    assert(catalog()[6].abbrev@[1] != catalog()[13].abbrev@[1]);
    assert(catalog()[6].abbrev@ != catalog()[13].abbrev@);
    assert(catalog()[7].abbrev@[0] != catalog()[8].abbrev@[0]);
    assert(catalog()[7].abbrev@ != catalog()[8].abbrev@);
    assert(catalog()[7].abbrev@[0] != catalog()[9].abbrev@[0]);
    assert(catalog()[7].abbrev@ != catalog()[9].abbrev@);
    assert(catalog()[7].abbrev@[0] != catalog()[10].abbrev@[0]);
    assert(catalog()[7].abbrev@ != catalog()[10].abbrev@);
    assert(catalog()[7].abbrev@[0] != catalog()[11].abbrev@[0]);
    assert(catalog()[7].abbrev@ != catalog()[11].abbrev@);
    assert(catalog()[7].abbrev@[0] != catalog()[12].abbrev@[0]);
    assert(catalog()[7].abbrev@ != catalog()[12].abbrev@);
    assert(catalog()[7].abbrev@[0] != catalog()[13].abbrev@[0]);
    assert(catalog()[7].abbrev@ != catalog()[13].abbrev@);
    assert(catalog()[8].abbrev@[1] != catalog()[9].abbrev@[1]);
    assert(catalog()[8].abbrev@ != catalog()[9].abbrev@);
    assert(catalog()[8].abbrev@[0] != catalog()[10].abbrev@[0]);
    assert(catalog()[8].abbrev@ != catalog()[10].abbrev@);
    assert(catalog()[8].abbrev@[0] != catalog()[11].abbrev@[0]);
    assert(catalog()[8].abbrev@ != catalog()[11].abbrev@);
    assert(catalog()[8].abbrev@[0] != catalog()[12].abbrev@[0]);
    assert(catalog()[8].abbrev@ != catalog()[12].abbrev@);
    assert(catalog()[8].abbrev@[0] != catalog()[13].abbrev@[0]);
    assert(catalog()[8].abbrev@ != catalog()[13].abbrev@);
    assert(catalog()[9].abbrev@[0] != catalog()[10].abbrev@[0]);
    assert(catalog()[9].abbrev@ != catalog()[10].abbrev@);
    assert(catalog()[9].abbrev@[0] != catalog()[11].abbrev@[0]);
    assert(catalog()[9].abbrev@ != catalog()[11].abbrev@);
    assert(catalog()[9].abbrev@[0] != catalog()[12].abbrev@[0]);
    assert(catalog()[9].abbrev@ != catalog()[12].abbrev@);
    assert(catalog()[9].abbrev@[0] != catalog()[13].abbrev@[0]);
    assert(catalog()[9].abbrev@ != catalog()[13].abbrev@);
    assert(catalog()[10].abbrev@[0] != catalog()[11].abbrev@[0]);
    assert(catalog()[10].abbrev@ != catalog()[11].abbrev@);
    assert(catalog()[10].abbrev@[0] != catalog()[12].abbrev@[0]);
    assert(catalog()[10].abbrev@ != catalog()[12].abbrev@);
    assert(catalog()[10].abbrev@[0] != catalog()[13].abbrev@[0]);
    assert(catalog()[10].abbrev@ != catalog()[13].abbrev@);
    assert(catalog()[11].abbrev@[0] != catalog()[12].abbrev@[0]);
    assert(catalog()[11].abbrev@ != catalog()[12].abbrev@);
    assert(catalog()[11].abbrev@[0] != catalog()[13].abbrev@[0]);
    assert(catalog()[11].abbrev@ != catalog()[13].abbrev@);
    assert(catalog()[12].abbrev@[1] != catalog()[13].abbrev@[1]);
    assert(catalog()[12].abbrev@ != catalog()[13].abbrev@);
    assert forall|i: int, j: int|
        #![trigger catalog()[i], catalog()[j]]
        0 <= i < j < catalog().len() implies catalog()[i].abbrev@ != catalog()[j].abbrev@ by {
        assert(catalog().len() == 14);
    }
}

/// Law: a plant's identity is its name. No two catalog entries share a
/// name, and no two share an abbreviation.
pub proof fn lemma_catalog_identities_unique()
    ensures
        forall|i: int, j: int|
            #![trigger catalog()[i], catalog()[j]]
            0 <= i < j < catalog().len() ==> catalog()[i].name@ != catalog()[j].name@
                && catalog()[i].abbrev@ != catalog()[j].abbrev@,
{
    lemma_catalog_names_pairwise_distinct();
    lemma_catalog_abbrevs_pairwise_distinct();
}

} // verus!

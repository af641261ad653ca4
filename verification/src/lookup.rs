//! The combination lookup engine: maps a (season, crop-ratio) pair to the
//! fixed list of valid plant-combination recipes for that pairing.

use crate::plant::CropRatios;
use crate::plant::Plant;
use crate::plant::Seasons;
use vstd::prelude::*;

verus! {

/// The `1:1` recipes of each season: two plant types in equal
/// proportion. Summer and Winter list none.
pub open spec fn one_one_spec(season: Seasons) -> Option<Seq<Seq<Plant>>> {
    match season {
        Seasons::Summer => None,
        Seasons::Winter => None,
        Seasons::Autumn => Some(
            seq![
                seq![Plant::spec_toma_root(), Plant::spec_eggplant()],
                seq![Plant::spec_toma_root(), Plant::spec_potato()],
            ],
        ),
        Seasons::Spring => Some(
            seq![
                seq![Plant::spec_carrot(), Plant::spec_watermelon()],
                seq![Plant::spec_potato(), Plant::spec_toma_root()],
                seq![Plant::spec_toma_root(), Plant::spec_eggplant()],
            ],
        ),
    }
}

/// The `1:1:1` recipes of each season: three plant types in equal
/// proportion. Every season has at least one.
pub open spec fn one_one_one_spec(season: Seasons) -> Seq<Seq<Plant>> {
    match season {
        Seasons::Summer => seq![
            seq![Plant::spec_toma_root(), Plant::spec_toma_root(), Plant::spec_dragon_fruit()],
            seq![Plant::spec_toma_root(), Plant::spec_toma_root(), Plant::spec_pepper()],
            seq![Plant::spec_watermelon(), Plant::spec_watermelon(), Plant::spec_onion()],
            seq![Plant::spec_watermelon(), Plant::spec_watermelon(), Plant::spec_pomegranate()],
            seq![Plant::spec_dragon_fruit(), Plant::spec_garlic(), Plant::spec_onion()],
            seq![Plant::spec_dragon_fruit(), Plant::spec_garlic(), Plant::spec_pomegranate()],
            seq![Plant::spec_garlic(), Plant::spec_onion(), Plant::spec_pepper()],
            seq![Plant::spec_garlic(), Plant::spec_pepper(), Plant::spec_pomegranate()],
        ],
        Seasons::Winter => seq![
            seq![Plant::spec_carrot(), Plant::spec_potato(), Plant::spec_asparagus()],
            seq![Plant::spec_potato(), Plant::spec_asparagus(), Plant::spec_pumpkin()],
        ],
        Seasons::Autumn => seq![
            seq![Plant::spec_carrot(), Plant::spec_corn(), Plant::spec_potato()],
            seq![Plant::spec_carrot(), Plant::spec_corn(), Plant::spec_eggplant()],
            seq![Plant::spec_corn(), Plant::spec_potato(), Plant::spec_pumpkin()],
            seq![Plant::spec_corn(), Plant::spec_eggplant(), Plant::spec_pumpkin()],
            seq![Plant::spec_toma_root(), Plant::spec_toma_root(), Plant::spec_pepper()],
            seq![Plant::spec_garlic(), Plant::spec_onion(), Plant::spec_pepper()],
        ],
        Seasons::Spring => seq![
            seq![Plant::spec_carrot(), Plant::spec_corn(), Plant::spec_potato()],
            seq![Plant::spec_carrot(), Plant::spec_corn(), Plant::spec_eggplant()],
            seq![Plant::spec_carrot(), Plant::spec_potato(), Plant::spec_asparagus()],
            seq![Plant::spec_carrot(), Plant::spec_asparagus(), Plant::spec_eggplant()],
            seq![Plant::spec_toma_root(), Plant::spec_toma_root(), Plant::spec_dragon_fruit()],
            seq![Plant::spec_watermelon(), Plant::spec_watermelon(), Plant::spec_onion()],
            seq![Plant::spec_watermelon(), Plant::spec_watermelon(), Plant::spec_pomegranate()],
            seq![Plant::spec_dragon_fruit(), Plant::spec_durian(), Plant::spec_onion()],
            seq![Plant::spec_dragon_fruit(), Plant::spec_durian(), Plant::spec_pomegranate()],
            seq![Plant::spec_dragon_fruit(), Plant::spec_garlic(), Plant::spec_onion()],
            seq![Plant::spec_dragon_fruit(), Plant::spec_garlic(), Plant::spec_pomegranate()],
        ],
    }
}

/// The `2:1` recipes of each season: the first plant doubled, so each
/// recipe lists three plants. Winter has none.
pub open spec fn two_one_spec(season: Seasons) -> Option<Seq<Seq<Plant>>> {
    match season {
        Seasons::Summer => Some(
            seq![
                seq![Plant::spec_toma_root(), Plant::spec_toma_root(), Plant::spec_dragon_fruit()],
                seq![Plant::spec_toma_root(), Plant::spec_toma_root(), Plant::spec_pepper()],
                seq![Plant::spec_watermelon(), Plant::spec_watermelon(), Plant::spec_onion()],
                seq![Plant::spec_watermelon(), Plant::spec_watermelon(), Plant::spec_pomegranate()],
            ],
        ),
        Seasons::Winter => None,
        Seasons::Autumn => Some(
            seq![
                seq![Plant::spec_toma_root(), Plant::spec_toma_root(), Plant::spec_pepper()],
            ],
        ),
        Seasons::Spring => Some(
            seq![
                seq![Plant::spec_toma_root(), Plant::spec_toma_root(), Plant::spec_dragon_fruit()],
                seq![Plant::spec_watermelon(), Plant::spec_watermelon(), Plant::spec_onion()],
                seq![Plant::spec_watermelon(), Plant::spec_watermelon(), Plant::spec_pomegranate()],
            ],
        ),
    }
}

/// The `2:1:1` recipes of each season: the first plant doubled ahead of
/// two singles, so each recipe lists four plants. Winter has none.
pub open spec fn two_one_one_spec(season: Seasons) -> Option<Seq<Seq<Plant>>> {
    match season {
        Seasons::Summer => Some(
            seq![
                seq![Plant::spec_corn(), Plant::spec_corn(), Plant::spec_dragon_fruit(), Plant::spec_onion()],
                seq![Plant::spec_corn(), Plant::spec_corn(), Plant::spec_dragon_fruit(), Plant::spec_pomegranate()],
                seq![Plant::spec_corn(), Plant::spec_corn(), Plant::spec_onion(), Plant::spec_pepper()],
                seq![Plant::spec_corn(), Plant::spec_corn(), Plant::spec_pepper(), Plant::spec_pomegranate()],
            ],
        ),
        Seasons::Winter => None,
        Seasons::Autumn => Some(
            seq![
                seq![Plant::spec_carrot(), Plant::spec_carrot(), Plant::spec_garlic(), Plant::spec_pepper()],
                seq![Plant::spec_corn(), Plant::spec_corn(), Plant::spec_onion(), Plant::spec_pepper()],
                seq![Plant::spec_potato(), Plant::spec_potato(), Plant::spec_toma_root(), Plant::spec_toma_root()],
                seq![Plant::spec_potato(), Plant::spec_potato(), Plant::spec_garlic(), Plant::spec_onion()],
                seq![Plant::spec_toma_root(), Plant::spec_toma_root(), Plant::spec_potato(), Plant::spec_potato()],
                seq![Plant::spec_toma_root(), Plant::spec_toma_root(), Plant::spec_potato(), Plant::spec_eggplant()],
                seq![Plant::spec_toma_root(), Plant::spec_toma_root(), Plant::spec_eggplant(), Plant::spec_eggplant()],
                seq![Plant::spec_eggplant(), Plant::spec_eggplant(), Plant::spec_toma_root(), Plant::spec_toma_root()],
                seq![Plant::spec_eggplant(), Plant::spec_eggplant(), Plant::spec_garlic(), Plant::spec_onion()],
                seq![Plant::spec_pumpkin(), Plant::spec_pumpkin(), Plant::spec_garlic(), Plant::spec_pepper()],
            ],
        ),
        Seasons::Spring => Some(
            seq![
                seq![Plant::spec_carrot(), Plant::spec_carrot(), Plant::spec_watermelon(), Plant::spec_watermelon()],
                seq![Plant::spec_carrot(), Plant::spec_carrot(), Plant::spec_dragon_fruit(), Plant::spec_durian()],
                seq![Plant::spec_carrot(), Plant::spec_carrot(), Plant::spec_dragon_fruit(), Plant::spec_garlic()],
                seq![Plant::spec_corn(), Plant::spec_corn(), Plant::spec_dragon_fruit(), Plant::spec_onion()],
                seq![Plant::spec_corn(), Plant::spec_corn(), Plant::spec_dragon_fruit(), Plant::spec_pomegranate()],
                seq![Plant::spec_potato(), Plant::spec_potato(), Plant::spec_toma_root(), Plant::spec_toma_root()],
                seq![Plant::spec_potato(), Plant::spec_potato(), Plant::spec_durian(), Plant::spec_onion()],
                seq![Plant::spec_potato(), Plant::spec_potato(), Plant::spec_durian(), Plant::spec_pomegranate()],
                seq![Plant::spec_potato(), Plant::spec_potato(), Plant::spec_garlic(), Plant::spec_onion()],
                seq![Plant::spec_potato(), Plant::spec_potato(), Plant::spec_garlic(), Plant::spec_pomegranate()],
                seq![Plant::spec_toma_root(), Plant::spec_toma_root(), Plant::spec_potato(), Plant::spec_potato()],
                seq![Plant::spec_toma_root(), Plant::spec_toma_root(), Plant::spec_potato(), Plant::spec_eggplant()],
                seq![Plant::spec_toma_root(), Plant::spec_toma_root(), Plant::spec_eggplant(), Plant::spec_eggplant()],
                seq![Plant::spec_asparagus(), Plant::spec_asparagus(), Plant::spec_dragon_fruit(), Plant::spec_onion()],
                seq![Plant::spec_asparagus(), Plant::spec_asparagus(), Plant::spec_dragon_fruit(), Plant::spec_pomegranate()],
                seq![Plant::spec_eggplant(), Plant::spec_eggplant(), Plant::spec_toma_root(), Plant::spec_toma_root()],
                seq![Plant::spec_eggplant(), Plant::spec_eggplant(), Plant::spec_durian(), Plant::spec_onion()],
                seq![Plant::spec_eggplant(), Plant::spec_eggplant(), Plant::spec_durian(), Plant::spec_pomegranate()],
                seq![Plant::spec_eggplant(), Plant::spec_eggplant(), Plant::spec_garlic(), Plant::spec_onion()],
                seq![Plant::spec_eggplant(), Plant::spec_eggplant(), Plant::spec_garlic(), Plant::spec_pomegranate()],
                seq![Plant::spec_watermelon(), Plant::spec_watermelon(), Plant::spec_carrot(), Plant::spec_carrot()],
            ],
        ),
    }
}

/// The full recipe table: the recipes defined for a (season, ratio) cell,
/// or `None` where that cell has no recipes at all.
pub open spec fn combos_spec(season: Seasons, ratio: CropRatios) -> Option<Seq<Seq<Plant>>> {
    match ratio {
        CropRatios::OneOne => one_one_spec(season),
        CropRatios::OneOneOne => Some(one_one_one_spec(season)),
        CropRatios::TwoOne => two_one_spec(season),
        CropRatios::TwoOneOne => two_one_one_spec(season),
    }
}

/// A two-plant recipe as a vector.
fn recipe2(a: Plant, b: Plant) -> (r: Vec<Plant>)
    ensures
        r.deep_view() == seq![a, b],
{
    let mut v: Vec<Plant> = Vec::new();
    v.push(a);
    v.push(b);
    proof {
        assert(v.deep_view() =~= seq![a, b]);
    }
    v
}

/// A three-plant recipe as a vector.
fn recipe3(a: Plant, b: Plant, c: Plant) -> (r: Vec<Plant>)
    ensures
        r.deep_view() == seq![a, b, c],
{
    let mut v: Vec<Plant> = Vec::new();
    v.push(a);
    v.push(b);
    v.push(c);
    proof {
        assert(v.deep_view() =~= seq![a, b, c]);
    }
    v
}

/// A four-plant recipe as a vector.
fn recipe4(a: Plant, b: Plant, c: Plant, d: Plant) -> (r: Vec<Plant>)
    ensures
        r.deep_view() == seq![a, b, c, d],
{
    let mut v: Vec<Plant> = Vec::new();
    v.push(a);
    v.push(b);
    v.push(c);
    v.push(d);
    proof {
        assert(v.deep_view() =~= seq![a, b, c, d]);
    }
    v
}

/// The `1:1` table row for `season`, built to match `one_one_spec`.
fn one_one_lookup(season: &Seasons) -> (r: Option<Vec<Vec<Plant>>>)
    ensures
        r.deep_view() == one_one_spec(*season),
{
    match season {
        Seasons::Summer => None,
        Seasons::Winter => None,
        Seasons::Autumn => {
            let mut rows: Vec<Vec<Plant>> = Vec::new();
            rows.push(recipe2(Plant::toma_root(), Plant::eggplant()));
            rows.push(recipe2(Plant::toma_root(), Plant::potato()));
            proof {
                assert(rows.deep_view() =~~= one_one_spec(Seasons::Autumn)->0);
            }
            Some(rows)
        },
        Seasons::Spring => {
            let mut rows: Vec<Vec<Plant>> = Vec::new();
            rows.push(recipe2(Plant::carrot(), Plant::watermelon()));
            rows.push(recipe2(Plant::potato(), Plant::toma_root()));
            rows.push(recipe2(Plant::toma_root(), Plant::eggplant()));
            proof {
                assert(rows.deep_view() =~~= one_one_spec(Seasons::Spring)->0);
            }
            Some(rows)
        },
    }
}

/// The `1:1:1` table row for `season`, built to match `one_one_one_spec`.
fn one_one_one_lookup(season: &Seasons) -> (r: Vec<Vec<Plant>>)
    ensures
        r.deep_view() == one_one_one_spec(*season),
{
    match season {
        Seasons::Summer => {
            let mut rows: Vec<Vec<Plant>> = Vec::new();
            rows.push(recipe3(Plant::toma_root(), Plant::toma_root(), Plant::dragon_fruit()));
            rows.push(recipe3(Plant::toma_root(), Plant::toma_root(), Plant::pepper()));
            rows.push(recipe3(Plant::watermelon(), Plant::watermelon(), Plant::onion()));
            rows.push(recipe3(Plant::watermelon(), Plant::watermelon(), Plant::pomegranate()));
            rows.push(recipe3(Plant::dragon_fruit(), Plant::garlic(), Plant::onion()));
            rows.push(recipe3(Plant::dragon_fruit(), Plant::garlic(), Plant::pomegranate()));
            rows.push(recipe3(Plant::garlic(), Plant::onion(), Plant::pepper()));
            rows.push(recipe3(Plant::garlic(), Plant::pepper(), Plant::pomegranate()));
            proof {
                assert(rows.deep_view() =~~= one_one_one_spec(Seasons::Summer));
            }
            rows
        },
        Seasons::Winter => {
            let mut rows: Vec<Vec<Plant>> = Vec::new();
            rows.push(recipe3(Plant::carrot(), Plant::potato(), Plant::asparagus()));
            rows.push(recipe3(Plant::potato(), Plant::asparagus(), Plant::pumpkin()));
            proof {
                assert(rows.deep_view() =~~= one_one_one_spec(Seasons::Winter));
            }
            rows
        },
        Seasons::Autumn => {
            let mut rows: Vec<Vec<Plant>> = Vec::new();
            rows.push(recipe3(Plant::carrot(), Plant::corn(), Plant::potato()));
            rows.push(recipe3(Plant::carrot(), Plant::corn(), Plant::eggplant()));
            rows.push(recipe3(Plant::corn(), Plant::potato(), Plant::pumpkin()));
            rows.push(recipe3(Plant::corn(), Plant::eggplant(), Plant::pumpkin()));
            rows.push(recipe3(Plant::toma_root(), Plant::toma_root(), Plant::pepper()));
            rows.push(recipe3(Plant::garlic(), Plant::onion(), Plant::pepper()));
            proof {
                assert(rows.deep_view() =~~= one_one_one_spec(Seasons::Autumn));
            }
            rows
        },
        Seasons::Spring => {
            let mut rows: Vec<Vec<Plant>> = Vec::new();
            rows.push(recipe3(Plant::carrot(), Plant::corn(), Plant::potato()));
            rows.push(recipe3(Plant::carrot(), Plant::corn(), Plant::eggplant()));
            rows.push(recipe3(Plant::carrot(), Plant::potato(), Plant::asparagus()));
            rows.push(recipe3(Plant::carrot(), Plant::asparagus(), Plant::eggplant()));
            rows.push(recipe3(Plant::toma_root(), Plant::toma_root(), Plant::dragon_fruit()));
            rows.push(recipe3(Plant::watermelon(), Plant::watermelon(), Plant::onion()));
            rows.push(recipe3(Plant::watermelon(), Plant::watermelon(), Plant::pomegranate()));
            rows.push(recipe3(Plant::dragon_fruit(), Plant::durian(), Plant::onion()));
            rows.push(recipe3(Plant::dragon_fruit(), Plant::durian(), Plant::pomegranate()));
            rows.push(recipe3(Plant::dragon_fruit(), Plant::garlic(), Plant::onion()));
            rows.push(recipe3(Plant::dragon_fruit(), Plant::garlic(), Plant::pomegranate()));
            proof {
                assert(rows.deep_view() =~~= one_one_one_spec(Seasons::Spring));
            }
            rows
        },
    }
}

/// The `2:1` table row for `season`, built to match `two_one_spec`.
fn two_one_lookup(season: &Seasons) -> (r: Option<Vec<Vec<Plant>>>)
    ensures
        r.deep_view() == two_one_spec(*season),
{
    match season {
        Seasons::Summer => {
            let mut rows: Vec<Vec<Plant>> = Vec::new();
            rows.push(recipe3(Plant::toma_root(), Plant::toma_root(), Plant::dragon_fruit()));
            rows.push(recipe3(Plant::toma_root(), Plant::toma_root(), Plant::pepper()));
            rows.push(recipe3(Plant::watermelon(), Plant::watermelon(), Plant::onion()));
            rows.push(recipe3(Plant::watermelon(), Plant::watermelon(), Plant::pomegranate()));
            proof {
                assert(rows.deep_view() =~~= two_one_spec(Seasons::Summer)->0);
            }
            Some(rows)
        },
        Seasons::Winter => None,
        Seasons::Autumn => {
            let mut rows: Vec<Vec<Plant>> = Vec::new();
            rows.push(recipe3(Plant::toma_root(), Plant::toma_root(), Plant::pepper()));
            proof {
                assert(rows.deep_view() =~~= two_one_spec(Seasons::Autumn)->0);
            }
            Some(rows)
        },
        Seasons::Spring => {
            let mut rows: Vec<Vec<Plant>> = Vec::new();
            rows.push(recipe3(Plant::toma_root(), Plant::toma_root(), Plant::dragon_fruit()));
            rows.push(recipe3(Plant::watermelon(), Plant::watermelon(), Plant::onion()));
            rows.push(recipe3(Plant::watermelon(), Plant::watermelon(), Plant::pomegranate()));
            proof {
                assert(rows.deep_view() =~~= two_one_spec(Seasons::Spring)->0);
            }
            Some(rows)
        },
    }
}

/// The `2:1:1` table row for `season`, built to match `two_one_one_spec`.
fn two_one_one_lookup(season: &Seasons) -> (r: Option<Vec<Vec<Plant>>>)
    ensures
        r.deep_view() == two_one_one_spec(*season),
{
    match season {
        Seasons::Summer => {
            let mut rows: Vec<Vec<Plant>> = Vec::new();
            rows.push(recipe4(Plant::corn(), Plant::corn(), Plant::dragon_fruit(), Plant::onion()));
            rows.push(recipe4(Plant::corn(), Plant::corn(), Plant::dragon_fruit(), Plant::pomegranate()));
            rows.push(recipe4(Plant::corn(), Plant::corn(), Plant::onion(), Plant::pepper()));
            rows.push(recipe4(Plant::corn(), Plant::corn(), Plant::pepper(), Plant::pomegranate()));
            proof {
                assert(rows.deep_view() =~~= two_one_one_spec(Seasons::Summer)->0);
            }
            Some(rows)
        },
        Seasons::Winter => None,
        Seasons::Autumn => {
            let mut rows: Vec<Vec<Plant>> = Vec::new();
            rows.push(recipe4(Plant::carrot(), Plant::carrot(), Plant::garlic(), Plant::pepper()));
            rows.push(recipe4(Plant::corn(), Plant::corn(), Plant::onion(), Plant::pepper()));
            rows.push(recipe4(Plant::potato(), Plant::potato(), Plant::toma_root(), Plant::toma_root()));
            rows.push(recipe4(Plant::potato(), Plant::potato(), Plant::garlic(), Plant::onion()));
            rows.push(recipe4(Plant::toma_root(), Plant::toma_root(), Plant::potato(), Plant::potato()));
            rows.push(recipe4(Plant::toma_root(), Plant::toma_root(), Plant::potato(), Plant::eggplant()));
            rows.push(recipe4(Plant::toma_root(), Plant::toma_root(), Plant::eggplant(), Plant::eggplant()));
            rows.push(recipe4(Plant::eggplant(), Plant::eggplant(), Plant::toma_root(), Plant::toma_root()));
            rows.push(recipe4(Plant::eggplant(), Plant::eggplant(), Plant::garlic(), Plant::onion()));
            rows.push(recipe4(Plant::pumpkin(), Plant::pumpkin(), Plant::garlic(), Plant::pepper()));
            proof {
                assert(rows.deep_view() =~~= two_one_one_spec(Seasons::Autumn)->0);
            }
            Some(rows)
        },
        Seasons::Spring => {
            let mut rows: Vec<Vec<Plant>> = Vec::new();
            rows.push(recipe4(Plant::carrot(), Plant::carrot(), Plant::watermelon(), Plant::watermelon()));
            rows.push(recipe4(Plant::carrot(), Plant::carrot(), Plant::dragon_fruit(), Plant::durian()));
            rows.push(recipe4(Plant::carrot(), Plant::carrot(), Plant::dragon_fruit(), Plant::garlic()));
            rows.push(recipe4(Plant::corn(), Plant::corn(), Plant::dragon_fruit(), Plant::onion()));
            rows.push(recipe4(Plant::corn(), Plant::corn(), Plant::dragon_fruit(), Plant::pomegranate()));
            rows.push(recipe4(Plant::potato(), Plant::potato(), Plant::toma_root(), Plant::toma_root()));
            rows.push(recipe4(Plant::potato(), Plant::potato(), Plant::durian(), Plant::onion()));
            rows.push(recipe4(Plant::potato(), Plant::potato(), Plant::durian(), Plant::pomegranate()));
            rows.push(recipe4(Plant::potato(), Plant::potato(), Plant::garlic(), Plant::onion()));
            rows.push(recipe4(Plant::potato(), Plant::potato(), Plant::garlic(), Plant::pomegranate()));
            rows.push(recipe4(Plant::toma_root(), Plant::toma_root(), Plant::potato(), Plant::potato()));
            rows.push(recipe4(Plant::toma_root(), Plant::toma_root(), Plant::potato(), Plant::eggplant()));
            rows.push(recipe4(Plant::toma_root(), Plant::toma_root(), Plant::eggplant(), Plant::eggplant()));
            rows.push(recipe4(Plant::asparagus(), Plant::asparagus(), Plant::dragon_fruit(), Plant::onion()));
            rows.push(recipe4(Plant::asparagus(), Plant::asparagus(), Plant::dragon_fruit(), Plant::pomegranate()));
            rows.push(recipe4(Plant::eggplant(), Plant::eggplant(), Plant::toma_root(), Plant::toma_root()));
            rows.push(recipe4(Plant::eggplant(), Plant::eggplant(), Plant::durian(), Plant::onion()));
            rows.push(recipe4(Plant::eggplant(), Plant::eggplant(), Plant::durian(), Plant::pomegranate()));
            rows.push(recipe4(Plant::eggplant(), Plant::eggplant(), Plant::garlic(), Plant::onion()));
            rows.push(recipe4(Plant::eggplant(), Plant::eggplant(), Plant::garlic(), Plant::pomegranate()));
            rows.push(recipe4(Plant::watermelon(), Plant::watermelon(), Plant::carrot(), Plant::carrot()));
            proof {
                assert(rows.deep_view() =~~= two_one_one_spec(Seasons::Spring)->0);
            }
            Some(rows)
        },
    }
}

/// Returns the recipes for `(season, ratio)`: `None` where the table has no
/// entry for the pairing, otherwise the entry's recipes in their fixed order.
pub fn get_combos(season: &Seasons, ratio: &CropRatios) -> (r: Option<Vec<Vec<Plant>>>)
    ensures
        r.deep_view() == combos_spec(*season, *ratio),
{
    match ratio {
        CropRatios::OneOne => one_one_lookup(season),
        CropRatios::OneOneOne => Some(one_one_one_lookup(season)),
        CropRatios::TwoOne => two_one_lookup(season),
        CropRatios::TwoOneOne => two_one_one_lookup(season),
    }
}


/// The number of plants a recipe lists for `ratio`: two for `1:1`, three
/// for `1:1:1` and for `2:1` (the doubled plant is listed twice), four for
/// `2:1:1` (likewise).
pub open spec fn recipe_len(ratio: CropRatios) -> nat {
    match ratio {
        CropRatios::OneOne => 2,
        CropRatios::OneOneOne => 3,
        CropRatios::TwoOne => 3,
        CropRatios::TwoOneOne => 4,
    }
}

/// Law: every recipe the table lists for a ratio holds exactly that
/// ratio's number of plants, in every season.
#[verifier::rlimit(50)]
pub proof fn lemma_recipe_lengths(season: Seasons, ratio: CropRatios)
    ensures
        combos_spec(season, ratio) matches Some(rs) ==> forall|i: int|
            0 <= i < rs.len() ==> (#[trigger] rs[i]).len() == recipe_len(ratio),
{
    match ratio {
        CropRatios::OneOne => match season {
            Seasons::Summer => {},
            Seasons::Winter => {},
            Seasons::Autumn => {
                let rs = one_one_spec(Seasons::Autumn)->0;
                assert(rs.len() == 2);
                assert(rs[0].len() == 2);
                assert(rs[1].len() == 2);
                assert forall|i: int| 0 <= i < rs.len() implies (#[trigger] rs[i]).len()
                    == recipe_len(CropRatios::OneOne) by {
                    assert(rs.len() == 2);
                }
            },
            Seasons::Spring => {
                let rs = one_one_spec(Seasons::Spring)->0;
                assert(rs.len() == 3);
                assert(rs[0].len() == 2);
                assert(rs[1].len() == 2);
                assert(rs[2].len() == 2);
                assert forall|i: int| 0 <= i < rs.len() implies (#[trigger] rs[i]).len()
                    == recipe_len(CropRatios::OneOne) by {
                    assert(rs.len() == 3);
                }
            },
        },
        CropRatios::OneOneOne => match season {
            Seasons::Summer => {
                let rs = one_one_one_spec(Seasons::Summer);
                assert(rs.len() == 8);
                assert(rs[0].len() == 3);
                assert(rs[1].len() == 3);
                assert(rs[2].len() == 3);
                assert(rs[3].len() == 3);
                assert(rs[4].len() == 3);
                assert(rs[5].len() == 3);
                assert(rs[6].len() == 3);
                assert(rs[7].len() == 3);
                assert forall|i: int| 0 <= i < rs.len() implies (#[trigger] rs[i]).len()
                    == recipe_len(CropRatios::OneOneOne) by {
                    assert(rs.len() == 8);
                }
            },
            Seasons::Winter => {
                let rs = one_one_one_spec(Seasons::Winter);
                assert(rs.len() == 2);
                assert(rs[0].len() == 3);
                assert(rs[1].len() == 3);
                assert forall|i: int| 0 <= i < rs.len() implies (#[trigger] rs[i]).len()
                    == recipe_len(CropRatios::OneOneOne) by {
                    assert(rs.len() == 2);
                }
            },
            Seasons::Autumn => {
                let rs = one_one_one_spec(Seasons::Autumn);
                assert(rs.len() == 6);
                assert(rs[0].len() == 3);
                assert(rs[1].len() == 3);
                assert(rs[2].len() == 3);
                assert(rs[3].len() == 3);
                assert(rs[4].len() == 3);
                assert(rs[5].len() == 3);
                assert forall|i: int| 0 <= i < rs.len() implies (#[trigger] rs[i]).len()
                    == recipe_len(CropRatios::OneOneOne) by {
                    assert(rs.len() == 6);
                }
            },
            Seasons::Spring => {
                let rs = one_one_one_spec(Seasons::Spring);
                assert(rs.len() == 11);
                assert(rs[0].len() == 3);
                assert(rs[1].len() == 3);
                assert(rs[2].len() == 3);
                assert(rs[3].len() == 3);
                assert(rs[4].len() == 3);
                assert(rs[5].len() == 3);
                assert(rs[6].len() == 3);
                assert(rs[7].len() == 3);
                assert(rs[8].len() == 3);
                assert(rs[9].len() == 3);
                assert(rs[10].len() == 3);
                assert forall|i: int| 0 <= i < rs.len() implies (#[trigger] rs[i]).len()
                    == recipe_len(CropRatios::OneOneOne) by {
                    assert(rs.len() == 11);
                }
            },
        },
        CropRatios::TwoOne => match season {
            Seasons::Summer => {
                let rs = two_one_spec(Seasons::Summer)->0;
                assert(rs.len() == 4);
                assert(rs[0].len() == 3);
                assert(rs[1].len() == 3);
                assert(rs[2].len() == 3);
                assert(rs[3].len() == 3);
                assert forall|i: int| 0 <= i < rs.len() implies (#[trigger] rs[i]).len()
                    == recipe_len(CropRatios::TwoOne) by {
                    assert(rs.len() == 4);
                }
            },
            Seasons::Winter => {},
            Seasons::Autumn => {
                let rs = two_one_spec(Seasons::Autumn)->0;
                assert(rs.len() == 1);
                assert(rs[0].len() == 3);
                assert forall|i: int| 0 <= i < rs.len() implies (#[trigger] rs[i]).len()
                    == recipe_len(CropRatios::TwoOne) by {
                    assert(rs.len() == 1);
                }
            },
            Seasons::Spring => {
                let rs = two_one_spec(Seasons::Spring)->0;
                assert(rs.len() == 3);
                assert(rs[0].len() == 3);
                assert(rs[1].len() == 3);
                assert(rs[2].len() == 3);
                assert forall|i: int| 0 <= i < rs.len() implies (#[trigger] rs[i]).len()
                    == recipe_len(CropRatios::TwoOne) by {
                    assert(rs.len() == 3);
                }
            },
        },
        CropRatios::TwoOneOne => match season {
            Seasons::Summer => {
                let rs = two_one_one_spec(Seasons::Summer)->0;
                assert(rs.len() == 4);
                assert(rs[0].len() == 4);
                assert(rs[1].len() == 4);
                assert(rs[2].len() == 4);
                assert(rs[3].len() == 4);
                assert forall|i: int| 0 <= i < rs.len() implies (#[trigger] rs[i]).len()
                    == recipe_len(CropRatios::TwoOneOne) by {
                    assert(rs.len() == 4);
                }
            },
            Seasons::Winter => {},
            Seasons::Autumn => {
                let rs = two_one_one_spec(Seasons::Autumn)->0;
                assert(rs.len() == 10);
                assert(rs[0].len() == 4);
                assert(rs[1].len() == 4);
                assert(rs[2].len() == 4);
                assert(rs[3].len() == 4);
                assert(rs[4].len() == 4);
                assert(rs[5].len() == 4);
                assert(rs[6].len() == 4);
                assert(rs[7].len() == 4);
                assert(rs[8].len() == 4);
                assert(rs[9].len() == 4);
                assert forall|i: int| 0 <= i < rs.len() implies (#[trigger] rs[i]).len()
                    == recipe_len(CropRatios::TwoOneOne) by {
                    assert(rs.len() == 10);
                }
            },
            Seasons::Spring => {
                let rs = two_one_one_spec(Seasons::Spring)->0;
                assert(rs.len() == 21);
                assert(rs[0].len() == 4);
                assert(rs[1].len() == 4);
                assert(rs[2].len() == 4);
                assert(rs[3].len() == 4);
                assert(rs[4].len() == 4);
                assert(rs[5].len() == 4);
                assert(rs[6].len() == 4);
                assert(rs[7].len() == 4);
                assert(rs[8].len() == 4);
                assert(rs[9].len() == 4);
                assert(rs[10].len() == 4);
                assert(rs[11].len() == 4);
                assert(rs[12].len() == 4);
                assert(rs[13].len() == 4);
                assert(rs[14].len() == 4);
                assert(rs[15].len() == 4);
                assert(rs[16].len() == 4);
                assert(rs[17].len() == 4);
                assert(rs[18].len() == 4);
                assert(rs[19].len() == 4);
                assert(rs[20].len() == 4);
                assert forall|i: int| 0 <= i < rs.len() implies (#[trigger] rs[i]).len()
                    == recipe_len(CropRatios::TwoOneOne) by {
                    assert(rs.len() == 21);
                }
            },
        },
    }
}

/// Law: the lookup is deterministic. Any two results returned for the same
/// (season, ratio) pair are identical, same recipes in the same order.
pub proof fn lemma_lookup_idempotent(
    season: Seasons,
    ratio: CropRatios,
    r1: Option<Vec<Vec<Plant>>>,
    r2: Option<Vec<Vec<Plant>>>,
)
    requires
        r1.deep_view() == combos_spec(season, ratio),
        r2.deep_view() == combos_spec(season, ratio),
    ensures
        r1.deep_view() == r2.deep_view(),
{
}


} // verus!

use crop_combos::lookup::get_combos;
use crop_combos::plant::CropRatios;
use crop_combos::plant::Plant;
use crop_combos::plant::Seasons;

const SEASONS: [Seasons; 4] = [
    Seasons::Autumn,
    Seasons::Winter,
    Seasons::Spring,
    Seasons::Summer,
];

const RATIOS: [CropRatios; 4] = [
    CropRatios::OneOneOne,
    CropRatios::OneOne,
    CropRatios::TwoOne,
    CropRatios::TwoOneOne,
];

#[test]
fn summer_one_one_is_absent() {
    assert!(get_combos(&Seasons::Summer, &CropRatios::OneOne).is_none());
}

#[test]
fn autumn_one_one_recipes() {
    let recipes = get_combos(&Seasons::Autumn, &CropRatios::OneOne).unwrap();
    assert_eq!(recipes.len(), 2);
    assert_eq!(recipes[0], vec![Plant::toma_root(), Plant::eggplant()]);
    assert_eq!(recipes[1], vec![Plant::toma_root(), Plant::potato()]);
}

#[test]
fn summer_two_one_one_recipes() {
    let recipes = get_combos(&Seasons::Summer, &CropRatios::TwoOneOne).unwrap();
    assert_eq!(recipes.len(), 4);
    for recipe in &recipes {
        assert_eq!(recipe.len(), 4);
        assert_eq!(recipe[0], Plant::corn());
        assert_eq!(recipe[1], Plant::corn());
    }
    assert_eq!(
        recipes[0],
        vec![Plant::corn(), Plant::corn(), Plant::dragon_fruit(), Plant::onion()]
    );
    assert_eq!(
        recipes[1],
        vec![Plant::corn(), Plant::corn(), Plant::dragon_fruit(), Plant::pomegranate()]
    );
    assert_eq!(
        recipes[2],
        vec![Plant::corn(), Plant::corn(), Plant::onion(), Plant::pepper()]
    );
    assert_eq!(
        recipes[3],
        vec![Plant::corn(), Plant::corn(), Plant::pepper(), Plant::pomegranate()]
    );
}

#[test]
fn winter_has_recipes_only_for_one_one_one() {
    assert!(get_combos(&Seasons::Winter, &CropRatios::OneOne).is_none());
    assert!(get_combos(&Seasons::Winter, &CropRatios::TwoOne).is_none());
    assert!(get_combos(&Seasons::Winter, &CropRatios::TwoOneOne).is_none());

    let recipes = get_combos(&Seasons::Winter, &CropRatios::OneOneOne).unwrap();
    assert_eq!(recipes.len(), 2);
    assert_eq!(
        recipes[0],
        vec![Plant::carrot(), Plant::potato(), Plant::asparagus()]
    );
    assert_eq!(
        recipes[1],
        vec![Plant::potato(), Plant::asparagus(), Plant::pumpkin()]
    );
}

#[test]
fn one_one_one_is_defined_for_every_season() {
    for season in SEASONS {
        assert!(get_combos(&season, &CropRatios::OneOneOne).is_some());
    }
}

#[test]
fn recipe_counts_per_cell() {
    let count = |season: &Seasons, ratio: &CropRatios| {
        get_combos(season, ratio).map_or(0, |recipes| recipes.len())
    };

    assert_eq!(count(&Seasons::Summer, &CropRatios::OneOneOne), 8);
    assert_eq!(count(&Seasons::Winter, &CropRatios::OneOneOne), 2);
    assert_eq!(count(&Seasons::Autumn, &CropRatios::OneOneOne), 6);
    assert_eq!(count(&Seasons::Spring, &CropRatios::OneOneOne), 11);

    assert_eq!(count(&Seasons::Summer, &CropRatios::OneOne), 0);
    assert_eq!(count(&Seasons::Winter, &CropRatios::OneOne), 0);
    assert_eq!(count(&Seasons::Autumn, &CropRatios::OneOne), 2);
    assert_eq!(count(&Seasons::Spring, &CropRatios::OneOne), 3);

    assert_eq!(count(&Seasons::Summer, &CropRatios::TwoOne), 4);
    assert_eq!(count(&Seasons::Winter, &CropRatios::TwoOne), 0);
    assert_eq!(count(&Seasons::Autumn, &CropRatios::TwoOne), 1);
    assert_eq!(count(&Seasons::Spring, &CropRatios::TwoOne), 3);

    assert_eq!(count(&Seasons::Summer, &CropRatios::TwoOneOne), 4);
    assert_eq!(count(&Seasons::Winter, &CropRatios::TwoOneOne), 0);
    assert_eq!(count(&Seasons::Autumn, &CropRatios::TwoOneOne), 10);
    assert_eq!(count(&Seasons::Spring, &CropRatios::TwoOneOne), 21);
}

#[test]
fn recipe_lengths_match_the_ratio() {
    for season in SEASONS {
        for ratio in RATIOS {
            let expected = match ratio {
                CropRatios::OneOne => 2,
                CropRatios::OneOneOne => 3,
                CropRatios::TwoOne => 3,
                CropRatios::TwoOneOne => 4,
            };
            if let Some(recipes) = get_combos(&season, &ratio) {
                for recipe in &recipes {
                    assert_eq!(recipe.len(), expected);
                }
            }
        }
    }
}

#[test]
fn lookup_is_idempotent() {
    for season in SEASONS {
        for ratio in RATIOS {
            let first = get_combos(&season, &ratio);
            let second = get_combos(&season, &ratio);
            assert_eq!(first, second);
        }
    }
}

#[test]
fn two_one_recipes_double_the_first_plant() {
    for season in SEASONS {
        if let Some(recipes) = get_combos(&season, &CropRatios::TwoOne) {
            for recipe in &recipes {
                assert_eq!(recipe[0], recipe[1]);
            }
        }
    }
}

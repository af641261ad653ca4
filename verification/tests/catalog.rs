use crop_combos::plant::CropRatios;
use crop_combos::plant::FarmSize;
use crop_combos::plant::ParseError;
use crop_combos::plant::Plant;
use crop_combos::plant::Seasons;
use crop_combos::plant::all_plants;
use crop_combos::plant::parse_crop_ratio;
use crop_combos::plant::parse_season;

#[test]
fn catalog_has_fourteen_plants() {
    assert_eq!(all_plants().len(), 14);
}

#[test]
fn catalog_names_are_unique() {
    let plants = all_plants();
    for i in 0..plants.len() {
        for j in 0..plants.len() {
            if i != j {
                assert_ne!(plants[i].name, plants[j].name);
            }
        }
    }
}

#[test]
fn catalog_abbreviations_are_unique() {
    let plants = all_plants();
    for i in 0..plants.len() {
        for j in 0..plants.len() {
            if i != j {
                assert_ne!(plants[i].abbrev, plants[j].abbrev);
            }
        }
    }
}

#[test]
fn carrot_attributes() {
    let carrot = Plant::carrot();
    assert_eq!(carrot.name, "Carrot");
    assert_eq!(carrot.abbrev, "Ct");
    assert_eq!(carrot.formula, -4);
    assert_eq!(carrot.compost, 2);
    assert_eq!(carrot.manure, 2);
    assert_eq!(carrot.color, 208);
    assert!(carrot.in_season(&Seasons::Autumn));
    assert!(carrot.in_season(&Seasons::Winter));
    assert!(carrot.in_season(&Seasons::Spring));
    assert!(!carrot.in_season(&Seasons::Summer));
}

#[test]
fn garlic_is_available_all_year() {
    let garlic = Plant::garlic();
    assert!(garlic.in_season(&Seasons::Autumn));
    assert!(garlic.in_season(&Seasons::Winter));
    assert!(garlic.in_season(&Seasons::Spring));
    assert!(garlic.in_season(&Seasons::Summer));
}

#[test]
fn parse_season_round_trips_all_tokens() {
    assert_eq!(parse_season("Autumn"), Ok(Seasons::Autumn));
    assert_eq!(parse_season("Winter"), Ok(Seasons::Winter));
    assert_eq!(parse_season("Spring"), Ok(Seasons::Spring));
    assert_eq!(parse_season("Summer"), Ok(Seasons::Summer));
}

#[test]
fn parse_season_rejects_unknown_tokens() {
    for bad in ["", "autumn", "SUMMER", " Spring", "Winter ", "Sprin", "Fall", "1:1"] {
        assert_eq!(
            parse_season(bad),
            Err(ParseError::UnknownSeasonToken(bad.to_owned()))
        );
    }
}

#[test]
fn parse_season_error_carries_the_token() {
    let err = parse_season("Sommer").unwrap_err();
    assert_eq!(err.token(), "Sommer");
    assert!(matches!(err, ParseError::UnknownSeasonToken(_)));
}

#[test]
fn parse_crop_ratio_round_trips_all_tokens() {
    assert_eq!(parse_crop_ratio("1:1:1"), Ok(CropRatios::OneOneOne));
    assert_eq!(parse_crop_ratio("1:1"), Ok(CropRatios::OneOne));
    assert_eq!(parse_crop_ratio("2:1"), Ok(CropRatios::TwoOne));
    assert_eq!(parse_crop_ratio("2:1:1"), Ok(CropRatios::TwoOneOne));
}

#[test]
fn parse_crop_ratio_rejects_unknown_tokens() {
    for bad in ["", "1:2", "2:2", "1:1:1:1", "1 : 1", "11", "Spring"] {
        assert_eq!(
            parse_crop_ratio(bad),
            Err(ParseError::UnknownRatioToken(bad.to_owned()))
        );
    }
}

#[test]
fn parse_crop_ratio_error_carries_the_token() {
    let err = parse_crop_ratio("3:1").unwrap_err();
    assert_eq!(err.token(), "3:1");
    assert!(matches!(err, ParseError::UnknownRatioToken(_)));
}

#[test]
fn min_seeds_per_crop_type() {
    assert_eq!(CropRatios::OneOne.get_min_seeds_per_crop(), 4);
    assert_eq!(CropRatios::OneOneOne.get_min_seeds_per_crop(), 12);
    assert_eq!(CropRatios::TwoOne.get_min_seeds_per_crop(), 6);
    assert_eq!(CropRatios::TwoOneOne.get_min_seeds_per_crop(), 8);
}

#[test]
fn filled_sizes_on_a_ten_by_ten_farm() {
    let farm = FarmSize { width: 10, height: 10 };

    assert_eq!(CropRatios::OneOne.get_filled_size_horizontal(&farm), 10);
    assert_eq!(CropRatios::OneOne.get_filled_size_vertical(&farm), 10);
    assert_eq!(CropRatios::OneOne.get_filled_size(&farm), 100);

    assert_eq!(CropRatios::OneOneOne.get_filled_size_horizontal(&farm), 5);
    assert_eq!(CropRatios::OneOneOne.get_filled_size_vertical(&farm), 5);
    assert_eq!(CropRatios::OneOneOne.get_filled_size(&farm), 25);

    assert_eq!(CropRatios::TwoOne.get_filled_size_horizontal(&farm), 5);
    assert_eq!(CropRatios::TwoOne.get_filled_size_vertical(&farm), 10);
    assert_eq!(CropRatios::TwoOne.get_filled_size(&farm), 50);

    assert_eq!(CropRatios::TwoOneOne.get_filled_size_horizontal(&farm), 5);
    assert_eq!(CropRatios::TwoOneOne.get_filled_size_vertical(&farm), 5);
    assert_eq!(CropRatios::TwoOneOne.get_filled_size(&farm), 25);
}

#[test]
fn filled_sizes_floor_odd_dimensions() {
    let farm = FarmSize { width: 11, height: 7 };
    assert_eq!(CropRatios::OneOneOne.get_filled_size_horizontal(&farm), 5);
    assert_eq!(CropRatios::OneOneOne.get_filled_size_vertical(&farm), 3);
    assert_eq!(CropRatios::OneOneOne.get_filled_size(&farm), 15);
    assert_eq!(CropRatios::TwoOne.get_filled_size(&farm), 35);
}

#[test]
fn filled_size_at_the_largest_farm_that_fits() {
    let farm = FarmSize { width: 255, height: 257 };
    assert_eq!(CropRatios::OneOne.get_filled_size(&farm), 65535);
}

use fin_engine::{Amount, Housing, HousingMarket, HousingType, LocationQuality};

#[test]
fn test_housing_costs() {
    let housing = Housing {
        id: "test1".to_string(),
        housing_type: HousingType::OneBedroom,
        location: LocationQuality::Average,
        address: "Test Street".to_string(),
        monthly_cost: Amount::from_i64(15000),
        monthly_utilities: Amount::from_i64(3000),
    };

    assert_eq!(housing.total_monthly_cost(), Amount::from_i64(18000));
    assert_eq!(housing.moving_cost(), Amount::from_i64(31500)); // 2 months deposit + 1500 moving
}

#[test]
fn test_location_happiness() {
    assert_eq!(LocationQuality::Poor.happiness_impact(), -2);
    assert_eq!(LocationQuality::Premium.happiness_impact(), 2);
}

#[test]
fn test_generate_czech_housing() {
    let options = HousingMarket::generate_czech_housing();
    assert!(!options.is_empty());

    // Should have a range of prices
    let mut min_cost = options[0].total_monthly_cost();
    let mut max_cost = options[0].total_monthly_cost();
    for option in options.iter() {
        let cost = option.total_monthly_cost();
        if cost.lt(&min_cost) {
            min_cost = cost;
        }
        if cost.gt(&max_cost) {
            max_cost = cost;
        }
    }

    assert!(min_cost.lt(&Amount::from_i64(10000))); // Cheap options available
    assert!(max_cost.gt(&Amount::from_i64(40000))); // Expensive options available
}

#[test]
fn the_czech_market_lists_ten_homes() {
    let options = HousingMarket::generate_czech_housing();
    assert_eq!(options.len(), 10);
    assert_eq!(options[0].id, "cz_shared_poor_1");
    assert_eq!(options[0].address, "Shared room, Černý Most");
    assert_eq!(options[0].housing_type, HousingType::Shared);
    assert_eq!(options[0].location, LocationQuality::Poor);
    assert_eq!(options[0].monthly_cost, Amount::from_i64(4000));
    assert_eq!(options[0].monthly_utilities, Amount::from_i64(1000));
    assert_eq!(options[4].id, "cz_1bed_avg_1");
    assert_eq!(options[4].total_monthly_cost(), Amount::from_i64(16000));
    assert_eq!(options[9].id, "cz_house_prem_1");
    assert_eq!(options[9].housing_type, HousingType::House);
    assert_eq!(options[9].moving_cost(), Amount::from_i64(101500));
    assert_eq!(options[9].checked_moving_cost(), Some(Amount::from_i64(101500)));
}

#[test]
fn kinds_and_locations_have_their_names() {
    assert_eq!(HousingType::Shared.name(), "Shared Apartment");
    assert_eq!(HousingType::Studio.name(), "Studio");
    assert_eq!(HousingType::OneBedroom.name(), "1 Bedroom");
    assert_eq!(HousingType::TwoBedroom.name(), "2 Bedroom");
    assert_eq!(HousingType::ThreeBedroom.name(), "3 Bedroom");
    assert_eq!(HousingType::House.name(), "House");
    assert_eq!(LocationQuality::Poor.name(), "Outskirts");
    assert_eq!(LocationQuality::Average.name(), "Suburbs");
    assert_eq!(LocationQuality::Good.name(), "Good Area");
    assert_eq!(LocationQuality::Premium.name(), "City Center");
    assert_eq!(LocationQuality::Average.happiness_impact(), 0);
    assert_eq!(LocationQuality::Good.happiness_impact(), 1);
}

#[test]
fn a_moving_cost_beyond_the_range_is_not_computed() {
    let home = Housing {
        id: "h".to_string(),
        housing_type: HousingType::House,
        location: LocationQuality::Premium,
        address: "Far".to_string(),
        monthly_cost: Amount::from_parts(60_000_000_000_000_000_000_000_000_000, 0).unwrap(),
        monthly_utilities: Amount::zero(),
    };
    assert_eq!(home.checked_moving_cost(), None);
}

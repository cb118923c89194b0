use fin_engine::{Amount, Currency, CzechMarket, MarketProfile, TimeSpan, UkMarket, UsaMarket};

#[test]
fn test_currency() {
    let market = CzechMarket::new();
    assert_eq!(market.currency(), Currency::CZK);
}

#[test]
fn test_income_tax_calculation() {
    let market = CzechMarket::new();
    let gross = Amount::from_i64(50000); // 50,000 CZK monthly

    let result = market.calculate_income_tax(gross).unwrap();

    // Expected: 7.1% social + 4.5% health + 15% income tax
    assert!(result.social_insurance.gt(&Amount::zero()));
    assert!(result.health_insurance.gt(&Amount::zero()));
    assert!(result.income_tax.gt(&Amount::zero()));
    assert_eq!(
        result.total,
        result.income_tax.plus(result.social_insurance).plus(result.health_insurance)
    );
}

#[test]
fn test_capital_gains_three_year_exemption() {
    let market = CzechMarket::new();
    let gain = Amount::from_i64(100000);

    // Less than 3 years - should have tax
    let short_period = TimeSpan::from_secs(2 * 365 * 24 * 60 * 60);
    let tax_short = market.capital_gains_tax(short_period, gain).unwrap();
    assert!(tax_short.gt(&Amount::zero()));

    // 3+ years - should be exempt
    let long_period = TimeSpan::from_secs(3 * 365 * 24 * 60 * 60);
    let tax_long = market.capital_gains_tax(long_period, gain).unwrap();
    assert_eq!(tax_long, Amount::zero());
}

#[test]
fn test_available_accounts() {
    let market = CzechMarket::new();
    let accounts = market.available_accounts();

    assert_eq!(accounts.len(), 3);
    assert!(accounts.iter().any(|a| a.id == "dip"));
    assert!(accounts.iter().any(|a| a.id == "third_pillar"));
    assert!(accounts.iter().any(|a| a.id == "stavebni_sporeni"));
}

#[test]
fn the_czech_breakdown_is_exact() {
    let market = CzechMarket::default();
    let result = market.calculate_income_tax(Amount::from_i64(40000)).unwrap();
    assert_eq!(result.social_insurance, Amount::from_i64(2840));
    assert_eq!(result.health_insurance, Amount::from_i64(1800));
    assert_eq!(result.income_tax, Amount::from_i64(6000));
    assert_eq!(result.total, Amount::from_i64(10640));
    let odd = market.calculate_income_tax(Amount::new(3333333, 2)).unwrap();
    assert_eq!(odd.social_insurance, Amount::new(236666643, 5));
    assert_eq!(odd.health_insurance, Amount::new(149999985, 5));
    assert_eq!(odd.income_tax, Amount::new(49999995, 4));
    assert_eq!(odd.total, Amount::new(886666578, 5));
}

#[test]
fn an_income_beyond_the_range_is_refused_by_the_czech_rules() {
    let market = CzechMarket::new();
    let huge = Amount::from_parts(70_000_000_000_000_000_000_000_000_000, 0).unwrap();
    assert_eq!(
        market.calculate_income_tax(huge).unwrap_err(),
        "Income out of range for the Czech tax rates"
    );
    // Components that cannot be written with 28 places are rounded.
    let fine = Amount::from_parts(1, 26).unwrap();
    let rounded = market.calculate_income_tax(fine).unwrap();
    assert_eq!(rounded.social_insurance, Amount::from_parts(7, 28).unwrap());
    assert_eq!(rounded.health_insurance, Amount::from_parts(4, 28).unwrap());
    assert_eq!(rounded.income_tax, Amount::from_parts(15, 28).unwrap());
    assert_eq!(rounded.total, Amount::from_parts(26, 28).unwrap());
    let finer = Amount::from_parts(1, 28).unwrap();
    assert_eq!(
        market.capital_gains_tax(TimeSpan::from_secs(0), finer).unwrap(),
        Amount::zero()
    );
    assert_eq!(
        market.capital_gains_tax(TimeSpan::from_secs(0), huge).unwrap(),
        Amount::from_parts(10_500_000_000_000_000_000_000_000_000, 0).unwrap()
    );
}

#[test]
fn short_held_gains_are_taxed_at_fifteen_percent() {
    let market = CzechMarket::new();
    let just_short = TimeSpan::from_secs(94_607_999);
    assert_eq!(
        market.capital_gains_tax(just_short, Amount::from_i64(100000)).unwrap(),
        Amount::from_i64(15000)
    );
    assert_eq!(
        market.capital_gains_tax(just_short, Amount::from_i64(-200)).unwrap(),
        Amount::from_i64(-30)
    );
    let exempt = TimeSpan::from_secs(94_608_000);
    assert_eq!(
        market.capital_gains_tax(exempt, Amount::from_i64(100000)).unwrap(),
        Amount::zero()
    );
}

#[test]
fn the_czech_market_describes_itself() {
    let market = CzechMarket::new();
    assert_eq!(market.retirement_age(), 65);
    assert_eq!(market.market_id(), "czech");
    assert_eq!(market.market_name(), "Czech Republic");
    assert_eq!(market.currency().symbol(), "Kč");
    assert_eq!(market.currency().minor_units(), 2);
    let accounts = market.available_accounts();
    assert_eq!(accounts[0].name, "DIP (Doplňkové penzijní spoření)");
    assert_eq!(accounts[0].annual_limit, Some(Amount::from_i64(48000)));
    assert!(accounts[0].employer_match);
    assert_eq!(accounts[1].annual_limit, Some(Amount::from_i64(24000)));
    assert!(!accounts[1].employer_match);
    assert_eq!(accounts[2].name, "Stavební spoření");
    assert_eq!(accounts[2].annual_limit, Some(Amount::from_i64(20000)));
}

#[test]
fn markets_without_rules_say_so() {
    let usa = UsaMarket::new();
    assert_eq!(
        usa.calculate_income_tax(Amount::from_i64(1000)).unwrap_err(),
        "USA market not yet implemented"
    );
    assert_eq!(
        usa.capital_gains_tax(TimeSpan::from_secs(1), Amount::from_i64(1)).unwrap_err(),
        "USA market not yet implemented"
    );
    assert!(usa.available_accounts().is_empty());
    assert_eq!(usa.currency(), Currency::USD);
    assert_eq!(usa.retirement_age(), 67);
    assert_eq!(usa.market_id(), "usa");
    assert_eq!(usa.market_name(), "United States");
    let uk = UkMarket::default();
    assert_eq!(
        uk.calculate_income_tax(Amount::from_i64(1000)).unwrap_err(),
        "UK market not yet implemented"
    );
    assert_eq!(
        uk.capital_gains_tax(TimeSpan::from_secs(1), Amount::from_i64(1)).unwrap_err(),
        "UK market not yet implemented"
    );
    assert!(uk.available_accounts().is_empty());
    assert_eq!(uk.currency(), Currency::GBP);
    assert_eq!(uk.retirement_age(), 66);
    assert_eq!(uk.market_id(), "uk");
    assert_eq!(uk.market_name(), "United Kingdom");
    assert_eq!(Currency::USD.symbol(), "$");
    assert_eq!(Currency::GBP.symbol(), "£");
    assert_eq!(Currency::EUR.symbol(), "€");
}

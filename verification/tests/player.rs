use fin_engine::{Amount, PlayerStats};

#[test]
fn test_player_creation() {
    let player = PlayerStats::new(25, Some("Alice".to_string()));
    assert_eq!(player.age, 25);
    assert_eq!(player.name, Some("Alice".to_string()));
    assert_eq!(player.happiness, 70);
    assert_eq!(player.burnout, 20);
}

#[test]
fn test_happiness_adjustment() {
    let mut player = PlayerStats::new(25, None);
    player.adjust_happiness(20);
    assert_eq!(player.happiness, 90);

    player.adjust_happiness(-100);
    assert_eq!(player.happiness, 0); // Clamped

    player.adjust_happiness(127); // Max i8 value
    assert_eq!(player.happiness, 100); // Clamped
}

#[test]
fn test_financial_peace_score() {
    let mut player = PlayerStats::new(25, None);
    player.happiness = 80;
    player.burnout = 20;
    // (80 + (100-20)) / 2 = 160 / 2 = 80
    assert_eq!(player.financial_peace_score(), 80);
}

#[test]
fn test_revenge_spending_risk() {
    let mut player = PlayerStats::new(25, None);
    player.happiness = 50;
    player.burnout = 30;
    assert!(!player.is_revenge_spending_risk());

    player.happiness = 35;
    assert!(player.is_revenge_spending_risk());

    player.happiness = 50;
    player.burnout = 75;
    assert!(player.is_revenge_spending_risk());
}

#[test]
fn test_human_capital() {
    let mut player = PlayerStats::new(25, None);
    player.invest_human_capital(Amount::from_i64(50000));
    assert_eq!(player.human_capital_invested, Amount::from_i64(50000));

    let multiplier = player.human_capital_income_multiplier();
    assert_eq!(multiplier, Amount::new(105, 2)); // 50k = 0.5 units = 5% increase
}

#[test]
fn burnout_is_clamped_at_both_ends() {
    let mut player = PlayerStats::new(40, None);
    player.adjust_burnout(-128);
    assert_eq!(player.burnout, 0);
    player.adjust_burnout(127);
    assert_eq!(player.burnout, 100);
    player.adjust_burnout(-30);
    assert_eq!(player.burnout, 70);
    assert!(!player.is_revenge_spending_risk());
    player.adjust_burnout(1);
    assert!(player.is_revenge_spending_risk());
    player.happiness = 255;
    player.adjust_happiness(-128);
    assert_eq!(player.happiness, 100);
}

#[test]
fn the_peace_score_rounds_down() {
    let mut player = PlayerStats::new(40, None);
    player.happiness = 71;
    player.burnout = 20;
    assert_eq!(player.financial_peace_score(), 75);
    player.happiness = 0;
    player.burnout = 100;
    assert_eq!(player.financial_peace_score(), 0);
    player.happiness = 100;
    player.burnout = 0;
    assert_eq!(player.financial_peace_score(), 100);
}

#[test]
fn the_income_multiplier_grows_linearly() {
    let mut player = PlayerStats::new(30, None);
    assert_eq!(player.human_capital_income_multiplier(), Amount::from_i64(1));
    player.invest_human_capital(Amount::from_i64(100000));
    assert_eq!(player.human_capital_income_multiplier(), Amount::new(11, 1));
    player.invest_human_capital(Amount::from_i64(100000));
    assert_eq!(player.human_capital_income_multiplier(), Amount::new(12, 1));
    assert_eq!(
        player.checked_human_capital_income_multiplier(),
        Some(Amount::new(12, 1))
    );
    assert_eq!(PlayerStats::multiplier_for(Amount::from_i64(3)), Amount::new(13, 1));
    player.age_one_year();
    assert_eq!(player.age, 31);
}

#[test]
fn the_income_multiplier_is_rounded_where_the_places_run_out() {
    let mut player = PlayerStats::new(30, None);
    player.invest_human_capital(fin_engine::Amount::from_parts(1, 28).unwrap());
    let multiplier = player.human_capital_income_multiplier();
    assert_eq!(player.checked_human_capital_income_multiplier(), Some(multiplier));
    let units = Amount::from_i64(1).checked_div(Amount::from_i64(3)).unwrap();
    let third = PlayerStats::multiplier_for(units);
    assert_eq!(PlayerStats::checked_multiplier_for(units), Some(third));
    assert_eq!(
        (third.mantissa(), third.scale()),
        (10_333_333_333_333_333_333_333_333_333, 28)
    );
    let huge = Amount::from_parts(79_228_162_514_264_337_593_543_950_335, 0).unwrap();
    assert_eq!(PlayerStats::checked_multiplier_for(huge), None);
}

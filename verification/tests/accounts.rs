use fin_engine::{Account, AccountKind, Amount, Asset, AssetCategory, Timestamp};

#[test]
fn test_account_creation() {
    let account = Account::new(
        "acc1".to_string(),
        "Emergency Fund".to_string(),
        AccountKind::EmergencyFund,
    );
    assert_eq!(account.balance, Amount::zero());
    assert_eq!(account.total_contributions, Amount::zero());
}

#[test]
fn test_account_deposit_withdraw() {
    let mut account = Account::new(
        "acc1".to_string(),
        "Savings".to_string(),
        AccountKind::Taxable,
    );

    account.deposit(Amount::from_i64(1000)).unwrap();
    assert_eq!(account.balance, Amount::from_i64(1000));
    assert_eq!(account.total_contributions, Amount::from_i64(1000));

    account.withdraw(Amount::from_i64(300)).unwrap();
    assert_eq!(account.balance, Amount::from_i64(700));
    assert_eq!(account.total_withdrawals, Amount::from_i64(300));

    // Should fail - insufficient funds
    assert!(account.withdraw(Amount::from_i64(800)).is_err());
}

#[test]
fn test_capital_gain() {
    let mut account = Account::new(
        "acc1".to_string(),
        "Brokerage".to_string(),
        AccountKind::Taxable,
    );

    account.deposit(Amount::from_i64(1000)).unwrap();
    account.apply_return(Amount::new(10, 2)); // 10% return

    let gain = account.capital_gain();
    assert_eq!(gain, Amount::from_i64(100)); // Gained 100
}

#[test]
fn test_asset_depreciation() {
    let mut car = Asset::new(
        "car1".to_string(),
        "Honda Civic".to_string(),
        AssetCategory::Vehicle,
        Amount::from_i64(300000),
        Amount::from_i64(5000),
    );

    assert_eq!(car.value, Amount::from_i64(300000));

    // Depreciate by 10%
    car.depreciate(Amount::new(-10, 2));
    assert_eq!(car.value, Amount::from_i64(270000));

    let loss = car.capital_gain();
    assert_eq!(loss, Amount::from_i64(-30000));
}

#[test]
fn deposit_of_a_positive_amount_raises_balance_and_contributions() {
    let mut account = Account::new("a".to_string(), "A".to_string(), AccountKind::Taxable);
    account.deposit(Amount::new(12345, 2)).unwrap();
    account.deposit(Amount::new(5, 1)).unwrap();
    assert_eq!(account.balance, Amount::new(12395, 2));
    assert_eq!(account.total_contributions, Amount::new(12395, 2));
    assert_eq!(account.total_withdrawals, Amount::zero());
}

#[test]
fn deposit_of_zero_or_less_is_refused_and_changes_nothing() {
    let mut account = Account::new("a".to_string(), "A".to_string(), AccountKind::Taxable);
    account.deposit(Amount::from_i64(50)).unwrap();
    let before = account.clone();
    assert_eq!(
        account.deposit(Amount::zero()),
        Err("Deposit amount must be positive".to_string())
    );
    assert_eq!(
        account.deposit(Amount::from_i64(-1)),
        Err("Deposit amount must be positive".to_string())
    );
    assert_eq!(account, before);
}

#[test]
fn withdrawal_errors_name_their_cause_and_change_nothing() {
    let mut account = Account::new("a".to_string(), "A".to_string(), AccountKind::Taxable);
    account.deposit(Amount::from_i64(100)).unwrap();
    let before = account.clone();
    assert_eq!(
        account.withdraw(Amount::zero()),
        Err("Withdrawal amount must be positive".to_string())
    );
    assert_eq!(
        account.withdraw(Amount::new(10001, 2)),
        Err("Insufficient funds".to_string())
    );
    assert_eq!(account, before);
    // The whole balance can be taken out.
    account.withdraw(Amount::from_i64(100)).unwrap();
    assert_eq!(account.balance, Amount::zero());
    assert_eq!(account.total_withdrawals, Amount::from_i64(100));
    assert_eq!(account.total_contributions, Amount::from_i64(100));
}

#[test]
fn holding_period_counts_from_the_opening() {
    let opened = Timestamp::new(1_000, 500_000_000).unwrap();
    let account = Account::opened(
        "a".to_string(),
        "A".to_string(),
        AccountKind::Retirement { account_type_id: "dip".to_string() },
        opened,
    );
    let later = Timestamp::new(1_010, 250_000_000).unwrap();
    let span = account.holding_period_at(&later);
    assert_eq!(span.as_secs(), 9);
    assert_eq!(span.subsec_nanos(), 750_000_000);
    let earlier = Timestamp::new(999, 0).unwrap();
    assert_eq!(account.holding_period_at(&earlier).as_secs(), 0);
    assert_eq!(account.holding_period_at(&earlier).subsec_nanos(), 0);
    assert!(Timestamp::new(0, 1_000_000_000).is_none());
}

#[test]
fn an_account_opened_now_has_a_short_holding_period() {
    let account = Account::new("a".to_string(), "A".to_string(), AccountKind::Taxable);
    assert!(account.opened_at.secs() > 1_600_000_000);
    assert!(account.holding_period().as_secs() < 60);
}

#[test]
fn a_negative_return_lowers_the_balance() {
    let mut account = Account::new("a".to_string(), "A".to_string(), AccountKind::Taxable);
    account.deposit(Amount::from_i64(200)).unwrap();
    account.apply_return(Amount::new(-25, 2));
    assert_eq!(account.balance, Amount::from_i64(150));
    assert_eq!(account.capital_gain(), Amount::from_i64(-50));
}

#[test]
fn depreciation_never_leaves_a_negative_value() {
    let mut asset = Asset::new(
        "x".to_string(),
        "X".to_string(),
        AssetCategory::Other,
        Amount::from_i64(1000),
        Amount::zero(),
    );
    asset.depreciate(Amount::from_i64(-2));
    assert_eq!(asset.value, Amount::zero());
    assert_eq!(asset.purchase_price, Amount::from_i64(1000));
}

#[test]
fn a_return_applied_month_after_month_is_rounded_where_the_places_run_out() {
    let mut account = Account::new("a".to_string(), "A".to_string(), AccountKind::Taxable);
    account.deposit(Amount::from_i64(1000)).unwrap();
    let rate = Amount::new(7, 2);
    let mut expected = rust_decimal::Decimal::from(1000);
    for _ in 0..40 {
        assert!(account.try_apply_return(rate));
        expected *= rust_decimal::Decimal::ONE + rust_decimal::Decimal::new(7, 2);
    }
    assert_eq!(account.balance.mantissa(), expected.mantissa());
    assert_eq!(account.balance.scale(), expected.scale());
    assert_eq!(account.balance.scale(), 24);
    assert_eq!(account.total_contributions, Amount::from_i64(1000));
}

#[test]
fn a_return_that_leaves_the_range_is_not_applied() {
    let mut account = Account::new("a".to_string(), "A".to_string(), AccountKind::Taxable);
    account
        .deposit(Amount::from_parts(79_228_162_514_264_337_593_543_950_335, 0).unwrap())
        .unwrap();
    let before = account.clone();
    assert!(!account.try_apply_return(Amount::from_i64(1)));
    assert_eq!(account, before);
    // One plus a rate that fills the mantissa cannot be written.
    let mut small = Account::new("s".to_string(), "S".to_string(), AccountKind::Taxable);
    small.deposit(Amount::from_i64(1)).unwrap();
    let rate = Amount::from_parts(79_228_162_514_264_337_593_543_950_335, 0).unwrap();
    assert!(!small.try_apply_return(rate));
    assert_eq!(small.balance, Amount::from_i64(1));
    assert!(small.try_apply_return(Amount::new(5, 1)));
    assert_eq!(small.balance, Amount::new(15, 1));
}

#[test]
fn depreciation_is_rounded_where_the_places_run_out_and_refused_beyond_the_range() {
    let mut asset = Asset::new(
        "car".to_string(),
        "Car".to_string(),
        AssetCategory::Vehicle,
        Amount::from_i64(300000),
        Amount::zero(),
    );
    let mut expected = rust_decimal::Decimal::from(300000);
    for _ in 0..30 {
        assert!(asset.try_depreciate(Amount::new(-15, 3)));
        expected *= rust_decimal::Decimal::ONE + rust_decimal::Decimal::new(-15, 3);
    }
    assert_eq!(asset.value.mantissa(), expected.mantissa());
    assert_eq!(asset.value.scale(), expected.scale());
    assert!(asset.try_depreciate(Amount::from_i64(-3)));
    assert_eq!(asset.value, Amount::zero());

    let mut huge = Asset::new(
        "h".to_string(),
        "H".to_string(),
        AssetCategory::Other,
        Amount::from_parts(79_228_162_514_264_337_593_543_950_335, 0).unwrap(),
        Amount::zero(),
    );
    let before = huge.clone();
    assert!(!huge.try_depreciate(Amount::from_i64(1)));
    assert_eq!(huge, before);
    assert_eq!(huge.checked_capital_gain(), Some(Amount::zero()));
}

#[test]
fn a_gain_beyond_the_range_is_not_computed() {
    let mut account = Account::new("a".to_string(), "A".to_string(), AccountKind::Taxable);
    account.balance = Amount::from_parts(79_228_162_514_264_337_593_543_950_335, 0).unwrap();
    account.total_withdrawals = Amount::from_i64(1);
    assert_eq!(account.checked_capital_gain(), None);
    account.total_contributions = Amount::from_i64(1);
    assert_eq!(account.checked_capital_gain(), Some(account.balance));
}

use fin_engine::{Amount, Income, IncomeKind};

#[test]
fn test_income_creation() {
    let income = Income::new(
        "job1".to_string(),
        "Software Engineer".to_string(),
        IncomeKind::Employment,
        Amount::from_i64(80000),
    );
    assert_eq!(income.gross_monthly, Amount::from_i64(80000));
    assert!(income.active);
}

#[test]
fn test_annual_income() {
    let income = Income::new(
        "job1".to_string(),
        "Developer".to_string(),
        IncomeKind::Employment,
        Amount::from_i64(50000),
    );
    assert_eq!(income.annual_gross(), Amount::from_i64(600000));
}

#[test]
fn test_income_deactivation() {
    let mut income = Income::new(
        "job1".to_string(),
        "Developer".to_string(),
        IncomeKind::Employment,
        Amount::from_i64(50000),
    );
    assert_eq!(income.annual_gross(), Amount::from_i64(600000));

    income.deactivate();
    assert!(!income.active);
    assert_eq!(income.annual_gross(), Amount::zero());

    income.activate();
    assert!(income.active);
    assert_eq!(income.annual_gross(), Amount::from_i64(600000));
}

#[test]
fn test_income_adjustment() {
    let mut income = Income::new(
        "job1".to_string(),
        "Developer".to_string(),
        IncomeKind::Employment,
        Amount::from_i64(50000),
    );
    income.adjust_amount(Amount::from_i64(60000));
    assert_eq!(income.gross_monthly, Amount::from_i64(60000));
    assert_eq!(income.annual_gross(), Amount::from_i64(720000));
}

use fin_engine::{
    Account, AccountKind, Amount, Asset, AssetCategory, Expense, ExpenseCategory, FinancialState,
    Income, IncomeKind,
};

#[test]
fn test_net_worth_calculation() {
    let mut state = FinancialState::new();
    state.cash = Amount::from_i64(10000);
    state.liabilities = Amount::from_i64(5000);

    let mut account = Account::new(
        "acc1".to_string(),
        "Savings".to_string(),
        AccountKind::Taxable,
    );
    account.deposit(Amount::from_i64(50000)).unwrap();
    state.add_account(account);

    // Net worth = 10k cash + 50k account - 5k liabilities = 55k
    assert_eq!(state.net_worth(), Amount::from_i64(55000));
}

#[test]
fn test_income_and_expenses() {
    let mut state = FinancialState::new();

    state.add_income(Income::new(
        "job1".to_string(),
        "Developer".to_string(),
        IncomeKind::Employment,
        Amount::from_i64(60000),
    ));

    state.add_expense(Expense::new(
        "rent".to_string(),
        "Rent".to_string(),
        ExpenseCategory::Essential,
        Amount::from_i64(15000),
    ));

    state.add_expense(Expense::new(
        "fun".to_string(),
        "Entertainment".to_string(),
        ExpenseCategory::Lifestyle,
        Amount::from_i64(5000),
    ));

    assert_eq!(state.monthly_gross_income(), Amount::from_i64(60000));
    assert_eq!(state.monthly_expenses(), Amount::from_i64(20000));
    assert_eq!(state.monthly_essential_expenses(), Amount::from_i64(15000));
}

#[test]
fn test_fire_calculations() {
    let mut state = FinancialState::new();
    state.add_expense(Expense::new(
        "expenses".to_string(),
        "Total Expenses".to_string(),
        ExpenseCategory::Essential,
        Amount::from_i64(30000),
    ));

    // FIRE number = 30k * 12 * 25 = 9,000,000
    assert_eq!(state.fire_number(), Amount::from_i64(9000000));

    state.cash = Amount::from_i64(4500000);
    // 4.5M / 9M = 50%
    assert_eq!(state.fire_progress(), Amount::from_i64(50));

    state.cash = Amount::from_i64(9000000);
    assert!(state.is_fire());
}

#[test]
fn test_emergency_fund() {
    let mut state = FinancialState::new();
    state.add_expense(Expense::new(
        "expenses".to_string(),
        "Expenses".to_string(),
        ExpenseCategory::Essential,
        Amount::from_i64(20000),
    ));

    assert!(!state.has_emergency_fund());

    let mut efund = Account::new(
        "efund".to_string(),
        "Emergency Fund".to_string(),
        AccountKind::EmergencyFund,
    );
    efund.deposit(Amount::from_i64(60000)).unwrap(); // 3 months
    state.add_account(efund);

    assert!(state.has_emergency_fund());
}

fn sample_state() -> FinancialState {
    let mut state = FinancialState::default();
    state.cash = Amount::new(150050, 2);
    state.liabilities = Amount::from_i64(300);
    let mut savings = Account::new("s".to_string(), "S".to_string(), AccountKind::Taxable);
    savings.deposit(Amount::from_i64(2000)).unwrap();
    state.add_account(savings);
    let mut emergency =
        Account::new("e".to_string(), "E".to_string(), AccountKind::EmergencyFund);
    emergency.deposit(Amount::new(5005, 1)).unwrap();
    state.add_account(emergency);
    state.add_asset(Asset::new(
        "car".to_string(),
        "Car".to_string(),
        AssetCategory::Vehicle,
        Amount::from_i64(10000),
        Amount::from_i64(100),
    ));
    state.add_income(Income::new(
        "job".to_string(),
        "Job".to_string(),
        IncomeKind::Employment,
        Amount::from_i64(4000),
    ));
    let mut side = Income::new(
        "side".to_string(),
        "Side".to_string(),
        IncomeKind::Freelance,
        Amount::from_i64(700),
    );
    side.deactivate();
    state.add_income(side);
    state.add_expense(Expense::new(
        "rent".to_string(),
        "Rent".to_string(),
        ExpenseCategory::Essential,
        Amount::from_i64(1000),
    ));
    state.add_expense(Expense::new(
        "fun".to_string(),
        "Fun".to_string(),
        ExpenseCategory::Lifestyle,
        Amount::new(2505, 1),
    ));
    let mut gym = Expense::new(
        "gym".to_string(),
        "Gym".to_string(),
        ExpenseCategory::Essential,
        Amount::from_i64(40),
    );
    gym.deactivate();
    state.add_expense(gym);
    state
}

#[test]
fn rollups_count_cash_accounts_and_assets_and_only_what_is_active() {
    let state = sample_state();
    // 1500.50 + 2000 + 500.5 + 10000
    assert_eq!(state.total_assets(), Amount::new(140010, 1));
    assert_eq!(state.net_worth(), Amount::new(137010, 1));
    assert_eq!(state.monthly_gross_income(), Amount::from_i64(4000));
    assert_eq!(state.monthly_expenses(), Amount::new(12505, 1));
    assert_eq!(state.monthly_essential_expenses(), Amount::from_i64(1000));
}

#[test]
fn the_independence_target_is_three_hundred_months_of_expenses() {
    let state = sample_state();
    assert_eq!(state.fire_number(), Amount::from_i64(375150));
    assert!(!state.is_fire());
    let mut rich = sample_state();
    rich.cash = Amount::from_i64(375150 + 300 - 2000 - 10000) .minus(Amount::new(5005, 1));
    assert_eq!(rich.net_worth(), Amount::from_i64(375150));
    assert!(rich.is_fire());
    rich.liabilities = Amount::new(30001, 2);
    assert!(!rich.is_fire());
}

#[test]
fn without_expenses_the_target_is_zero_and_reached() {
    let state = FinancialState::new();
    assert_eq!(state.fire_number(), Amount::zero());
    assert_eq!(state.fire_progress(), Amount::zero());
    assert_eq!(state.checked_fire_progress(), Some(Amount::zero()));
    assert!(state.is_fire());
    assert!(state.has_emergency_fund());
}

#[test]
fn the_savings_rate_is_the_saved_share_of_net_income_in_percent() {
    let mut state = FinancialState::new();
    state.add_expense(Expense::new(
        "all".to_string(),
        "All".to_string(),
        ExpenseCategory::Essential,
        Amount::from_i64(3000),
    ));
    assert_eq!(state.savings_rate(Amount::from_i64(4000)), Amount::from_i64(25));
    assert_eq!(state.savings_rate(Amount::from_i64(2000)), Amount::from_i64(-50));
    assert_eq!(state.savings_rate(Amount::zero()), Amount::zero());
    assert_eq!(state.savings_rate(Amount::from_i64(-10)), Amount::zero());
    assert_eq!(
        state.checked_savings_rate(Amount::from_i64(4000)),
        Some(Amount::from_i64(25))
    );
    assert_eq!(state.checked_savings_rate(Amount::zero()), Some(Amount::zero()));
}

#[test]
fn the_emergency_fund_needs_three_months_of_expenses_in_emergency_accounts() {
    let mut state = sample_state();
    // Expenses are 1250.5 a month; the emergency account holds 500.5.
    assert!(!state.has_emergency_fund());
    state.get_account_mut("e").unwrap().deposit(Amount::new(32509, 1)).unwrap();
    assert!(!state.has_emergency_fund());
    state.get_account_mut("e").unwrap().deposit(Amount::new(1, 1)).unwrap();
    assert!(state.has_emergency_fund());
}

#[test]
fn an_account_is_found_by_its_identifier() {
    let mut state = sample_state();
    assert_eq!(state.find_account("s"), Some(0));
    assert_eq!(state.find_account("e"), Some(1));
    assert_eq!(state.find_account("x"), None);
    assert!(state.get_account_mut("x").is_none());
    state.get_account_mut("s").unwrap().withdraw(Amount::from_i64(500)).unwrap();
    assert_eq!(state.accounts[0].balance, Amount::from_i64(1500));
    assert_eq!(state.accounts[1].balance, Amount::new(5005, 1));
}

#[test]
fn the_budget_is_set_by_category_and_reset_each_month() {
    let mut state = FinancialState::new();
    state.set_budget(ExpenseCategory::Essential, Amount::from_i64(3500));
    state.set_budget(ExpenseCategory::Lifestyle, Amount::from_i64(1000));
    state.set_budget(ExpenseCategory::Essential, Amount::from_i64(4000));
    assert_eq!(state.budget.allocations().len(), 2);
    assert_eq!(
        state.budget.get(ExpenseCategory::Essential).unwrap().allocated,
        Amount::from_i64(4000)
    );
    state.reset_monthly_budget();
    assert_eq!(
        state.budget.get(ExpenseCategory::Lifestyle).unwrap().spent,
        Amount::zero()
    );
    assert_eq!(
        state.budget.get(ExpenseCategory::Lifestyle).unwrap().allocated,
        Amount::from_i64(1000)
    );
}

#[test]
fn a_savings_rate_that_does_not_end_is_rounded() {
    let mut state = FinancialState::new();
    state.add_expense(Expense::new(
        "all".to_string(),
        "All".to_string(),
        ExpenseCategory::Essential,
        Amount::from_i64(1),
    ));
    let rate = state.savings_rate(Amount::from_i64(3));
    assert_eq!(
        (rate.mantissa(), rate.scale()),
        (66_666_666_666_666_666_666_666_666_670, 27)
    );
    assert_eq!(state.checked_savings_rate(Amount::from_i64(3)), Some(rate));
    // Expenses equal to the income leave nothing; none at all leave everything.
    assert_eq!(state.savings_rate(Amount::from_i64(1)), Amount::zero());
    assert_eq!(FinancialState::new().savings_rate(Amount::from_i64(7)), Amount::from_i64(100));
}

#[test]
fn a_progress_that_does_not_end_is_rounded() {
    let mut state = FinancialState::new();
    state.add_expense(Expense::new(
        "all".to_string(),
        "All".to_string(),
        ExpenseCategory::Essential,
        Amount::from_i64(1),
    ));
    // The target is 300.
    state.cash = Amount::from_i64(100);
    let progress = state.fire_progress();
    assert_eq!(
        (progress.mantissa(), progress.scale()),
        (33_333_333_333_333_333_333_333_333_330, 27)
    );
    assert_eq!(state.checked_fire_progress(), Some(progress));
    state.cash = Amount::from_i64(-150);
    assert_eq!(state.fire_progress(), Amount::from_i64(-50));
    state.cash = Amount::zero();
    assert_eq!(state.fire_progress(), Amount::zero());
}

#[test]
fn the_checked_rollups_answer_where_the_sums_are_exact() {
    let state = sample_state();
    assert_eq!(state.checked_total_assets(), Some(Amount::new(140010, 1)));
    assert_eq!(state.checked_net_worth(), Some(Amount::new(137010, 1)));
    assert_eq!(state.checked_fire_number(), Some(Amount::from_i64(375150)));
    assert_eq!(state.checked_is_fire(), Some(false));
    assert_eq!(state.checked_has_emergency_fund(), Some(false));
    assert!(state.essentials_add_up());
    assert_eq!(state.accounts[0].checked_capital_gain(), Some(Amount::zero()));
    assert_eq!(state.assets[0].checked_capital_gain(), Some(Amount::zero()));

    let mut full = sample_state();
    full.cash = Amount::from_parts(79_228_162_514_264_337_593_543_950_335, 0).unwrap();
    assert_eq!(full.checked_total_assets(), None);
    assert_eq!(full.checked_net_worth(), None);
    assert_eq!(full.checked_is_fire(), None);
    assert_eq!(full.checked_fire_progress(), None);
    assert_eq!(full.checked_fire_number(), Some(Amount::from_i64(375150)));

    let mut costly = sample_state();
    costly.add_expense(Expense::new(
        "palace".to_string(),
        "Palace".to_string(),
        ExpenseCategory::Essential,
        Amount::from_parts(79_228_162_514_264_337_593_543_950_335, 0).unwrap(),
    ));
    assert!(!costly.expenses_add_up());
    assert!(!costly.essentials_add_up());
    assert_eq!(costly.checked_fire_number(), None);
    assert_eq!(costly.checked_has_emergency_fund(), None);
    assert_eq!(costly.checked_savings_rate(Amount::from_i64(10)), None);
    assert_eq!(costly.checked_savings_rate(Amount::zero()), Some(Amount::zero()));
}

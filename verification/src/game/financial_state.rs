//! The player's finances as a whole, and the figures derived from them.

use crate::amount::{checked_sum, exact_sum, sum, sums_exactly, total, Amount};
use crate::game::accounts::{Account, AccountKind, Asset};
use crate::game::budget::Budget;
use crate::game::expenses::{Expense, ExpenseCategory};
use crate::game::income::Income;
use vstd::prelude::*;

verus! {

/// The balances of the accounts, in order.
pub open spec fn balances(accounts: Seq<Account>) -> Seq<Amount>
    decreases accounts.len(),
{
    if accounts.len() == 0 {
        Seq::empty()
    } else {
        balances(accounts.drop_last()).push(accounts.last().balance)
    }
}

/// The balances of the emergency-fund accounts, in order.
pub open spec fn emergency_balances(accounts: Seq<Account>) -> Seq<Amount>
    decreases accounts.len(),
{
    if accounts.len() == 0 {
        Seq::empty()
    } else if accounts.last().kind is EmergencyFund {
        emergency_balances(accounts.drop_last()).push(accounts.last().balance)
    } else {
        emergency_balances(accounts.drop_last())
    }
}

/// The values of the assets, in order.
pub open spec fn asset_values(assets: Seq<Asset>) -> Seq<Amount>
    decreases assets.len(),
{
    if assets.len() == 0 {
        Seq::empty()
    } else {
        asset_values(assets.drop_last()).push(assets.last().value)
    }
}

/// The monthly amounts of the active sources of income, in order.
pub open spec fn active_incomes(sources: Seq<Income>) -> Seq<Amount>
    decreases sources.len(),
{
    if sources.len() == 0 {
        Seq::empty()
    } else if sources.last().active {
        active_incomes(sources.drop_last()).push(sources.last().gross_monthly)
    } else {
        active_incomes(sources.drop_last())
    }
}

/// The monthly amounts of the active expenses, in order.
pub open spec fn active_expenses(expenses: Seq<Expense>) -> Seq<Amount>
    decreases expenses.len(),
{
    if expenses.len() == 0 {
        Seq::empty()
    } else if expenses.last().active {
        active_expenses(expenses.drop_last()).push(expenses.last().monthly_amount)
    } else {
        active_expenses(expenses.drop_last())
    }
}

/// The monthly amounts of the active essential expenses, in order.
pub open spec fn active_essentials(expenses: Seq<Expense>) -> Seq<Amount>
    decreases expenses.len(),
{
    if expenses.len() == 0 {
        Seq::empty()
    } else if expenses.last().active && expenses.last().category is Essential {
        active_essentials(expenses.drop_last()).push(expenses.last().monthly_amount)
    } else {
        active_essentials(expenses.drop_last())
    }
}

/// The place of the first account with the identifier, or the number of
/// accounts where none has it.
pub open spec fn first_with_id(accounts: Seq<Account>, id: Seq<char>) -> int
    decreases accounts.len(),
{
    if accounts.len() == 0 {
        0
    } else {
        let before = first_with_id(accounts.drop_last(), id);
        if before < accounts.len() - 1 {
            before
        } else if accounts.last().id@ == id {
            accounts.len() - 1
        } else {
            accounts.len() as int
        }
    }
}

/// The place `i` is the first with the identifier where it has the
/// identifier and no place before it has.
pub proof fn lemma_first_with_id(accounts: Seq<Account>, id: Seq<char>, i: int)
    requires
        0 <= i <= accounts.len(),
        i < accounts.len() ==> accounts[i].id@ == id,
        forall|k: int| 0 <= k < i ==> accounts[k].id@ != id,
    ensures
        first_with_id(accounts, id) == i,
    decreases accounts.len(),
{
    if accounts.len() > 0 {
        let shorter = accounts.drop_last();
        if i < accounts.len() - 1 {
            lemma_first_with_id(shorter, id, i);
        } else {
            lemma_first_with_id(shorter, id, accounts.len() - 1);
        }
    }
}

/// Everything the player owns and owes, earns and spends.
#[derive(Debug, Clone, PartialEq)]
pub struct FinancialState {
    /// Cash at hand.
    pub cash: Amount,
    /// The savings and investment accounts.
    pub accounts: Vec<Account>,
    /// The physical assets.
    pub assets: Vec<Asset>,
    /// The sources of income.
    pub income_sources: Vec<Income>,
    /// The recurring expenses.
    pub expenses: Vec<Expense>,
    /// The monthly budget, by category.
    pub budget: Budget,
    /// The sum of all debts.
    pub liabilities: Amount,
}

impl FinancialState {
    /// The view of the total assets: cash, account balances and asset values.
    pub open spec fn assets_total(self) -> int {
        self.cash@ + total(balances(self.accounts@)) + total(asset_values(self.assets@))
    }

    /// The total assets, digit for digit.
    pub open spec fn assets_amount(self) -> Amount {
        self.cash.sum_of(exact_sum(balances(self.accounts@))).sum_of(
            exact_sum(asset_values(self.assets@)),
        )
    }

    /// Whether the total assets can be added up exactly.
    pub open spec fn assets_fit(self) -> bool {
        &&& sums_exactly(balances(self.accounts@))
        &&& sums_exactly(asset_values(self.assets@))
        &&& self.cash.sum_fits(exact_sum(balances(self.accounts@)))
        &&& self.cash.sum_of(exact_sum(balances(self.accounts@))).sum_fits(
            exact_sum(asset_values(self.assets@)),
        )
    }

    /// The view of the net worth: the total assets less the liabilities.
    pub open spec fn worth(self) -> int {
        self.assets_total() - self.liabilities@
    }

    /// The net worth, digit for digit.
    pub open spec fn worth_amount(self) -> Amount {
        self.assets_amount().difference_of(self.liabilities)
    }

    /// Whether the net worth can be computed exactly.
    pub open spec fn worth_fits(self) -> bool {
        &&& self.assets_fit()
        &&& self.assets_amount().difference_fits(self.liabilities)
    }

    /// The view of the monthly income before tax: the sum over the active sources.
    pub open spec fn gross_income(self) -> int {
        total(active_incomes(self.income_sources@))
    }

    /// The monthly income before tax, digit for digit.
    pub open spec fn gross_amount(self) -> Amount {
        exact_sum(active_incomes(self.income_sources@))
    }

    /// Whether the monthly income before tax can be added up exactly.
    pub open spec fn income_fits(self) -> bool {
        sums_exactly(active_incomes(self.income_sources@))
    }

    /// The view of the monthly expenses: the sum over the active expenses.
    pub open spec fn expenses_total(self) -> int {
        total(active_expenses(self.expenses@))
    }

    /// The monthly expenses, digit for digit.
    pub open spec fn expenses_amount(self) -> Amount {
        exact_sum(active_expenses(self.expenses@))
    }

    /// Whether the monthly expenses can be added up exactly.
    pub open spec fn expenses_fit(self) -> bool {
        sums_exactly(active_expenses(self.expenses@))
    }

    /// The view of the net worth at which the player is financially
    /// independent: twenty-five years of the monthly expenses.
    pub open spec fn independence_target(self) -> int {
        self.expenses_total() * 12 * 25
    }

    /// The independence target, digit for digit.
    pub open spec fn target_amount(self) -> Amount {
        self.expenses_amount().product_of(Amount::whole(12)).product_of(Amount::whole(25))
    }

    /// Whether the independence target can be computed exactly.
    pub open spec fn target_fits(self) -> bool {
        &&& self.expenses_fit()
        &&& self.expenses_amount().product_fits(Amount::whole(12))
        &&& self.expenses_amount().product_of(Amount::whole(12)).product_fits(Amount::whole(25))
    }

    /// What is left of a net income after the monthly expenses, digit for digit.
    pub open spec fn saved_amount(self, net_income: Amount) -> Amount {
        net_income.difference_of(self.expenses_amount())
    }

    /// Whether what is left of a positive net income after the monthly
    /// expenses can be computed exactly.
    pub open spec fn savings_fit(self, net_income: Amount) -> bool {
        net_income@ > 0 ==> {
            &&& self.expenses_fit()
            &&& net_income.difference_fits(self.expenses_amount())
        }
    }

    /// Whether the savings rate of a net income can be computed: the income
    /// is not positive, or the saved share of it has a percentage.
    pub open spec fn savings_rate_defined(self, net_income: Amount) -> bool {
        net_income@ > 0 ==> self.saved_amount(net_income).percent_defined(net_income)
    }

    /// The savings rate of a net income: nothing where the income is not
    /// positive, else the saved share of it as a percentage.
    pub open spec fn savings_rate_amount(self, net_income: Amount) -> Amount {
        if net_income@ <= 0 {
            Amount::whole(0)
        } else {
            self.saved_amount(net_income).percent_amount(net_income)
        }
    }

    /// Whether the net worth and the independence target can be computed
    /// exactly, the net worth only where the target is not zero.
    pub open spec fn progress_fits(self) -> bool {
        &&& self.target_fits()
        &&& self.independence_target() != 0 ==> self.worth_fits()
    }

    /// Whether the progress toward the independence target can be computed:
    /// the target is zero, or the net worth has a percentage of it.
    pub open spec fn progress_defined(self) -> bool {
        self.independence_target() != 0 ==> self.worth_amount().percent_defined(
            self.target_amount(),
        )
    }

    /// The progress toward the independence target: nothing where the
    /// target is zero, else the net worth as a percentage of it.
    pub open spec fn progress_amount(self) -> Amount {
        if self.independence_target() == 0 {
            Amount::whole(0)
        } else {
            self.worth_amount().percent_amount(self.target_amount())
        }
    }

    /// Whether three months of expenses can be computed exactly, and the
    /// emergency funds added up.
    pub open spec fn emergency_check_fits(self) -> bool {
        &&& sums_exactly(emergency_balances(self.accounts@))
        &&& self.expenses_fit()
        &&& self.expenses_amount().product_fits(Amount::whole(3))
    }

    /// Finances with no cash, no debts and nothing else.
    pub fn new() -> (r: FinancialState)
        ensures
            r.cash == Amount::whole(0),
            r.liabilities == Amount::whole(0),
            r.cash@ == 0,
            r.liabilities@ == 0,
            r.accounts@.len() == 0,
            r.assets@.len() == 0,
            r.income_sources@.len() == 0,
            r.expenses@.len() == 0,
            forall|c: ExpenseCategory| r.budget.allocation(c) is None,
    {
        FinancialState {
            cash: Amount::zero(),
            accounts: Vec::new(),
            assets: Vec::new(),
            income_sources: Vec::new(),
            expenses: Vec::new(),
            budget: Budget::new(),
            liabilities: Amount::zero(),
        }
    }

    /// The balances of the accounts, in order.
    fn account_balances(&self) -> (r: Vec<Amount>)
        ensures
            r@ == balances(self.accounts@),
    {
        let mut out: Vec<Amount> = Vec::new();
        let mut i: usize = 0;
        assert(self.accounts@.take(0) =~= Seq::<Account>::empty());
        while i < self.accounts.len()
            invariant
                i <= self.accounts.len(),
                out@ == balances(self.accounts@.take(i as int)),
            decreases self.accounts.len() - i,
        {
            assert(self.accounts@.take(i + 1).drop_last() =~= self.accounts@.take(i as int));
            out.push(self.accounts[i].balance);
            i = i + 1;
        }
        assert(self.accounts@.take(self.accounts@.len() as int) =~= self.accounts@);
        out
    }

    /// The balances of the emergency-fund accounts, in order.
    fn emergency_fund_balances(&self) -> (r: Vec<Amount>)
        ensures
            r@ == emergency_balances(self.accounts@),
    {
        let mut out: Vec<Amount> = Vec::new();
        let mut i: usize = 0;
        assert(self.accounts@.take(0) =~= Seq::<Account>::empty());
        while i < self.accounts.len()
            invariant
                i <= self.accounts.len(),
                out@ == emergency_balances(self.accounts@.take(i as int)),
            decreases self.accounts.len() - i,
        {
            assert(self.accounts@.take(i + 1).drop_last() =~= self.accounts@.take(i as int));
            if matches!(self.accounts[i].kind, AccountKind::EmergencyFund) {
                out.push(self.accounts[i].balance);
            }
            i = i + 1;
        }
        assert(self.accounts@.take(self.accounts@.len() as int) =~= self.accounts@);
        out
    }

    /// The values of the assets, in order.
    fn values_of_assets(&self) -> (r: Vec<Amount>)
        ensures
            r@ == asset_values(self.assets@),
    {
        let mut out: Vec<Amount> = Vec::new();
        let mut i: usize = 0;
        assert(self.assets@.take(0) =~= Seq::<Asset>::empty());
        while i < self.assets.len()
            invariant
                i <= self.assets.len(),
                out@ == asset_values(self.assets@.take(i as int)),
            decreases self.assets.len() - i,
        {
            assert(self.assets@.take(i + 1).drop_last() =~= self.assets@.take(i as int));
            out.push(self.assets[i].value);
            i = i + 1;
        }
        assert(self.assets@.take(self.assets@.len() as int) =~= self.assets@);
        out
    }

    /// The monthly amounts of the active sources of income, in order.
    fn active_income_amounts(&self) -> (r: Vec<Amount>)
        ensures
            r@ == active_incomes(self.income_sources@),
    {
        let mut out: Vec<Amount> = Vec::new();
        let mut i: usize = 0;
        assert(self.income_sources@.take(0) =~= Seq::<Income>::empty());
        while i < self.income_sources.len()
            invariant
                i <= self.income_sources.len(),
                out@ == active_incomes(self.income_sources@.take(i as int)),
            decreases self.income_sources.len() - i,
        {
            assert(self.income_sources@.take(i + 1).drop_last() =~= self.income_sources@.take(
                i as int,
            ));
            if self.income_sources[i].active {
                out.push(self.income_sources[i].gross_monthly);
            }
            i = i + 1;
        }
        assert(self.income_sources@.take(self.income_sources@.len() as int)
            =~= self.income_sources@);
        out
    }

    /// The monthly amounts of the active expenses, in order: all of them, or
    /// the essential ones only.
    fn active_expense_amounts(&self, essential_only: bool) -> (r: Vec<Amount>)
        ensures
            !essential_only ==> r@ == active_expenses(self.expenses@),
            essential_only ==> r@ == active_essentials(self.expenses@),
    {
        let mut out: Vec<Amount> = Vec::new();
        let mut i: usize = 0;
        assert(self.expenses@.take(0) =~= Seq::<Expense>::empty());
        while i < self.expenses.len()
            invariant
                i <= self.expenses.len(),
                !essential_only ==> out@ == active_expenses(self.expenses@.take(i as int)),
                essential_only ==> out@ == active_essentials(self.expenses@.take(i as int)),
            decreases self.expenses.len() - i,
        {
            assert(self.expenses@.take(i + 1).drop_last() =~= self.expenses@.take(i as int));
            let expense = &self.expenses[i];
            if expense.active && (!essential_only || expense.category.is_essential()) {
                out.push(expense.monthly_amount);
            }
            i = i + 1;
        }
        assert(self.expenses@.take(self.expenses@.len() as int) =~= self.expenses@);
        out
    }

    /// Whether the monthly income before tax can be added up exactly.
    pub fn income_adds_up(&self) -> (r: bool)
        ensures
            r == self.income_fits(),
    {
        checked_sum(&self.active_income_amounts()).is_some()
    }

    /// Whether the monthly expenses can be added up exactly.
    pub fn expenses_add_up(&self) -> (r: bool)
        ensures
            r == self.expenses_fit(),
    {
        checked_sum(&self.active_expense_amounts(false)).is_some()
    }

    /// Whether the monthly essential expenses can be added up exactly.
    pub fn essentials_add_up(&self) -> (r: bool)
        ensures
            r == sums_exactly(active_essentials(self.expenses@)),
    {
        checked_sum(&self.active_expense_amounts(true)).is_some()
    }

    /// The total assets, where they can be added up exactly.
    pub fn checked_total_assets(&self) -> (r: Option<Amount>)
        ensures
            r is Some <==> self.assets_fit(),
            r is Some ==> r->Some_0 == self.assets_amount(),
            r is Some ==> r->Some_0@ == self.assets_total(),
    {
        match (checked_sum(&self.account_balances()), checked_sum(&self.values_of_assets())) {
            (Some(account_total), Some(asset_total)) => match self.cash.checked_add(account_total) {
                Some(liquid) => liquid.checked_add(asset_total),
                None => None,
            },
            _ => None,
        }
    }

    /// The net worth, where it can be computed exactly.
    pub fn checked_net_worth(&self) -> (r: Option<Amount>)
        ensures
            r is Some <==> self.worth_fits(),
            r is Some ==> r->Some_0 == self.worth_amount(),
            r is Some ==> r->Some_0@ == self.worth(),
    {
        match self.checked_total_assets() {
            Some(assets) => assets.checked_sub(self.liabilities),
            None => None,
        }
    }

    /// The total assets: cash, account balances and asset values.
    pub fn total_assets(&self) -> (r: Amount)
        requires
            self.assets_fit(),
        ensures
            r == self.assets_amount(),
            r@ == self.assets_total(),
    {
        let account_total = sum(&self.account_balances());
        let asset_total = sum(&self.values_of_assets());
        self.cash.plus(account_total).plus(asset_total)
    }

    /// The net worth: the total assets less the liabilities.
    pub fn net_worth(&self) -> (r: Amount)
        requires
            self.worth_fits(),
        ensures
            r == self.worth_amount(),
            r@ == self.worth(),
    {
        self.total_assets().minus(self.liabilities)
    }

    /// The monthly income before tax: the sum over the active sources.
    pub fn monthly_gross_income(&self) -> (r: Amount)
        requires
            self.income_fits(),
        ensures
            r == self.gross_amount(),
            r@ == self.gross_income(),
    {
        sum(&self.active_income_amounts())
    }

    /// The monthly expenses: the sum over the active expenses.
    pub fn monthly_expenses(&self) -> (r: Amount)
        requires
            self.expenses_fit(),
        ensures
            r == self.expenses_amount(),
            r@ == self.expenses_total(),
    {
        sum(&self.active_expense_amounts(false))
    }

    /// The monthly essential expenses: the sum over the active expenses of
    /// the essential category.
    pub fn monthly_essential_expenses(&self) -> (r: Amount)
        requires
            sums_exactly(active_essentials(self.expenses@)),
        ensures
            r == exact_sum(active_essentials(self.expenses@)),
            r@ == total(active_essentials(self.expenses@)),
    {
        sum(&self.active_expense_amounts(true))
    }

    /// The savings rate of a net income after tax: the share of it that is
    /// left after the monthly expenses, as a percentage. An income that is
    /// not positive has the rate zero.
    pub fn savings_rate(&self, net_income: Amount) -> (r: Amount)
        requires
            self.savings_fit(net_income),
            self.savings_rate_defined(net_income),
        ensures
            r == self.savings_rate_amount(net_income),
            net_income@ <= 0 ==> r@ == 0,
            net_income@ > 0 && net_income@ == self.expenses_total() ==> r@ == 0,
            net_income@ > 0 && self.saved_amount(net_income).quotient_amount(
                net_income,
            ).product_fits(Amount::whole(100)) ==> r@ == self.saved_amount(
                net_income,
            ).quotient_amount(net_income)@ * 100,
    {
        if !net_income.is_positive() {
            return Amount::zero();
        }
        let saved = net_income.minus(self.monthly_expenses());
        saved.percent_of(net_income)
    }

    /// The savings rate of a net income after tax, where it can be computed:
    /// there is none where the expenses or what is left of the income cannot
    /// be added up exactly, or the percentage overflows.
    pub fn checked_savings_rate(&self, net_income: Amount) -> (r: Option<Amount>)
        ensures
            r is Some <==> self.savings_fit(net_income) && self.savings_rate_defined(net_income),
            r is Some ==> r->Some_0 == self.savings_rate_amount(net_income),
            net_income@ <= 0 ==> r is Some && r->Some_0@ == 0,
    {
        if !net_income.is_positive() {
            return Some(self.savings_rate(net_income));
        }
        match checked_sum(&self.active_expense_amounts(false)) {
            Some(expenses) => match net_income.checked_sub(expenses) {
                Some(saved) => {
                    if saved.checked_percent_of(net_income).is_some() {
                        Some(self.savings_rate(net_income))
                    } else {
                        None
                    }
                },
                None => None,
            },
            None => None,
        }
    }

    /// Adds an account after the others.
    pub fn add_account(&mut self, account: Account)
        ensures
            final(self).accounts@ == old(self).accounts@.push(account),
            final(self).cash == old(self).cash,
            final(self).assets == old(self).assets,
            final(self).income_sources == old(self).income_sources,
            final(self).expenses == old(self).expenses,
            final(self).budget == old(self).budget,
            final(self).liabilities == old(self).liabilities,
    {
        self.accounts.push(account);
    }

    /// The place of the first account with the identifier, if there is one.
    pub fn find_account(&self, id: &str) -> (r: Option<usize>)
        ensures
            r is Some ==> r->Some_0 < self.accounts@.len() && self.accounts@[r->Some_0 as int].id@
                == id@,
            r is Some ==> forall|k: int| 0 <= k < r->Some_0 ==> self.accounts@[k].id@ != id@,
            r is None ==> forall|k: int| 0 <= k < self.accounts@.len() ==> self.accounts@[k].id@ != id@,
            r is Some <==> first_with_id(self.accounts@, id@) < self.accounts@.len(),
            r is Some ==> r->Some_0 == first_with_id(self.accounts@, id@),
    {
        let wanted = id.to_string();
        let mut i: usize = 0;
        while i < self.accounts.len()
            invariant
                i <= self.accounts.len(),
                wanted@ == id@,
                forall|k: int| 0 <= k < i ==> self.accounts@[k].id@ != id@,
            decreases self.accounts.len() - i,
        {
            if self.accounts[i].id == wanted {
                proof {
                    lemma_first_with_id(self.accounts@, id@, i as int);
                }
                return Some(i);
            }
            i = i + 1;
        }
        proof {
            lemma_first_with_id(self.accounts@, id@, self.accounts@.len() as int);
        }
        None
    }

    /// The first account with the identifier, to be changed in place.
    pub fn get_account_mut(&mut self, id: &str) -> (r: Option<&mut Account>)
        ensures
            r is None ==> forall|k: int|
                0 <= k < old(self).accounts@.len() ==> old(self).accounts@[k].id@ != id@,
            r is None ==> *final(self) == *old(self),
            r is Some ==> {
                let i = first_with_id(old(self).accounts@, id@);
                &&& 0 <= i < old(self).accounts@.len()
                &&& *r->Some_0 == old(self).accounts@[i]
                &&& final(self).accounts@ == old(self).accounts@.update(i, *final(r->Some_0))
                &&& final(self).cash == old(self).cash
                &&& final(self).assets == old(self).assets
                &&& final(self).income_sources == old(self).income_sources
                &&& final(self).expenses == old(self).expenses
                &&& final(self).budget == old(self).budget
                &&& final(self).liabilities == old(self).liabilities
            },
    {
        match self.find_account(id) {
            Some(i) => {
                proof {
                    lemma_first_with_id(self.accounts@, id@, i as int);
                }
                Some(&mut self.accounts[i])
            },
            None => None,
        }
    }

    /// Adds an asset after the others.
    pub fn add_asset(&mut self, asset: Asset)
        ensures
            final(self).assets@ == old(self).assets@.push(asset),
            final(self).cash == old(self).cash,
            final(self).accounts == old(self).accounts,
            final(self).income_sources == old(self).income_sources,
            final(self).expenses == old(self).expenses,
            final(self).budget == old(self).budget,
            final(self).liabilities == old(self).liabilities,
    {
        self.assets.push(asset);
    }

    /// Adds a source of income after the others.
    pub fn add_income(&mut self, income: Income)
        ensures
            final(self).income_sources@ == old(self).income_sources@.push(income),
            final(self).cash == old(self).cash,
            final(self).accounts == old(self).accounts,
            final(self).assets == old(self).assets,
            final(self).expenses == old(self).expenses,
            final(self).budget == old(self).budget,
            final(self).liabilities == old(self).liabilities,
    {
        self.income_sources.push(income);
    }

    /// Adds an expense after the others.
    pub fn add_expense(&mut self, expense: Expense)
        ensures
            final(self).expenses@ == old(self).expenses@.push(expense),
            final(self).cash == old(self).cash,
            final(self).accounts == old(self).accounts,
            final(self).assets == old(self).assets,
            final(self).income_sources == old(self).income_sources,
            final(self).budget == old(self).budget,
            final(self).liabilities == old(self).liabilities,
    {
        self.expenses.push(expense);
    }

    /// Sets the budget of a category to the given amount, with nothing spent.
    pub fn set_budget(&mut self, category: ExpenseCategory, allocated: Amount)
        ensures
            final(self).budget.allocation(category) is Some,
            final(self).budget.allocation(category)->Some_0.category == category,
            final(self).budget.allocation(category)->Some_0.allocated == allocated,
            final(self).budget.allocation(category)->Some_0.spent == Amount::whole(0),
            final(self).budget.allocation(category)->Some_0.spent@ == 0,
            forall|c: ExpenseCategory|
                c != category ==> final(self).budget.allocation(c) == old(self).budget.allocation(c),
            final(self).cash == old(self).cash,
            final(self).accounts == old(self).accounts,
            final(self).assets == old(self).assets,
            final(self).income_sources == old(self).income_sources,
            final(self).expenses == old(self).expenses,
            final(self).liabilities == old(self).liabilities,
    {
        self.budget.set(category, allocated);
    }

    /// Starts a new month of the budget: of every allocation nothing is spent.
    pub fn reset_monthly_budget(&mut self)
        ensures
            forall|c: ExpenseCategory|
                crate::game::budget::renewed(
                    old(self).budget.allocation(c),
                    #[trigger] final(self).budget.allocation(c),
                ),
            final(self).cash == old(self).cash,
            final(self).accounts == old(self).accounts,
            final(self).assets == old(self).assets,
            final(self).income_sources == old(self).income_sources,
            final(self).expenses == old(self).expenses,
            final(self).liabilities == old(self).liabilities,
    {
        self.budget.reset_month();
    }

    /// The net worth at which the player is financially independent.
    pub fn fire_number(&self) -> (r: Amount)
        requires
            self.target_fits(),
        ensures
            r == self.target_amount(),
            r@ == self.independence_target(),
    {
        self.monthly_expenses().times_whole(12).times_whole(25)
    }

    /// The net worth at which the player is financially independent, where
    /// it can be computed exactly.
    pub fn checked_fire_number(&self) -> (r: Option<Amount>)
        ensures
            r is Some <==> self.target_fits(),
            r is Some ==> r->Some_0 == self.target_amount(),
            r is Some ==> r->Some_0@ == self.independence_target(),
    {
        match checked_sum(&self.active_expense_amounts(false)) {
            Some(monthly) => {
                proof {
                    Amount::lemma_product_units_whole(monthly@, 12);
                }
                match monthly.checked_mul(Amount::from_i64(12)) {
                    Some(yearly) => {
                        proof {
                            Amount::lemma_product_units_whole(yearly@, 25);
                        }
                        yearly.checked_mul(Amount::from_i64(25))
                    },
                    None => None,
                }
            },
            None => None,
        }
    }

    /// The progress toward the independence target: the net worth as a
    /// percentage of it. A target of zero has the progress zero.
    pub fn fire_progress(&self) -> (r: Amount)
        requires
            self.progress_fits(),
            self.progress_defined(),
        ensures
            r == self.progress_amount(),
            self.independence_target() == 0 ==> r@ == 0,
            self.independence_target() != 0 && self.worth() == 0 ==> r@ == 0,
            self.independence_target() != 0 && self.worth_amount().quotient_amount(
                self.target_amount(),
            ).product_fits(Amount::whole(100)) ==> r@ == self.worth_amount().quotient_amount(
                self.target_amount(),
            )@ * 100,
    {
        let target = self.fire_number();
        if target.is_zero() {
            return Amount::zero();
        }
        self.net_worth().percent_of(target)
    }

    /// The progress toward the independence target, where it can be
    /// computed: there is none where the target or the net worth cannot be
    /// computed exactly, or the percentage overflows.
    pub fn checked_fire_progress(&self) -> (r: Option<Amount>)
        ensures
            r is Some <==> self.progress_fits() && self.progress_defined(),
            r is Some ==> r->Some_0 == self.progress_amount(),
    {
        match self.checked_fire_number() {
            Some(target) => {
                if target.is_zero() {
                    Some(self.fire_progress())
                } else {
                    match self.checked_net_worth() {
                        Some(worth) => {
                            if worth.checked_percent_of(target).is_some() {
                                Some(self.fire_progress())
                            } else {
                                None
                            }
                        },
                        None => None,
                    }
                }
            },
            None => None,
        }
    }

    /// Whether the net worth has reached the independence target, where
    /// both can be computed exactly.
    pub fn checked_is_fire(&self) -> (r: Option<bool>)
        ensures
            r is Some <==> self.worth_fits() && self.target_fits(),
            r is Some ==> r->Some_0 == (self.worth() >= self.independence_target()),
    {
        match (self.checked_net_worth(), self.checked_fire_number()) {
            (Some(worth), Some(target)) => Some(worth.ge(&target)),
            _ => None,
        }
    }

    /// Whether the emergency funds hold at least three months of expenses,
    /// where both can be computed exactly.
    pub fn checked_has_emergency_fund(&self) -> (r: Option<bool>)
        ensures
            r is Some <==> self.emergency_check_fits(),
            r is Some ==> r->Some_0 == (total(emergency_balances(self.accounts@))
                >= self.expenses_total() * 3),
    {
        match (
            checked_sum(&self.emergency_fund_balances()),
            checked_sum(&self.active_expense_amounts(false)),
        ) {
            (Some(emergency_balance), Some(monthly)) => {
                proof {
                    Amount::lemma_product_units_whole(monthly@, 3);
                }
                match monthly.checked_mul(Amount::from_i64(3)) {
                    Some(needed) => Some(emergency_balance.ge(&needed)),
                    None => None,
                }
            },
            _ => None,
        }
    }

    /// Whether the net worth has reached the independence target.
    pub fn is_fire(&self) -> (r: bool)
        requires
            self.worth_fits(),
            self.target_fits(),
        ensures
            r == (self.worth() >= self.independence_target()),
    {
        self.net_worth().ge(&self.fire_number())
    }

    /// Whether the emergency funds hold at least three months of expenses.
    pub fn has_emergency_fund(&self) -> (r: bool)
        requires
            self.emergency_check_fits(),
        ensures
            r == (total(emergency_balances(self.accounts@)) >= self.expenses_total() * 3),
    {
        let emergency_balance = sum(&self.emergency_fund_balances());
        emergency_balance.ge(&self.monthly_expenses().times_whole(3))
    }
}

impl Default for FinancialState {
    /// Finances with no cash, no debts and nothing else.
    fn default() -> (r: FinancialState)
        ensures
            r.cash == Amount::whole(0),
            r.liabilities == Amount::whole(0),
            r.cash@ == 0,
            r.liabilities@ == 0,
            r.accounts@.len() == 0,
            r.assets@.len() == 0,
            r.income_sources@.len() == 0,
            r.expenses@.len() == 0,
            forall|c: ExpenseCategory| r.budget.allocation(c) is None,
    {
        FinancialState::new()
    }
}

} // verus!

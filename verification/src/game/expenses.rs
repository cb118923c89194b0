//! Recurring expenses and budget allocations.

use crate::amount::Amount;
use vstd::prelude::*;

verus! {

/// The category of an expense.
#[derive(Debug, Clone, Copy, PartialEq, Eq, Hash, Structural)]
pub enum ExpenseCategory {
    /// Rent, utilities, groceries.
    Essential,
    /// Entertainment, dining out and other discretionary spending.
    Lifestyle,
    /// Health and fitness.
    Health,
    /// Transportation.
    Transportation,
    /// Education and personal development.
    Education,
    /// Anything else.
    Other,
}

impl ExpenseCategory {
    /// Whether the category is the essential one.
    pub fn is_essential(&self) -> (r: bool)
        ensures
            r == (*self is Essential),
    {
        matches!(self, ExpenseCategory::Essential)
    }

    /// The weight with which spending in the category counts toward
    /// happiness, in tenths: from a tenth for essentials to ten tenths for lifestyle.
    pub open spec fn happiness_tenths(self) -> int {
        match self {
            ExpenseCategory::Essential => 1,
            ExpenseCategory::Lifestyle => 10,
            ExpenseCategory::Health => 5,
            ExpenseCategory::Transportation => 2,
            ExpenseCategory::Education => 3,
            ExpenseCategory::Other => 2,
        }
    }

    /// The weight with which spending in the category counts toward
    /// happiness, in tenths.
    pub fn happiness_weight_tenths(&self) -> (r: u8)
        ensures
            r == self.happiness_tenths(),
    {
        match self {
            ExpenseCategory::Essential => 1,
            ExpenseCategory::Lifestyle => 10,
            ExpenseCategory::Health => 5,
            ExpenseCategory::Transportation => 2,
            ExpenseCategory::Education => 3,
            ExpenseCategory::Other => 2,
        }
    }

    /// The place of the category in the canonical order, from 0 to 5.
    pub open spec fn rank(self) -> int {
        match self {
            ExpenseCategory::Essential => 0,
            ExpenseCategory::Lifestyle => 1,
            ExpenseCategory::Health => 2,
            ExpenseCategory::Transportation => 3,
            ExpenseCategory::Education => 4,
            ExpenseCategory::Other => 5,
        }
    }

    /// The category at the given place of the canonical order.
    pub fn at(index: usize) -> (r: ExpenseCategory)
        requires
            index < 6,
        ensures
            r.rank() == index,
    {
        if index == 0 {
            ExpenseCategory::Essential
        } else if index == 1 {
            ExpenseCategory::Lifestyle
        } else if index == 2 {
            ExpenseCategory::Health
        } else if index == 3 {
            ExpenseCategory::Transportation
        } else if index == 4 {
            ExpenseCategory::Education
        } else {
            ExpenseCategory::Other
        }
    }
}

/// A recurring expense.
#[derive(Debug, Clone, PartialEq)]
pub struct Expense {
    /// The identifier of the expense.
    pub id: String,
    /// The name shown for the expense.
    pub name: String,
    /// The category of the expense.
    pub category: ExpenseCategory,
    /// The monthly amount.
    pub monthly_amount: Amount,
    /// Whether the expense is currently paid.
    pub active: bool,
}

impl Expense {
    /// The yearly cost: twelve months of an active expense, nothing of an
    /// inactive one.
    pub open spec fn yearly(self) -> int {
        if self.active {
            self.monthly_amount@ * 12
        } else {
            0
        }
    }

    /// An active expense.
    pub fn new(id: String, name: String, category: ExpenseCategory, monthly_amount: Amount) -> (r:
        Expense)
        ensures
            r.id == id,
            r.name == name,
            r.category == category,
            r.monthly_amount == monthly_amount,
            r.active,
    {
        Expense { id, name, category, monthly_amount, active: true }
    }

    /// The yearly cost.
    pub fn annual_cost(&self) -> (r: Amount)
        requires
            self.active ==> self.monthly_amount.product_fits(Amount::whole(12)),
        ensures
            r@ == self.yearly(),
            r == if self.active {
                self.monthly_amount.product_of(Amount::whole(12))
            } else {
                Amount::whole(0)
            },
    {
        if self.active {
            self.monthly_amount.times_whole(12)
        } else {
            Amount::zero()
        }
    }

    /// Sets the monthly amount.
    pub fn adjust_amount(&mut self, new_amount: Amount)
        ensures
            final(self).monthly_amount == new_amount,
            final(self).id == old(self).id,
            final(self).name == old(self).name,
            final(self).category == old(self).category,
            final(self).active == old(self).active,
    {
        self.monthly_amount = new_amount;
    }

    /// Stops the expense from being paid.
    pub fn deactivate(&mut self)
        ensures
            !final(self).active,
            final(self).id == old(self).id,
            final(self).name == old(self).name,
            final(self).category == old(self).category,
            final(self).monthly_amount == old(self).monthly_amount,
    {
        self.active = false;
    }

    /// Lets the expense be paid again.
    pub fn activate(&mut self)
        ensures
            final(self).active,
            final(self).id == old(self).id,
            final(self).name == old(self).name,
            final(self).category == old(self).category,
            final(self).monthly_amount == old(self).monthly_amount,
    {
        self.active = true;
    }
}

/// What is set aside for one category in a month, and what was spent of it.
#[derive(Debug, Clone, Copy, PartialEq)]
pub struct BudgetAllocation {
    /// The category the allocation is for.
    pub category: ExpenseCategory,
    /// The amount set aside for the month.
    pub allocated: Amount,
    /// The amount spent so far this month.
    pub spent: Amount,
}

impl BudgetAllocation {
    /// What was spent beyond the allocation, and nothing where the spending is within it.
    pub open spec fn excess(self) -> int {
        if self.spent@ > self.allocated@ {
            self.spent@ - self.allocated@
        } else {
            0
        }
    }

    /// An allocation of which nothing is spent yet.
    pub fn new(category: ExpenseCategory, allocated: Amount) -> (r: BudgetAllocation)
        ensures
            r.category == category,
            r.allocated == allocated,
            r.spent@ == 0,
            r.spent == Amount::whole(0),
    {
        BudgetAllocation { category, allocated, spent: Amount::zero() }
    }

    /// Records spending. An amount that is not positive is refused and
    /// leaves the allocation as it was.
    pub fn spend(&mut self, amount: Amount) -> (r: Result<(), String>)
        requires
            amount@ > 0 ==> old(self).spent.sum_fits(amount),
        ensures
            r is Ok <==> amount@ > 0,
            r is Err ==> r->Err_0@ == "Spend amount must be positive"@,
            r is Err ==> *final(self) == *old(self),
            r is Ok ==> final(self).spent@ == old(self).spent@ + amount@,
            r is Ok ==> final(self).spent == old(self).spent.sum_of(amount),
            final(self).category == old(self).category,
            final(self).allocated == old(self).allocated,
    {
        if !amount.is_positive() {
            return Err("Spend amount must be positive".to_string());
        }
        self.spent = self.spent.plus(amount);
        Ok(())
    }

    /// What is left of the allocation, negative where it is overspent.
    pub fn remaining(&self) -> (r: Amount)
        requires
            self.allocated.difference_fits(self.spent),
        ensures
            r == self.allocated.difference_of(self.spent),
            r@ == self.allocated@ - self.spent@,
    {
        self.allocated.minus(self.spent)
    }

    /// Whether more was spent than was allocated.
    pub fn is_over_budget(&self) -> (r: bool)
        ensures
            r == (self.spent@ > self.allocated@),
    {
        self.spent.gt(&self.allocated)
    }

    /// What was spent beyond the allocation.
    pub fn overspend(&self) -> (r: Amount)
        requires
            self.spent@ > self.allocated@ ==> self.spent.difference_fits(self.allocated),
        ensures
            r@ == self.excess(),
            r == if self.spent@ > self.allocated@ {
                self.spent.difference_of(self.allocated)
            } else {
                Amount::whole(0)
            },
    {
        if self.is_over_budget() {
            self.spent.minus(self.allocated)
        } else {
            Amount::zero()
        }
    }

    /// Starts a new month: nothing is spent.
    pub fn reset_month(&mut self)
        ensures
            final(self).spent@ == 0,
            final(self).spent == Amount::whole(0),
            final(self).category == old(self).category,
            final(self).allocated == old(self).allocated,
    {
        self.spent = Amount::zero();
    }
}

} // verus!

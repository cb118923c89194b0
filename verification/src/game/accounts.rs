//! Savings and investment accounts, and physical assets.

use crate::amount::{product_units, unit, Amount};
use crate::clock::{TimeSpan, Timestamp};
use vstd::prelude::*;

verus! {

/// The kind of an account.
#[derive(Debug, Clone, PartialEq, Eq)]
pub enum AccountKind {
    /// A tax-advantaged retirement account of the market's type with this identifier.
    Retirement { account_type_id: String },
    /// An ordinary taxable brokerage account.
    Taxable,
    /// Savings kept for emergencies.
    EmergencyFund,
    /// Savings toward the named goal.
    SinkingFund { goal: String },
}

/// A savings or investment account.
#[derive(Debug, Clone, PartialEq)]
pub struct Account {
    /// The identifier of the account.
    pub id: String,
    /// The name shown for the account.
    pub name: String,
    /// The kind of the account.
    pub kind: AccountKind,
    /// The current balance.
    pub balance: Amount,
    /// When the account was opened.
    pub opened_at: Timestamp,
    /// Everything paid in so far.
    pub total_contributions: Amount,
    /// Everything taken out so far.
    pub total_withdrawals: Amount,
}

impl Account {
    /// Whether the two accounts agree in everything but their three amounts.
    pub open spec fn same_holder(self, other: Account) -> bool {
        &&& self.id == other.id
        &&& self.name == other.name
        &&& self.kind == other.kind
        &&& self.opened_at == other.opened_at
    }

    /// An empty account opened at the given time.
    pub fn opened(id: String, name: String, kind: AccountKind, opened_at: Timestamp) -> (r: Account)
        ensures
            r.id == id,
            r.name == name,
            r.kind == kind,
            r.opened_at == opened_at,
            r.balance == Amount::whole(0),
            r.total_contributions == Amount::whole(0),
            r.total_withdrawals == Amount::whole(0),
            r.balance@ == 0,
            r.total_contributions@ == 0,
            r.total_withdrawals@ == 0,
    {
        Account {
            id,
            name,
            kind,
            balance: Amount::zero(),
            opened_at,
            total_contributions: Amount::zero(),
            total_withdrawals: Amount::zero(),
        }
    }

    /// An empty account opened now, by the system clock.
    pub fn new(id: String, name: String, kind: AccountKind) -> (r: Account)
        ensures
            r.id == id,
            r.name == name,
            r.kind == kind,
            r.balance == Amount::whole(0),
            r.total_contributions == Amount::whole(0),
            r.total_withdrawals == Amount::whole(0),
            r.balance@ == 0,
            r.total_contributions@ == 0,
            r.total_withdrawals@ == 0,
    {
        Account::opened(id, name, kind, Timestamp::now())
    }

    /// Pays `amount` into the account. An amount that is not positive is
    /// refused and leaves the account as it was.
    pub fn deposit(&mut self, amount: Amount) -> (r: Result<(), String>)
        requires
            amount@ > 0 ==> old(self).balance.sum_fits(amount),
            amount@ > 0 ==> old(self).total_contributions.sum_fits(amount),
        ensures
            r is Ok <==> amount@ > 0,
            r is Err ==> r->Err_0@ == "Deposit amount must be positive"@,
            r is Err ==> *final(self) == *old(self),
            r is Ok ==> final(self).balance@ == old(self).balance@ + amount@,
            r is Ok ==> final(self).balance == old(self).balance.sum_of(amount),
            r is Ok ==> final(self).total_contributions@ == old(self).total_contributions@
                + amount@,
            r is Ok ==> final(self).total_contributions == old(self).total_contributions.sum_of(
                amount,
            ),
            r is Ok ==> final(self).total_withdrawals == old(self).total_withdrawals,
            final(self).same_holder(*old(self)),
    {
        if !amount.is_positive() {
            return Err("Deposit amount must be positive".to_string());
        }
        self.balance = self.balance.plus(amount);
        self.total_contributions = self.total_contributions.plus(amount);
        Ok(())
    }

    /// Takes `amount` out of the account. An amount that is not positive, or
    /// more than the balance, is refused and leaves the account as it was.
    pub fn withdraw(&mut self, amount: Amount) -> (r: Result<(), String>)
        requires
            0 < amount@ <= old(self).balance@ ==> old(self).balance.difference_fits(amount),
            0 < amount@ <= old(self).balance@ ==> old(self).total_withdrawals.sum_fits(amount),
        ensures
            r is Ok <==> 0 < amount@ <= old(self).balance@,
            amount@ <= 0 ==> r is Err && r->Err_0@ == "Withdrawal amount must be positive"@,
            amount@ > old(self).balance@ && amount@ > 0 ==> r is Err && r->Err_0@
                == "Insufficient funds"@,
            r is Err ==> *final(self) == *old(self),
            r is Ok ==> final(self).balance@ == old(self).balance@ - amount@,
            r is Ok ==> final(self).balance == old(self).balance.difference_of(amount),
            r is Ok ==> final(self).total_withdrawals@ == old(self).total_withdrawals@ + amount@,
            r is Ok ==> final(self).total_withdrawals == old(self).total_withdrawals.sum_of(amount),
            r is Ok ==> final(self).total_contributions == old(self).total_contributions,
            final(self).same_holder(*old(self)),
    {
        if !amount.is_positive() {
            return Err("Withdrawal amount must be positive".to_string());
        }
        if amount.gt(&self.balance) {
            return Err("Insufficient funds".to_string());
        }
        self.balance = self.balance.minus(amount);
        self.total_withdrawals = self.total_withdrawals.plus(amount);
        Ok(())
    }

    /// The nanoseconds from the opening of the account to the time `now`, and
    /// none where the opening is the later.
    pub open spec fn held_until(self, now: Timestamp) -> int {
        if now.nanos_since_epoch() >= self.opened_at.nanos_since_epoch() {
            now.nanos_since_epoch() - self.opened_at.nanos_since_epoch()
        } else {
            0
        }
    }

    /// How long the account had been open at the time `now`.
    pub fn holding_period_at(&self, now: &Timestamp) -> (r: TimeSpan)
        ensures
            r.total_nanos() == self.held_until(*now),
    {
        now.since(&self.opened_at)
    }

    /// How long the account has been open, by the system clock: the time
    /// from the opening to some point in time, or no time.
    pub fn holding_period(&self) -> (r: TimeSpan)
        ensures
            exists|now: Timestamp| r.total_nanos() == #[trigger] self.held_until(now),
    {
        let now = Timestamp::now();
        self.holding_period_at(&now)
    }

    /// The gain or loss, digit for digit.
    pub open spec fn gain_amount(self) -> Amount {
        self.balance.difference_of(self.total_contributions).sum_of(self.total_withdrawals)
    }

    /// Whether the gain of the account can be computed exactly.
    pub open spec fn gain_fits(self) -> bool {
        &&& self.balance.difference_fits(self.total_contributions)
        &&& self.balance.difference_of(self.total_contributions).sum_fits(self.total_withdrawals)
    }

    /// The gain or loss: the balance, less what was paid in, plus what was taken out.
    pub fn capital_gain(&self) -> (r: Amount)
        requires
            self.gain_fits(),
        ensures
            r == self.gain_amount(),
            r@ == self.balance@ - self.total_contributions@ + self.total_withdrawals@,
    {
        self.balance.minus(self.total_contributions).plus(self.total_withdrawals)
    }

    /// The gain or loss, where it can be computed exactly.
    pub fn checked_capital_gain(&self) -> (r: Option<Amount>)
        ensures
            r is Some <==> self.gain_fits(),
            r is Some ==> r->Some_0 == self.gain_amount(),
            r is Some ==> r->Some_0@ == self.balance@ - self.total_contributions@
                + self.total_withdrawals@,
    {
        match self.balance.checked_sub(self.total_contributions) {
            Some(net) => net.checked_add(self.total_withdrawals),
            None => None,
        }
    }

    /// Whether the rate of return can be applied: the balance times the
    /// growth factor of the rate does not overflow.
    pub open spec fn return_defined(self, rate: Amount) -> bool {
        self.balance.product(growth_factor(rate)) is Some
    }

    /// Whether `after` is `self` with the rate of return applied: the
    /// balance is multiplied by one plus the rate, exactly where the product
    /// can be written exactly and rounded by `rust_decimal` where it cannot;
    /// nothing else has changed.
    pub open spec fn return_applied(self, after: Account, rate: Amount) -> bool {
        &&& after.balance == self.balance.product_amount(growth_factor(rate))
        &&& self.balance.product_fits(growth_factor(rate)) ==> {
            &&& after.balance == self.balance.product_of(growth_factor(rate))
            &&& after.balance@ == product_units(self.balance@, unit() + rate@)
            &&& after.balance@ * unit() == self.balance@ * (unit() + rate@)
        }
        &&& after.total_contributions == self.total_contributions
        &&& after.total_withdrawals == self.total_withdrawals
        &&& after.same_holder(self)
    }

    /// Applies a rate of return, which may be negative: the balance is
    /// multiplied by one plus the rate.
    pub fn apply_return(&mut self, return_rate: Amount)
        requires
            growth_factor_fits(return_rate),
            old(self).return_defined(return_rate),
        ensures
            old(self).return_applied(*final(self), return_rate),
    {
        let factor = Amount::from_i64(1).plus(return_rate);
        match self.balance.rounded_mul(factor) {
            Some(balance) => {
                self.balance = balance;
            },
            None => {},
        }
    }

    /// Applies a rate of return where that can be done, and says whether it
    /// was: where one plus the rate cannot be written exactly, or the new
    /// balance overflows, the account stays as it was.
    pub fn try_apply_return(&mut self, return_rate: Amount) -> (applied: bool)
        ensures
            applied <==> growth_factor_fits(return_rate) && old(self).return_defined(return_rate),
            applied ==> old(self).return_applied(*final(self), return_rate),
            !applied ==> *final(self) == *old(self),
    {
        match Amount::from_i64(1).checked_add(return_rate) {
            Some(factor) => {
                if self.balance.rounded_mul(factor).is_some() {
                    self.apply_return(return_rate);
                    true
                } else {
                    false
                }
            },
            None => false,
        }
    }
}

/// One plus a rate, digit for digit: the factor by which the rate makes a value grow.
pub open spec fn growth_factor(rate: Amount) -> Amount {
    Amount::whole(1).sum_of(rate)
}

/// Whether one plus the rate can be written exactly.
pub open spec fn growth_factor_fits(rate: Amount) -> bool {
    Amount::whole(1).sum_fits(rate)
}

/// The category of a physical asset.
#[derive(Debug, Clone, PartialEq, Eq)]
pub enum AssetCategory {
    RealEstate,
    Vehicle,
    Other,
}

/// A physical or other asset.
#[derive(Debug, Clone, PartialEq)]
pub struct Asset {
    /// The identifier of the asset.
    pub id: String,
    /// The name shown for the asset.
    pub name: String,
    /// The category of the asset.
    pub category: AssetCategory,
    /// The current market value.
    pub value: Amount,
    /// The price paid for it.
    pub purchase_price: Amount,
    /// When it was acquired.
    pub acquired_at: Timestamp,
    /// What it costs each month to keep.
    pub monthly_cost: Amount,
}

impl Asset {
    /// An asset acquired at the given time, valued at its purchase price.
    pub fn acquired(
        id: String,
        name: String,
        category: AssetCategory,
        purchase_price: Amount,
        monthly_cost: Amount,
        acquired_at: Timestamp,
    ) -> (r: Asset)
        ensures
            r.id == id,
            r.name == name,
            r.category == category,
            r.value == purchase_price,
            r.purchase_price == purchase_price,
            r.acquired_at == acquired_at,
            r.monthly_cost == monthly_cost,
    {
        Asset { id, name, category, value: purchase_price, purchase_price, acquired_at, monthly_cost }
    }

    /// An asset acquired now, by the system clock, valued at its purchase price.
    pub fn new(
        id: String,
        name: String,
        category: AssetCategory,
        purchase_price: Amount,
        monthly_cost: Amount,
    ) -> (r: Asset)
        ensures
            r.id == id,
            r.name == name,
            r.category == category,
            r.value == purchase_price,
            r.purchase_price == purchase_price,
            r.monthly_cost == monthly_cost,
    {
        Asset::acquired(id, name, category, purchase_price, monthly_cost, Timestamp::now())
    }

    /// The gain or loss: the value less the purchase price.
    pub fn capital_gain(&self) -> (r: Amount)
        requires
            self.value.difference_fits(self.purchase_price),
        ensures
            r == self.value.difference_of(self.purchase_price),
            r@ == self.value@ - self.purchase_price@,
    {
        self.value.minus(self.purchase_price)
    }

    /// The gain or loss, where it can be computed exactly.
    pub fn checked_capital_gain(&self) -> (r: Option<Amount>)
        ensures
            r is Some <==> self.value.difference_fits(self.purchase_price),
            r is Some ==> r->Some_0 == self.value.difference_of(self.purchase_price),
            r is Some ==> r->Some_0@ == self.value@ - self.purchase_price@,
    {
        self.value.checked_sub(self.purchase_price)
    }

    /// Whether the rate can be applied: the value times the growth factor of
    /// the rate does not overflow.
    pub open spec fn depreciation_defined(self, rate: Amount) -> bool {
        self.value.product(growth_factor(rate)) is Some
    }

    /// The view of the value after the rate is applied, where the product
    /// can be written exactly: the value times one plus the rate, and zero
    /// where that is negative.
    pub open spec fn depreciated(self, rate: Amount) -> int {
        let scaled = product_units(self.value@, unit() + rate@);
        if scaled < 0 {
            0
        } else {
            scaled
        }
    }

    /// Whether `after` is `self` with the rate applied: the value is
    /// multiplied by one plus the rate, exactly where the product can be
    /// written exactly and rounded by `rust_decimal` where it cannot, and is
    /// zero where the product is negative; nothing else has changed.
    pub open spec fn rate_applied(self, after: Asset, rate: Amount) -> bool {
        &&& after.value == if self.value.product_amount(growth_factor(rate))@ < 0 {
            Amount::whole(0)
        } else {
            self.value.product_amount(growth_factor(rate))
        }
        &&& after.value@ >= 0
        &&& self.value.product_fits(growth_factor(rate)) ==> after.value@ == self.depreciated(rate)
        &&& after.id == self.id
        &&& after.name == self.name
        &&& after.category == self.category
        &&& after.purchase_price == self.purchase_price
        &&& after.acquired_at == self.acquired_at
        &&& after.monthly_cost == self.monthly_cost
    }

    /// Applies a rate of depreciation, given as a negative rate: the value is
    /// multiplied by one plus the rate and never falls below zero.
    pub fn depreciate(&mut self, rate: Amount)
        requires
            growth_factor_fits(rate),
            old(self).depreciation_defined(rate),
        ensures
            old(self).rate_applied(*final(self), rate),
    {
        let factor = Amount::from_i64(1).plus(rate);
        match self.value.rounded_mul(factor) {
            Some(value) => {
                self.value = value;
            },
            None => {},
        }
        if self.value.is_negative() {
            self.value = Amount::zero();
        }
    }

    /// Applies a rate of depreciation where that can be done, and says
    /// whether it was: where one plus the rate cannot be written exactly, or
    /// the new value overflows, the asset stays as it was.
    pub fn try_depreciate(&mut self, rate: Amount) -> (applied: bool)
        ensures
            applied <==> growth_factor_fits(rate) && old(self).depreciation_defined(rate),
            applied ==> old(self).rate_applied(*final(self), rate),
            !applied ==> *final(self) == *old(self),
    {
        match Amount::from_i64(1).checked_add(rate) {
            Some(factor) => {
                if self.value.rounded_mul(factor).is_some() {
                    self.depreciate(rate);
                    true
                } else {
                    false
                }
            },
            None => false,
        }
    }
}

} // verus!

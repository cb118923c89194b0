//! Sources of income.

use crate::amount::Amount;
use vstd::prelude::*;

verus! {

/// The kind of a source of income.
#[derive(Debug, Clone, Copy, PartialEq, Eq, Structural)]
pub enum IncomeKind {
    /// A salary from employment.
    Employment,
    /// Freelance or contract work.
    Freelance,
    /// Dividends, rent and other income without work.
    Passive,
    /// A bonus, a gift or another single payment.
    OneTime,
}

/// A source of income.
#[derive(Debug, Clone, PartialEq)]
pub struct Income {
    /// The identifier of the source.
    pub id: String,
    /// The name shown for the source.
    pub name: String,
    /// The kind of the source.
    pub kind: IncomeKind,
    /// The monthly amount before tax.
    pub gross_monthly: Amount,
    /// Whether the source currently pays.
    pub active: bool,
}

impl Income {
    /// The yearly amount before tax: twelve months of an active source,
    /// nothing of an inactive one.
    pub open spec fn yearly(self) -> int {
        if self.active {
            self.gross_monthly@ * 12
        } else {
            0
        }
    }

    /// An active source of income.
    pub fn new(id: String, name: String, kind: IncomeKind, gross_monthly: Amount) -> (r: Income)
        ensures
            r.id == id,
            r.name == name,
            r.kind == kind,
            r.gross_monthly == gross_monthly,
            r.active,
    {
        Income { id, name, kind, gross_monthly, active: true }
    }

    /// Stops the source from paying.
    pub fn deactivate(&mut self)
        ensures
            !final(self).active,
            final(self).id == old(self).id,
            final(self).name == old(self).name,
            final(self).kind == old(self).kind,
            final(self).gross_monthly == old(self).gross_monthly,
    {
        self.active = false;
    }

    /// Lets the source pay again.
    pub fn activate(&mut self)
        ensures
            final(self).active,
            final(self).id == old(self).id,
            final(self).name == old(self).name,
            final(self).kind == old(self).kind,
            final(self).gross_monthly == old(self).gross_monthly,
    {
        self.active = true;
    }

    /// Sets the monthly amount before tax.
    pub fn adjust_amount(&mut self, new_amount: Amount)
        ensures
            final(self).gross_monthly == new_amount,
            final(self).id == old(self).id,
            final(self).name == old(self).name,
            final(self).kind == old(self).kind,
            final(self).active == old(self).active,
    {
        self.gross_monthly = new_amount;
    }

    /// The yearly amount before tax.
    pub fn annual_gross(&self) -> (r: Amount)
        requires
            self.active ==> self.gross_monthly.product_fits(Amount::whole(12)),
        ensures
            r@ == self.yearly(),
            r == if self.active {
                self.gross_monthly.product_of(Amount::whole(12))
            } else {
                Amount::whole(0)
            },
    {
        if self.active {
            self.gross_monthly.times_whole(12)
        } else {
            Amount::zero()
        }
    }
}

} // verus!

//! The rules of a market: what a jurisdiction takes in tax, which accounts it
//! favours, and when its people retire.

use crate::amount::Amount;
use crate::clock::TimeSpan;
use vstd::prelude::*;

verus! {

/// A currency.
#[derive(Debug, Clone, Copy, PartialEq, Eq, Structural)]
pub enum Currency {
    CZK,
    USD,
    GBP,
    EUR,
}

impl Currency {
    /// The symbol of the currency.
    pub open spec fn sign(self) -> Seq<char> {
        match self {
            Currency::CZK => "Kč"@,
            Currency::USD => "$"@,
            Currency::GBP => "£"@,
            Currency::EUR => "€"@,
        }
    }

    /// The symbol of the currency.
    pub fn symbol(&self) -> (r: &'static str)
        ensures
            r@ == self.sign(),
    {
        match self {
            Currency::CZK => "Kč",
            Currency::USD => "$",
            Currency::GBP => "£",
            Currency::EUR => "€",
        }
    }

    /// The number of decimal places of the smallest unit of the currency.
    pub fn minor_units(&self) -> (r: u32)
        ensures
            r == 2,
    {
        match self {
            Currency::CZK => 2,
            Currency::USD => 2,
            Currency::GBP => 2,
            Currency::EUR => 2,
        }
    }
}

/// What is taken from a gross income, by component.
#[derive(Debug, Clone, Copy)]
pub struct TaxBreakdown {
    /// The income tax.
    pub income_tax: Amount,
    /// The contribution to social insurance.
    pub social_insurance: Amount,
    /// The contribution to health insurance.
    pub health_insurance: Amount,
    /// Everything that is taken.
    pub total: Amount,
}

impl TaxBreakdown {
    /// Whether the total is the sum of the three components.
    pub open spec fn adds_up(self) -> bool {
        self.total@ == self.income_tax@ + self.social_insurance@ + self.health_insurance@
    }
}

/// A type of tax-advantaged account that a market offers.
#[derive(Debug, Clone)]
pub struct AccountType {
    /// The identifier of the type.
    pub id: String,
    /// The name shown for the type.
    pub name: String,
    /// What may be paid in per year, where there is a limit.
    pub annual_limit: Option<Amount>,
    /// Whether an employer can contribute.
    pub employer_match: bool,
}

/// The rules of one market. Each supported jurisdiction implements them once.
///
/// A market whose rules are not implemented answers with an error, never with
/// a tax of zero: callers can tell "no tax is due" from "the rules are missing".
pub trait MarketProfile: Send + Sync {
    /// The currency of the market.
    fn currency(&self) -> Currency;

    /// What is taken from a gross monthly income, by component, or an error
    /// where the market cannot say.
    fn calculate_income_tax(&self, gross_income: Amount) -> (r: Result<TaxBreakdown, String>)
        ensures
            r is Ok ==> r->Ok_0.adds_up(),
    ;

    /// The types of tax-advantaged account that the market offers.
    fn available_accounts(&self) -> Vec<AccountType>;

    /// The tax on a capital gain after the given holding period, or an error
    /// where the market cannot say.
    fn capital_gains_tax(&self, holding_period: TimeSpan, gain: Amount) -> Result<Amount, String>;

    /// The age at which people retire.
    fn retirement_age(&self) -> u8;

    /// The identifier of the market, such as "czech".
    fn market_id(&self) -> &'static str;

    /// The name shown for the market.
    fn market_name(&self) -> &'static str;
}

} // verus!

//! The United Kingdom: a market whose rules are not implemented.

use crate::amount::Amount;
use crate::clock::TimeSpan;
use crate::market::{AccountType, Currency, MarketProfile, TaxBreakdown};
use vstd::prelude::*;

verus! {

/// The market of the United Kingdom.
#[derive(Debug, Clone, Copy)]
pub struct UkMarket;

impl UkMarket {
    /// The market of the United Kingdom.
    pub fn new() -> (r: UkMarket)
        ensures
            r == UkMarket,
    {
        UkMarket
    }
}

impl Default for UkMarket {
    fn default() -> (r: UkMarket)
        ensures
            r == UkMarket,
    {
        UkMarket::new()
    }
}

impl MarketProfile for UkMarket {
    fn currency(&self) -> (r: Currency)
        ensures
            r == Currency::GBP,
    {
        Currency::GBP
    }

    /// Always an error: the rules are not implemented.
    fn calculate_income_tax(&self, gross_income: Amount) -> (r: Result<TaxBreakdown, String>)
        ensures
            r is Err,
            r->Err_0@ == "UK market not yet implemented"@,
    {
        Err("UK market not yet implemented".to_string())
    }

    /// No account types are known.
    fn available_accounts(&self) -> (r: Vec<AccountType>)
        ensures
            r@.len() == 0,
    {
        Vec::new()
    }

    /// Always an error: the rules are not implemented.
    fn capital_gains_tax(&self, holding_period: TimeSpan, gain: Amount) -> (r: Result<
        Amount,
        String,
    >)
        ensures
            r is Err,
            r->Err_0@ == "UK market not yet implemented"@,
    {
        Err("UK market not yet implemented".to_string())
    }

    fn retirement_age(&self) -> (r: u8)
        ensures
            r == 66,
    {
        66
    }

    fn market_id(&self) -> (r: &'static str)
        ensures
            r@ == "uk"@,
    {
        "uk"
    }

    fn market_name(&self) -> (r: &'static str)
        ensures
            r@ == "United Kingdom"@,
    {
        "United Kingdom"
    }
}

} // verus!

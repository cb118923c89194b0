//! The United States: a market whose rules are not implemented.

use crate::amount::Amount;
use crate::clock::TimeSpan;
use crate::market::{AccountType, Currency, MarketProfile, TaxBreakdown};
use vstd::prelude::*;

verus! {

/// The market of the United States.
#[derive(Debug, Clone, Copy)]
pub struct UsaMarket;

impl UsaMarket {
    /// The market of the United States.
    pub fn new() -> (r: UsaMarket)
        ensures
            r == UsaMarket,
    {
        UsaMarket
    }
}

impl Default for UsaMarket {
    fn default() -> (r: UsaMarket)
        ensures
            r == UsaMarket,
    {
        UsaMarket::new()
    }
}

impl MarketProfile for UsaMarket {
    fn currency(&self) -> (r: Currency)
        ensures
            r == Currency::USD,
    {
        Currency::USD
    }

    /// Always an error: the rules are not implemented.
    fn calculate_income_tax(&self, gross_income: Amount) -> (r: Result<TaxBreakdown, String>)
        ensures
            r is Err,
            r->Err_0@ == "USA market not yet implemented"@,
    {
        Err("USA market not yet implemented".to_string())
    }

    /// No account types are known.
    fn available_accounts(&self) -> (r: Vec<AccountType>)
        ensures
            r@.len() == 0,
    {
        Vec::new()
    }

    /// Always an error: the rules are not implemented.
    fn capital_gains_tax(&self, holding_period: TimeSpan, gain: Amount) -> (r: Result<
        Amount,
        String,
    >)
        ensures
            r is Err,
            r->Err_0@ == "USA market not yet implemented"@,
    {
        Err("USA market not yet implemented".to_string())
    }

    fn retirement_age(&self) -> (r: u8)
        ensures
            r == 67,
    {
        67
    }

    fn market_id(&self) -> (r: &'static str)
        ensures
            r@ == "usa"@,
    {
        "usa"
    }

    fn market_name(&self) -> (r: &'static str)
        ensures
            r@ == "United States"@,
    {
        "United States"
    }
}

} // verus!

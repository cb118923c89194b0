//! The closed list of markets, by identifier.

use crate::amount::Amount;
use crate::clock::TimeSpan;
use crate::market::{AccountType, Currency, MarketProfile, TaxBreakdown};
use crate::markets::czech::{
    czech_breakdown, czech_tax_defined, health_rate, income_tax_rate, social_rate, CzechMarket,
    EXEMPT_AFTER_SECS,
};
use crate::markets::uk::UkMarket;
use crate::markets::usa::UsaMarket;
use vstd::prelude::*;

verus! {

/// One of the markets that the engine knows.
#[derive(Debug, Clone, Copy)]
pub enum Market {
    Czech(CzechMarket),
    Usa(UsaMarket),
    Uk(UkMarket),
}

impl Market {
    /// Whether the market is the one with the identifier.
    pub open spec fn has_id(self, id: Seq<char>) -> bool {
        match self {
            Market::Czech(_) => id == "czech"@,
            Market::Usa(_) => id == "usa"@,
            Market::Uk(_) => id == "uk"@,
        }
    }

    /// Whether a market has the identifier.
    pub open spec fn supported(id: Seq<char>) -> bool {
        id == "czech"@ || id == "usa"@ || id == "uk"@
    }

    /// The market with the identifier. An identifier that no market has
    /// gives none: there is no market to fall back on.
    pub fn resolve(market_id: &str) -> (r: Option<Market>)
        ensures
            r is Some <==> Self::supported(market_id@),
            r is Some ==> r->Some_0.has_id(market_id@),
    {
        let wanted = market_id.to_string();
        if wanted == "czech".to_string() {
            Some(Market::Czech(CzechMarket::new()))
        } else if wanted == "usa".to_string() {
            Some(Market::Usa(UsaMarket::new()))
        } else if wanted == "uk".to_string() {
            Some(Market::Uk(UkMarket::new()))
        } else {
            None
        }
    }
}

impl MarketProfile for Market {
    fn currency(&self) -> (r: Currency)
        ensures
            *self is Czech ==> r == Currency::CZK,
            *self is Usa ==> r == Currency::USD,
            *self is Uk ==> r == Currency::GBP,
    {
        match self {
            Market::Czech(m) => m.currency(),
            Market::Usa(m) => m.currency(),
            Market::Uk(m) => m.currency(),
        }
    }

    /// The answer of the market itself.
    fn calculate_income_tax(&self, gross_income: Amount) -> (r: Result<TaxBreakdown, String>)
        ensures
            *self is Czech ==> (r is Ok <==> czech_tax_defined(gross_income)),
            *self is Czech && r is Ok ==> r->Ok_0 == czech_breakdown(gross_income),
            *self is Czech && r is Ok && gross_income.product_fits(social_rate())
                ==> r->Ok_0.social_insurance@ * 1000 == gross_income@ * 71,
            *self is Czech && r is Ok && gross_income.product_fits(health_rate())
                ==> r->Ok_0.health_insurance@ * 1000 == gross_income@ * 45,
            *self is Czech && r is Ok && gross_income.product_fits(income_tax_rate())
                ==> r->Ok_0.income_tax@ * 100 == gross_income@ * 15,
            *self is Czech && r is Err ==> r->Err_0@
                == "Income out of range for the Czech tax rates"@,
            *self is Usa ==> r is Err && r->Err_0@ == "USA market not yet implemented"@,
            *self is Uk ==> r is Err && r->Err_0@ == "UK market not yet implemented"@,
    {
        match self {
            Market::Czech(m) => m.calculate_income_tax(gross_income),
            Market::Usa(m) => m.calculate_income_tax(gross_income),
            Market::Uk(m) => m.calculate_income_tax(gross_income),
        }
    }

    /// The account types of the market itself.
    fn available_accounts(&self) -> (r: Vec<AccountType>)
        ensures
            *self is Czech ==> {
                &&& r@.len() == 3
                &&& r@[0].id@ == "dip"@
                &&& r@[0].name@ == "DIP (Doplňkové penzijní spoření)"@
                &&& r@[0].annual_limit == Some(Amount::whole(48000))
                &&& r@[0].employer_match
                &&& r@[1].id@ == "third_pillar"@
                &&& r@[1].name@ == "III. pilíř (Doplňkové penzijní spoření)"@
                &&& r@[1].annual_limit == Some(Amount::whole(24000))
                &&& !r@[1].employer_match
                &&& r@[2].id@ == "stavebni_sporeni"@
                &&& r@[2].name@ == "Stavební spoření"@
                &&& r@[2].annual_limit == Some(Amount::whole(20000))
                &&& !r@[2].employer_match
            },
            !(*self is Czech) ==> r@.len() == 0,
    {
        match self {
            Market::Czech(m) => m.available_accounts(),
            Market::Usa(m) => m.available_accounts(),
            Market::Uk(m) => m.available_accounts(),
        }
    }

    /// The answer of the market itself.
    fn capital_gains_tax(&self, holding_period: TimeSpan, gain: Amount) -> (r: Result<
        Amount,
        String,
    >)
        ensures
            *self is Czech && holding_period.whole_secs() >= EXEMPT_AFTER_SECS ==> r is Ok && r->Ok_0
                == Amount::whole(0) && r->Ok_0@ == 0,
            *self is Czech && holding_period.whole_secs() < EXEMPT_AFTER_SECS ==> (r is Ok
                <==> gain.product(income_tax_rate()) is Some),
            *self is Czech && holding_period.whole_secs() < EXEMPT_AFTER_SECS && r is Ok ==> r->Ok_0
                == gain.product_amount(income_tax_rate()),
            *self is Czech && holding_period.whole_secs() < EXEMPT_AFTER_SECS && r is Ok
                && gain.product_fits(income_tax_rate()) ==> r->Ok_0@ * 100 == gain@ * 15,
            *self is Czech && r is Err ==> r->Err_0@ == "Gain out of range for the Czech tax rates"@,
            *self is Usa ==> r is Err && r->Err_0@ == "USA market not yet implemented"@,
            *self is Uk ==> r is Err && r->Err_0@ == "UK market not yet implemented"@,
    {
        match self {
            Market::Czech(m) => m.capital_gains_tax(holding_period, gain),
            Market::Usa(m) => m.capital_gains_tax(holding_period, gain),
            Market::Uk(m) => m.capital_gains_tax(holding_period, gain),
        }
    }

    fn retirement_age(&self) -> (r: u8)
        ensures
            *self is Czech ==> r == 65,
            *self is Usa ==> r == 67,
            *self is Uk ==> r == 66,
    {
        match self {
            Market::Czech(m) => m.retirement_age(),
            Market::Usa(m) => m.retirement_age(),
            Market::Uk(m) => m.retirement_age(),
        }
    }

    fn market_id(&self) -> (r: &'static str)
        ensures
            self.has_id(r@),
    {
        match self {
            Market::Czech(m) => m.market_id(),
            Market::Usa(m) => m.market_id(),
            Market::Uk(m) => m.market_id(),
        }
    }

    fn market_name(&self) -> (r: &'static str)
        ensures
            *self is Czech ==> r@ == "Czech Republic"@,
            *self is Usa ==> r@ == "United States"@,
            *self is Uk ==> r@ == "United Kingdom"@,
    {
        match self {
            Market::Czech(m) => m.market_name(),
            Market::Usa(m) => m.market_name(),
            Market::Uk(m) => m.market_name(),
        }
    }
}

} // verus!

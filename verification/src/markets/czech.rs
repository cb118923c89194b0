//! The Czech Republic: flat rates for income tax, social insurance and
//! health insurance, and a three-year holding period after which capital
//! gains are exempt.

use crate::amount::{lemma_pow10_values, Amount};
use crate::clock::TimeSpan;
use crate::market::{AccountType, Currency, MarketProfile, TaxBreakdown};
use vstd::prelude::*;

verus! {

/// The holding period, in seconds, from which capital gains are exempt: three
/// years of 365 days.
pub const EXEMPT_AFTER_SECS: u64 = 94_608_000;

/// The employee's rate of social insurance: 7.1 %.
pub open spec fn social_rate() -> Amount {
    Amount::scaled(71, 3)
}

/// The employee's rate of health insurance: 4.5 %.
pub open spec fn health_rate() -> Amount {
    Amount::scaled(45, 3)
}

/// The rate of income tax, which is also taken from short-held capital gains: 15 %.
pub open spec fn income_tax_rate() -> Amount {
    Amount::scaled(15, 2)
}

/// The breakdown for a gross monthly income, digit for digit: each
/// component is the income times its rate, as `rust_decimal` multiplies, and
/// the total is their exact sum.
pub open spec fn czech_breakdown(gross: Amount) -> TaxBreakdown {
    let social_insurance = gross.product_amount(social_rate());
    let health_insurance = gross.product_amount(health_rate());
    let income_tax = gross.product_amount(income_tax_rate());
    TaxBreakdown {
        income_tax,
        social_insurance,
        health_insurance,
        total: income_tax.sum_of(social_insurance).sum_of(health_insurance),
    }
}

/// Whether the breakdown for a gross monthly income can be computed: none of
/// the three products overflows, and their sum can be written exactly.
pub open spec fn czech_tax_defined(gross: Amount) -> bool {
    let social_insurance = gross.product_amount(social_rate());
    let health_insurance = gross.product_amount(health_rate());
    let income_tax = gross.product_amount(income_tax_rate());
    &&& gross.product(social_rate()) is Some
    &&& gross.product(health_rate()) is Some
    &&& gross.product(income_tax_rate()) is Some
    &&& income_tax.sum_fits(social_insurance)
    &&& income_tax.sum_of(social_insurance).sum_fits(health_insurance)
}

/// Whether the three components for a gross monthly income can be written
/// exactly, so that nothing of them is rounded.
pub open spec fn czech_tax_exact(gross: Amount) -> bool {
    &&& gross.product_fits(social_rate())
    &&& gross.product_fits(health_rate())
    &&& gross.product_fits(income_tax_rate())
}

/// The market of the Czech Republic.
#[derive(Debug, Clone, Copy)]
pub struct CzechMarket;

impl CzechMarket {
    /// The market of the Czech Republic.
    pub fn new() -> (r: CzechMarket)
        ensures
            r == CzechMarket,
    {
        CzechMarket
    }
}

impl Default for CzechMarket {
    fn default() -> (r: CzechMarket)
        ensures
            r == CzechMarket,
    {
        CzechMarket::new()
    }
}

/// One of the account types of the Czech market.
fn account_type(id: &str, name: &str, annual_limit: i64, employer_match: bool) -> (r: AccountType)
    ensures
        r.id@ == id@,
        r.name@ == name@,
        r.annual_limit is Some,
        r.annual_limit->Some_0 == Amount::whole(annual_limit as int),
        r.employer_match == employer_match,
{
    AccountType {
        id: id.to_string(),
        name: name.to_string(),
        annual_limit: Some(Amount::from_i64(annual_limit)),
        employer_match,
    }
}

impl MarketProfile for CzechMarket {
    fn currency(&self) -> (r: Currency)
        ensures
            r == Currency::CZK,
    {
        Currency::CZK
    }

    /// Social insurance of 7.1 %, health insurance of 4.5 % and income tax of
    /// 15 % of the gross income, and their sum. An income for which a
    /// component overflows, or the sum cannot be written exactly, is refused.
    fn calculate_income_tax(&self, gross_income: Amount) -> (r: Result<TaxBreakdown, String>)
        ensures
            r is Ok <==> czech_tax_defined(gross_income),
            r is Ok ==> r->Ok_0 == czech_breakdown(gross_income),
            r is Ok && gross_income.product_fits(social_rate()) ==> r->Ok_0.social_insurance@
                * 1000 == gross_income@ * 71,
            r is Ok && gross_income.product_fits(health_rate()) ==> r->Ok_0.health_insurance@
                * 1000 == gross_income@ * 45,
            r is Ok && gross_income.product_fits(income_tax_rate()) ==> r->Ok_0.income_tax@ * 100
                == gross_income@ * 15,
            r is Err ==> r->Err_0@ == "Income out of range for the Czech tax rates"@,
    {
        proof {
            lemma_pow10_values();
        }
        let social = gross_income.rounded_mul(Amount::new(71, 3));
        let health = gross_income.rounded_mul(Amount::new(45, 3));
        let tax = gross_income.rounded_mul(Amount::new(15, 2));
        match (social, health, tax) {
            (Some(social_insurance), Some(health_insurance), Some(income_tax)) => {
                proof {
                    if gross_income.product_fits(social_rate()) {
                        gross_income.lemma_product_with_scaled(
                            social_rate(),
                            social_insurance@,
                            71,
                            3,
                        );
                    }
                    if gross_income.product_fits(health_rate()) {
                        gross_income.lemma_product_with_scaled(
                            health_rate(),
                            health_insurance@,
                            45,
                            3,
                        );
                    }
                    if gross_income.product_fits(income_tax_rate()) {
                        gross_income.lemma_product_with_scaled(
                            income_tax_rate(),
                            income_tax@,
                            15,
                            2,
                        );
                    }
                }
                match income_tax.checked_add(social_insurance) {
                    Some(partial) => match partial.checked_add(health_insurance) {
                        Some(total) => {
                            return Ok(
                                TaxBreakdown {
                                    income_tax,
                                    social_insurance,
                                    health_insurance,
                                    total,
                                },
                            );
                        },
                        None => {},
                    },
                    None => {},
                }
            },
            _ => {},
        }
        Err("Income out of range for the Czech tax rates".to_string())
    }

    /// The three tax-advantaged ways of saving, with their yearly limits.
    fn available_accounts(&self) -> (r: Vec<AccountType>)
        ensures
            r@.len() == 3,
            r@[0].id@ == "dip"@,
            r@[0].name@ == "DIP (Doplňkové penzijní spoření)"@,
            r@[0].annual_limit == Some(Amount::whole(48000)),
            r@[0].employer_match,
            r@[1].id@ == "third_pillar"@,
            r@[1].name@ == "III. pilíř (Doplňkové penzijní spoření)"@,
            r@[1].annual_limit == Some(Amount::whole(24000)),
            !r@[1].employer_match,
            r@[2].id@ == "stavebni_sporeni"@,
            r@[2].name@ == "Stavební spoření"@,
            r@[2].annual_limit == Some(Amount::whole(20000)),
            !r@[2].employer_match,
    {
        let mut accounts: Vec<AccountType> = Vec::new();
        accounts.push(account_type("dip", "DIP (Doplňkové penzijní spoření)", 48000, true));
        accounts.push(
            account_type("third_pillar", "III. pilíř (Doplňkové penzijní spoření)", 24000, false),
        );
        accounts.push(account_type("stavebni_sporeni", "Stavební spoření", 20000, false));
        accounts
    }

    /// Nothing after a holding period of three years; before that, 15 % of
    /// the gain. A gain for which this overflows is refused.
    fn capital_gains_tax(&self, holding_period: TimeSpan, gain: Amount) -> (r: Result<
        Amount,
        String,
    >)
        ensures
            holding_period.whole_secs() >= EXEMPT_AFTER_SECS ==> r is Ok && r->Ok_0 == Amount::whole(
                0,
            ) && r->Ok_0@ == 0,
            holding_period.whole_secs() < EXEMPT_AFTER_SECS ==> (r is Ok <==> gain.product(
                income_tax_rate(),
            ) is Some),
            holding_period.whole_secs() < EXEMPT_AFTER_SECS && r is Ok ==> r->Ok_0
                == gain.product_amount(income_tax_rate()),
            holding_period.whole_secs() < EXEMPT_AFTER_SECS && r is Ok && gain.product_fits(
                income_tax_rate(),
            ) ==> r->Ok_0@ * 100 == gain@ * 15,
            r is Err ==> r->Err_0@ == "Gain out of range for the Czech tax rates"@,
    {
        proof {
            lemma_pow10_values();
        }
        if holding_period.as_secs() >= EXEMPT_AFTER_SECS {
            Ok(Amount::zero())
        } else {
            match gain.rounded_mul(Amount::new(15, 2)) {
                Some(tax) => {
                    proof {
                        if gain.product_fits(income_tax_rate()) {
                            gain.lemma_product_with_scaled(income_tax_rate(), tax@, 15, 2);
                        }
                    }
                    Ok(tax)
                },
                None => Err("Gain out of range for the Czech tax rates".to_string()),
            }
        }
    }

    fn retirement_age(&self) -> (r: u8)
        ensures
            r == 65,
    {
        65
    }

    fn market_id(&self) -> (r: &'static str)
        ensures
            r@ == "czech"@,
    {
        "czech"
    }

    fn market_name(&self) -> (r: &'static str)
        ensures
            r@ == "Czech Republic"@,
    {
        "Czech Republic"
    }
}

} // verus!

//! The player: age, well-being and what was invested in skills.

use crate::amount::{lemma_pow10_values, unit, Amount};
use vstd::prelude::*;

verus! {

/// The player's age, well-being and habits.
#[derive(Debug, Clone, PartialEq)]
pub struct PlayerStats {
    /// The age in years.
    pub age: u8,
    /// The name, where one was given.
    pub name: Option<String>,
    /// The happiness, from 0 to 100.
    pub happiness: u8,
    /// The burnout, from 0 to 100.
    pub burnout: u8,
    /// Whether the player keeps spending level as income grows.
    pub frugality_enabled: bool,
    /// Everything spent so far on education and skills.
    pub human_capital_invested: Amount,
}

/// A level plus a change, kept between 0 and 100.
pub open spec fn clamped(level: int, delta: int) -> int {
    if level + delta < 0 {
        0
    } else if level + delta > 100 {
        100
    } else {
        level + delta
    }
}

/// A level plus a change, kept between 0 and 100.
fn clamp_level(level: u8, delta: i8) -> (r: u8)
    ensures
        r == clamped(level as int, delta as int),
        r <= 100,
{
    let moved: i16 = (level as i16) + (delta as i16);
    if moved < 0 {
        0
    } else if moved > 100 {
        100
    } else {
        moved as u8
    }
}

impl PlayerStats {
    /// The amount by which a unit of investment is counted: 100,000.
    pub open spec fn investment_unit() -> Amount {
        Amount::whole(100000)
    }

    /// The growth of income for each unit invested: 0.10.
    pub open spec fn growth_per_unit() -> Amount {
        Amount::scaled(10, 2)
    }

    /// The multiplier of someone who invested nothing: 1.0.
    pub open spec fn base_multiplier() -> Amount {
        Amount::scaled(10, 1)
    }

    /// The units of investment: what was invested, divided by 100,000 as
    /// `rust_decimal` divides.
    pub open spec fn units_invested(self) -> Amount {
        self.human_capital_invested.quotient_amount(Self::investment_unit())
    }

    /// The growth of income from what was invested: a tenth of the units of
    /// investment, as `rust_decimal` multiplies.
    pub open spec fn income_growth(self) -> Amount {
        self.units_invested().product_amount(Self::growth_per_unit())
    }

    /// The income multiplier, digit for digit: one, plus a tenth for every
    /// 100,000 invested.
    pub open spec fn income_multiplier(self) -> Amount {
        Self::base_multiplier().sum_of(self.income_growth())
    }

    /// Whether the income multiplier can be computed: the investment has a
    /// quotient by 100,000, a tenth of it does not overflow, and one plus
    /// that can be written exactly.
    pub open spec fn multiplier_defined(self) -> bool {
        &&& self.human_capital_invested.quotient(Self::investment_unit()) is Some
        &&& self.units_invested().product(Self::growth_per_unit()) is Some
        &&& Self::base_multiplier().sum_fits(self.income_growth())
    }

    /// The score of financial peace: the mean of happiness and of what is
    /// left of a hundred after burnout, rounded down.
    pub open spec fn peace_score(self) -> int {
        (self.happiness + (100 - self.burnout)) / 2
    }

    /// A player of the given age, moderately happy and little burnt out.
    pub fn new(age: u8, name: Option<String>) -> (r: PlayerStats)
        ensures
            r.age == age,
            r.name == name,
            r.happiness == 70,
            r.burnout == 20,
            !r.frugality_enabled,
            r.human_capital_invested@ == 0,
            r.human_capital_invested == Amount::whole(0),
    {
        PlayerStats {
            age,
            name,
            happiness: 70,
            burnout: 20,
            frugality_enabled: false,
            human_capital_invested: Amount::zero(),
        }
    }

    /// Changes the happiness by `delta`, keeping it between 0 and 100.
    pub fn adjust_happiness(&mut self, delta: i8)
        ensures
            final(self).happiness == clamped(old(self).happiness as int, delta as int),
            final(self).happiness <= 100,
            final(self).age == old(self).age,
            final(self).name == old(self).name,
            final(self).burnout == old(self).burnout,
            final(self).frugality_enabled == old(self).frugality_enabled,
            final(self).human_capital_invested == old(self).human_capital_invested,
    {
        self.happiness = clamp_level(self.happiness, delta);
    }

    /// Changes the burnout by `delta`, keeping it between 0 and 100.
    pub fn adjust_burnout(&mut self, delta: i8)
        ensures
            final(self).burnout == clamped(old(self).burnout as int, delta as int),
            final(self).burnout <= 100,
            final(self).age == old(self).age,
            final(self).name == old(self).name,
            final(self).happiness == old(self).happiness,
            final(self).frugality_enabled == old(self).frugality_enabled,
            final(self).human_capital_invested == old(self).human_capital_invested,
    {
        self.burnout = clamp_level(self.burnout, delta);
    }

    /// The score of financial peace.
    pub fn financial_peace_score(&self) -> (r: u8)
        requires
            self.burnout <= 100,
        ensures
            r == self.peace_score(),
    {
        let inverted_burnout: u8 = 100 - self.burnout;
        (((self.happiness as u16) + (inverted_burnout as u16)) / 2) as u8
    }

    /// Whether the player is at risk of spending in revenge: unhappy, or burnt out.
    pub fn is_revenge_spending_risk(&self) -> (r: bool)
        ensures
            r == (self.happiness < 40 || self.burnout > 70),
    {
        self.happiness < 40 || self.burnout > 70
    }

    /// Makes the player a year older.
    pub fn age_one_year(&mut self)
        requires
            old(self).age < u8::MAX,
        ensures
            final(self).age == old(self).age + 1,
            final(self).name == old(self).name,
            final(self).happiness == old(self).happiness,
            final(self).burnout == old(self).burnout,
            final(self).frugality_enabled == old(self).frugality_enabled,
            final(self).human_capital_invested == old(self).human_capital_invested,
    {
        self.age += 1;
    }

    /// Adds to what was invested in education and skills.
    pub fn invest_human_capital(&mut self, amount: Amount)
        requires
            old(self).human_capital_invested.sum_fits(amount),
        ensures
            final(self).human_capital_invested@ == old(self).human_capital_invested@ + amount@,
            final(self).human_capital_invested == old(self).human_capital_invested.sum_of(amount),
            final(self).age == old(self).age,
            final(self).name == old(self).name,
            final(self).happiness == old(self).happiness,
            final(self).burnout == old(self).burnout,
            final(self).frugality_enabled == old(self).frugality_enabled,
    {
        self.human_capital_invested = self.human_capital_invested.plus(amount);
    }

    /// Whether units of investment give a multiplier: a tenth of them does
    /// not overflow, and one plus that can be written exactly.
    pub open spec fn gives_multiplier(units_invested: Amount) -> bool {
        &&& units_invested.product(Self::growth_per_unit()) is Some
        &&& Self::base_multiplier().sum_fits(
            units_invested.product_amount(Self::growth_per_unit()),
        )
    }

    /// The income multiplier that units of investment give: one, plus a
    /// tenth of the units.
    pub fn multiplier_for(units_invested: Amount) -> (r: Amount)
        requires
            Self::gives_multiplier(units_invested),
        ensures
            r == Self::base_multiplier().sum_of(
                units_invested.product_amount(Self::growth_per_unit()),
            ),
            units_invested.product_fits(Self::growth_per_unit()) ==> r@ * 10 == unit() * 10
                + units_invested@,
    {
        proof {
            lemma_pow10_values();
        }
        match units_invested.rounded_mul(Amount::new(10, 2)) {
            Some(growth) => {
                proof {
                    if units_invested.product_fits(Self::growth_per_unit()) {
                        units_invested.lemma_product_with_scaled(
                            Self::growth_per_unit(),
                            growth@,
                            10,
                            2,
                        );
                    }
                }
                Amount::new(10, 1).plus(growth)
            },
            None => Amount::new(10, 1),
        }
    }

    /// The income multiplier that units of investment give, where they give one.
    pub fn checked_multiplier_for(units_invested: Amount) -> (r: Option<Amount>)
        ensures
            r is Some <==> Self::gives_multiplier(units_invested),
            r is Some ==> r->Some_0 == Self::base_multiplier().sum_of(
                units_invested.product_amount(Self::growth_per_unit()),
            ),
    {
        match units_invested.rounded_mul(Amount::new(10, 2)) {
            Some(growth) => {
                if Amount::new(10, 1).can_add(&growth) {
                    Some(Self::multiplier_for(units_invested))
                } else {
                    None
                }
            },
            None => None,
        }
    }

    /// The income multiplier from what was invested: one, plus a tenth for
    /// every 100,000 invested. The growth is linear, not compounding.
    pub fn human_capital_income_multiplier(&self) -> (r: Amount)
        requires
            self.multiplier_defined(),
        ensures
            r == self.income_multiplier(),
    {
        match self.human_capital_invested.checked_div(Amount::from_i64(100000)) {
            Some(units) => Self::multiplier_for(units),
            None => Amount::new(10, 1),
        }
    }

    /// The income multiplier from what was invested, where it can be computed.
    pub fn checked_human_capital_income_multiplier(&self) -> (r: Option<Amount>)
        ensures
            r is Some <==> self.multiplier_defined(),
            r is Some ==> r->Some_0 == self.income_multiplier(),
    {
        match self.human_capital_invested.checked_div(Amount::from_i64(100000)) {
            Some(units) => {
                if Self::checked_multiplier_for(units).is_some() {
                    Some(self.human_capital_income_multiplier())
                } else {
                    None
                }
            },
            None => None,
        }
    }
}

} // verus!

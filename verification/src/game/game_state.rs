//! A game as a whole: the monthly cycle, settlement, and moving house.

use crate::amount::Amount;
use crate::game::career::Career;
use crate::game::expenses::{Expense, ExpenseCategory};
use crate::game::financial_state::FinancialState;
use crate::game::housing::Housing;
use crate::game::phase::GamePhase;
use crate::game::player::PlayerStats;
use crate::game::time::GameTime;
use crate::market::{MarketProfile, TaxBreakdown};
use vstd::prelude::*;
use vstd::string::StringExecFns;

verus! {

/// The state of a game.
#[derive(Debug, Clone, PartialEq)]
pub struct GameState {
    /// The identifier of the saved game.
    pub save_id: String,
    /// The identifier of the market played in, such as "czech".
    pub market_id: String,
    /// The date.
    pub time: GameTime,
    /// The phase of the monthly cycle.
    pub phase: GamePhase,
    /// The player.
    pub player: PlayerStats,
    /// The player's career.
    pub career: Career,
    /// The home lived in, if any.
    pub housing: Option<Housing>,
    /// The months lived in the current home.
    pub months_at_housing: u32,
    /// The player's finances.
    pub finances: FinancialState,
    /// The year in which the game began.
    pub start_year: u32,
}

/// Tells whether a text begins with another, with `str::starts_with`.
///
/// Trusted: the answer is whether the pattern is a prefix of the text.
#[verifier::external_body]
fn starts_with(text: &str, pattern: &str) -> (r: bool)
    ensures
        r == pattern@.is_prefix_of(text@),
{
    text.starts_with(pattern)
}

/// Whether an expense identifier marks the expense as the cost of a home.
pub open spec fn housing_tagged(id: Seq<char>) -> bool {
    "housing_"@.is_prefix_of(id)
}

/// The expenses that are not the cost of a home, in order.
pub open spec fn without_housing(expenses: Seq<Expense>) -> Seq<Expense>
    decreases expenses.len(),
{
    if expenses.len() == 0 {
        Seq::empty()
    } else if housing_tagged(expenses.last().id@) {
        without_housing(expenses.drop_last())
    } else {
        without_housing(expenses.drop_last()).push(expenses.last())
    }
}

/// The number of expenses that are the cost of a home.
pub open spec fn housing_expenses(expenses: Seq<Expense>) -> nat
    decreases expenses.len(),
{
    if expenses.len() == 0 {
        0
    } else if housing_tagged(expenses.last().id@) {
        housing_expenses(expenses.drop_last()) + 1
    } else {
        housing_expenses(expenses.drop_last())
    }
}

/// Whether the expense is the cost of the home: tagged with its identifier,
/// named after its address, essential, active, and of its monthly cost.
pub open spec fn is_housing_expense(expense: Expense, home: Housing) -> bool {
    &&& expense.id@ == "housing_"@ + home.id@
    &&& expense.name@ == "Housing: "@ + home.address@
    &&& expense.category == ExpenseCategory::Essential
    &&& expense.monthly_amount == home.monthly_amount()
    &&& expense.monthly_amount@ == home.monthly_cost@ + home.monthly_utilities@
    &&& expense.active
}

/// The message for a move that the cash does not pay for.
pub open spec fn cannot_afford_message(cost: Amount, cash: Amount) -> Seq<char> {
    "Cannot afford moving costs of "@ + cost.whole_text() + " Kč (you have "@ + cash.whole_text()
        + " Kč)"@
}

/// The expenses without those that are the cost of a home, in order.
fn drop_housing_expenses(expenses: &mut Vec<Expense>)
    ensures
        final(expenses)@ == without_housing(old(expenses)@),
{
    let ghost before = expenses@;
    let mut kept: usize = 0;
    let ghost mut seen: int = 0;
    assert(before.take(0) =~= Seq::<Expense>::empty());
    assert(before.skip(0) =~= before);
    while kept < expenses.len()
        invariant
            0 <= seen <= before.len(),
            kept <= expenses@.len(),
            expenses@.take(kept as int) == without_housing(before.take(seen)),
            expenses@.skip(kept as int) == before.skip(seen),
        decreases expenses.len() - kept,
    {
        proof {
            assert(expenses@[kept as int] == expenses@.skip(kept as int)[0]);
            assert(before.skip(seen).len() > 0);
            assert(before.take(seen + 1).drop_last() =~= before.take(seen));
            assert(before.take(seen + 1).last() == before[seen]);
        }
        let ghost current = expenses@;
        proof {
            assert(current.len() - kept == before.len() - seen);
            assert forall|j: int| seen <= j < before.len() implies current[kept + (j - seen)]
                == #[trigger] before[j] by {
                assert(current.skip(kept as int)[j - seen] == before.skip(seen)[j - seen]);
            }
        }
        if starts_with(expenses[kept].id.as_str(), "housing_") {
            expenses.remove(kept);
            proof {
                assert(expenses@.take(kept as int) =~= current.take(kept as int));
                assert(expenses@.skip(kept as int) =~= before.skip(seen + 1));
            }
        } else {
            kept = kept + 1;
            proof {
                assert(expenses@.take(kept as int) =~= current.take(kept - 1).push(before[seen]));
                assert(expenses@.skip(kept as int) =~= before.skip(seen + 1));
            }
        }
        proof {
            seen = seen + 1;
        }
    }
    proof {
        assert(before.skip(seen).len() == 0);
        assert(before.take(seen) =~= before);
        assert(expenses@.take(kept as int) =~= expenses@);
    }
}

/// Among the expenses that are left when the costs of homes are taken out,
/// none is the cost of a home.
pub proof fn lemma_without_housing_has_none(expenses: Seq<Expense>)
    ensures
        housing_expenses(without_housing(expenses)) == 0,
    decreases expenses.len(),
{
    if expenses.len() > 0 {
        lemma_without_housing_has_none(expenses.drop_last());
        if !housing_tagged(expenses.last().id@) {
            let kept = without_housing(expenses.drop_last());
            assert(kept.push(expenses.last()).drop_last() =~= kept);
        }
    }
}

/// After a move exactly one expense is the cost of a home, and it is the
/// cost of the new one: where the expenses are the old ones without the
/// costs of homes, and after them the expense for the new home.
pub proof fn lemma_one_housing_expense(before: Seq<Expense>, after: Seq<Expense>, home: Housing)
    requires
        after.len() == without_housing(before).len() + 1,
        after.drop_last() == without_housing(before),
        is_housing_expense(after.last(), home),
    ensures
        housing_expenses(after) == 1,
        housing_tagged(after.last().id@),
        after.last().monthly_amount@ == home.monthly_cost@ + home.monthly_utilities@,
        forall|i: int| 0 <= i < after.len() - 1 ==> !housing_tagged(#[trigger] after[i].id@),
{
    lemma_without_housing_has_none(before);
    let tag = "housing_"@;
    assert((tag + home.id@).subrange(0, tag.len() as int) =~= tag);
    assert forall|i: int| 0 <= i < after.len() - 1 implies !housing_tagged(
        #[trigger] after[i].id@,
    ) by {
        lemma_none_tagged(after.drop_last(), i);
        assert(after.drop_last()[i] == after[i]);
    }
}

/// Where no expense is the cost of a home, none of them is tagged as one.
pub proof fn lemma_none_tagged(expenses: Seq<Expense>, i: int)
    requires
        housing_expenses(expenses) == 0,
        0 <= i < expenses.len(),
    ensures
        !housing_tagged(expenses[i].id@),
    decreases expenses.len(),
{
    if i < expenses.len() - 1 {
        lemma_none_tagged(expenses.drop_last(), i);
    }
}

impl GameState {
    /// Whether the two states agree in everything but phase, date and cash.
    pub open spec fn same_but_progress(self, other: GameState) -> bool {
        &&& self.save_id == other.save_id
        &&& self.market_id == other.market_id
        &&& self.player == other.player
        &&& self.career == other.career
        &&& self.housing == other.housing
        &&& self.months_at_housing == other.months_at_housing
        &&& self.start_year == other.start_year
        &&& self.finances.accounts == other.finances.accounts
        &&& self.finances.assets == other.finances.assets
        &&& self.finances.income_sources == other.finances.income_sources
        &&& self.finances.expenses == other.finances.expenses
        &&& self.finances.budget == other.finances.budget
        &&& self.finances.liabilities == other.finances.liabilities
    }

    /// A new game in the given market: January of the starting year, in the
    /// planning phase, with no job, no home and empty finances.
    pub fn new(
        save_id: String,
        market_id: String,
        player_name: Option<String>,
        player_age: u8,
        start_year: u32,
    ) -> (r: Result<GameState, String>)
        ensures
            r is Ok,
            r->Ok_0.save_id == save_id,
            r->Ok_0.market_id == market_id,
            r->Ok_0.time.reads((start_year as int, 1, 1)),
            r->Ok_0.phase == GamePhase::Planning,
            r->Ok_0.player.age == player_age,
            r->Ok_0.player.name == player_name,
            r->Ok_0.player.happiness == 70,
            r->Ok_0.player.burnout == 20,
            !r->Ok_0.player.frugality_enabled,
            r->Ok_0.player.human_capital_invested == Amount::whole(0),
            r->Ok_0.player.human_capital_invested@ == 0,
            r->Ok_0.career.current_job is None,
            r->Ok_0.career.years_experience == 0,
            r->Ok_0.career.months_in_current_job == 0,
            r->Ok_0.career.job_history@.len() == 0,
            r->Ok_0.housing is None,
            r->Ok_0.months_at_housing == 0,
            r->Ok_0.finances.cash == Amount::whole(0),
            r->Ok_0.finances.liabilities == Amount::whole(0),
            r->Ok_0.finances.cash@ == 0,
            r->Ok_0.finances.liabilities@ == 0,
            r->Ok_0.finances.accounts@.len() == 0,
            r->Ok_0.finances.assets@.len() == 0,
            r->Ok_0.finances.income_sources@.len() == 0,
            r->Ok_0.finances.expenses@.len() == 0,
            forall|c: ExpenseCategory| r->Ok_0.finances.budget.allocation(c) is None,
            r->Ok_0.start_year == start_year,
    {
        match GameTime::new(start_year, 1) {
            Ok(time) => Ok(
                GameState {
                    save_id,
                    market_id,
                    time,
                    phase: GamePhase::Planning,
                    player: PlayerStats::new(player_age, player_name),
                    career: Career::new(),
                    housing: None,
                    months_at_housing: 0,
                    finances: FinancialState::new(),
                    start_year,
                },
            ),
            Err(e) => Err(e),
        }
    }

    /// Whether a move into the home can be computed exactly: its moving cost,
    /// and, where the cash pays for it, what is left of the cash and the
    /// monthly cost of the home.
    pub open spec fn move_fits(self, home: Housing) -> bool {
        &&& home.moving_cost_fits()
        &&& self.finances.cash@ >= home.moving_total() ==> {
            &&& self.finances.cash.difference_fits(home.moving_amount())
            &&& home.monthly_cost.sum_fits(home.monthly_utilities)
        }
    }

    /// Whether a move into the home can be computed exactly.
    pub fn can_change_housing(&self, home: &Housing) -> (r: bool)
        ensures
            r == self.move_fits(*home),
    {
        match home.checked_moving_cost() {
            Some(cost) => {
                if self.finances.cash.lt(&cost) {
                    true
                } else {
                    self.finances.cash.can_subtract(&cost) && home.monthly_cost.can_add(
                        &home.monthly_utilities,
                    )
                }
            },
            None => false,
        }
    }

    /// Moves into a new home. The move costs a deposit of two months' rent
    /// and the moving fee; where the cash does not pay for it, the move is
    /// refused and the state stays as it was. Otherwise the cost is taken
    /// from the cash, the expense for the old home gives way to one for the
    /// new, and the months at the home start again from zero.
    pub fn change_housing(&mut self, new_housing: Housing) -> (r: Result<(), String>)
        requires
            old(self).move_fits(new_housing),
        ensures
            r is Ok <==> old(self).finances.cash@ >= new_housing.moving_total(),
            r is Err ==> *final(self) == *old(self),
            r is Err ==> r->Err_0@ == cannot_afford_message(
                new_housing.moving_amount(),
                old(self).finances.cash,
            ),
            r is Ok ==> {
                &&& final(self).finances.cash@ == old(self).finances.cash@
                    - new_housing.moving_total()
                &&& final(self).finances.cash == old(self).finances.cash.difference_of(
                    new_housing.moving_amount(),
                )
                &&& final(self).finances.expenses@.len() == without_housing(
                    old(self).finances.expenses@,
                ).len() + 1
                &&& final(self).finances.expenses@.drop_last() == without_housing(
                    old(self).finances.expenses@,
                )
                &&& is_housing_expense(final(self).finances.expenses@.last(), new_housing)
                &&& housing_expenses(final(self).finances.expenses@) == 1
                &&& final(self).housing == Some(new_housing)
                &&& final(self).months_at_housing == 0
                &&& final(self).save_id == old(self).save_id
                &&& final(self).market_id == old(self).market_id
                &&& final(self).time == old(self).time
                &&& final(self).phase == old(self).phase
                &&& final(self).player == old(self).player
                &&& final(self).career == old(self).career
                &&& final(self).start_year == old(self).start_year
                &&& final(self).finances.accounts == old(self).finances.accounts
                &&& final(self).finances.assets == old(self).finances.assets
                &&& final(self).finances.income_sources == old(self).finances.income_sources
                &&& final(self).finances.budget == old(self).finances.budget
                &&& final(self).finances.liabilities == old(self).finances.liabilities
            },
    {
        let moving_cost = new_housing.moving_cost();
        if self.finances.cash.lt(&moving_cost) {
            let message = String::from_str("Cannot afford moving costs of ").concat(
                moving_cost.to_whole_text().as_str(),
            ).concat(" Kč (you have ").concat(self.finances.cash.to_whole_text().as_str()).concat(
                " Kč)",
            );
            return Err(message);
        }
        self.finances.cash = self.finances.cash.minus(moving_cost);
        drop_housing_expenses(&mut self.finances.expenses);
        let housing_expense = Expense::new(
            String::from_str("housing_").concat(new_housing.id.as_str()),
            String::from_str("Housing: ").concat(new_housing.address.as_str()),
            ExpenseCategory::Essential,
            new_housing.total_monthly_cost(),
        );
        let ghost kept = self.finances.expenses@;
        self.finances.expenses.push(housing_expense);
        proof {
            assert(self.finances.expenses@.drop_last() =~= kept);
            lemma_one_housing_expense(
                old(self).finances.expenses@,
                self.finances.expenses@,
                new_housing,
            );
        }
        self.housing = Some(new_housing);
        self.months_at_housing = 0;
        Ok(())
    }

    /// Counts a month at the current housing: the counter grows by one with
    /// every month, with or without a home.
    pub fn advance_housing_month(&mut self)
        requires
            old(self).months_at_housing < u32::MAX,
        ensures
            final(self).months_at_housing == old(self).months_at_housing + 1,
            final(self).save_id == old(self).save_id,
            final(self).market_id == old(self).market_id,
            final(self).time == old(self).time,
            final(self).phase == old(self).phase,
            final(self).player == old(self).player,
            final(self).career == old(self).career,
            final(self).housing == old(self).housing,
            final(self).finances == old(self).finances,
            final(self).start_year == old(self).start_year,
    {
        self.months_at_housing += 1;
    }

    /// Whether the books of a month can be closed without a counter running
    /// over: the year, the months in the job and at the current housing, the
    /// years of experience, and the age at the turn of the year.
    pub open spec fn month_can_turn(self) -> bool {
        &&& self.time.month.number() == 12 ==> self.time.year < u32::MAX
        &&& self.time.month.number() == 12 ==> self.player.age < u8::MAX
        &&& self.career.can_advance()
        &&& self.months_at_housing < u32::MAX
    }

    /// Whether `after` is the state that follows `self` when a month turns:
    /// the date is the first of the next month, of every budget allocation
    /// nothing is spent, the career is a month longer, the months at the
    /// current housing are one more, and with January the player is a year older.
    pub open spec fn month_turned(self, after: GameState) -> bool {
        &&& after.time.reads(self.time.next_month())
        &&& forall|c: ExpenseCategory|
            crate::game::budget::renewed(
                self.finances.budget.allocation(c),
                #[trigger] after.finances.budget.allocation(c),
            )
        &&& after.career.months_in_current_job == self.career.months_after_advance()
        &&& after.career.years_experience == self.career.years_after_advance()
        &&& after.career.current_job == self.career.current_job
        &&& after.career.job_history == self.career.job_history
        &&& after.months_at_housing == self.months_at_housing + 1
        &&& after.player.age == if self.time.month.number() == 12 {
            self.player.age + 1
        } else {
            self.player.age as int
        }
        &&& after.player.name == self.player.name
        &&& after.player.happiness == self.player.happiness
        &&& after.player.burnout == self.player.burnout
        &&& after.player.frugality_enabled == self.player.frugality_enabled
        &&& after.player.human_capital_invested == self.player.human_capital_invested
        &&& after.save_id == self.save_id
        &&& after.market_id == self.market_id
        &&& after.housing == self.housing
        &&& after.start_year == self.start_year
        &&& after.finances.cash == self.finances.cash
        &&& after.finances.accounts == self.finances.accounts
        &&& after.finances.assets == self.finances.assets
        &&& after.finances.income_sources == self.finances.income_sources
        &&& after.finances.expenses == self.finances.expenses
        &&& after.finances.liabilities == self.finances.liabilities
    }

    /// Whether the books of a month can be closed without a counter running over.
    pub fn can_turn_month(&self) -> (r: bool)
        ensures
            r == self.month_can_turn(),
    {
        let december = self.time.month.value() == 12;
        (!december || (self.time.year < u32::MAX && self.player.age < u8::MAX))
            && self.career.can_advance_month() && self.months_at_housing < u32::MAX
    }

    /// Moves to the next phase. From review the game returns to planning
    /// and the month turns; from planning and from execution only the phase
    /// changes.
    pub fn advance_phase(&mut self)
        requires
            old(self).phase is Review ==> old(self).month_can_turn(),
        ensures
            final(self).phase == old(self).phase.successor(),
            old(self).phase is Review ==> old(self).month_turned(*final(self)),
            !(old(self).phase is Review) ==> {
                &&& final(self).time == old(self).time
                &&& final(self).finances == old(self).finances
                &&& final(self).same_but_progress(*old(self))
            },
    {
        let prev_phase = self.phase;
        self.phase = self.phase.next();
        if prev_phase.is_review() && self.phase.is_planning() {
            self.time.advance_month();
            self.finances.reset_monthly_budget();
            self.career.advance_month();
            self.advance_housing_month();
            if self.time.month.value() == 1 {
                self.player.age_one_year();
            }
        }
    }

    /// The cash flow of a month with the given net income, digit for digit:
    /// the net income less the monthly expenses.
    pub open spec fn flow_amount(self, net_income: Amount) -> Amount {
        net_income.difference_of(self.finances.expenses_amount())
    }

    /// Whether a month with the given net income can be settled exactly.
    pub open spec fn settles(self, net_income: Amount) -> bool {
        &&& net_income.difference_fits(self.finances.expenses_amount())
        &&& self.finances.cash.sum_fits(self.flow_amount(net_income))
    }

    /// Whether `after` is `self` with the month settled for the given net
    /// income: the cash has grown by the net income less the monthly
    /// expenses, the phase is review, and nothing else has changed.
    pub open spec fn settled(self, after: GameState, net_income: Amount) -> bool {
        &&& after.finances.cash == self.finances.cash.sum_of(self.flow_amount(net_income))
        &&& after.finances.cash@ == self.finances.cash@ + net_income@
            - self.finances.expenses_total()
        &&& after.phase == GamePhase::Review
        &&& after.time == self.time
        &&& after.same_but_progress(self)
    }

    /// What settling a month does, for the net income or the error that the
    /// tax rules gave: an error is passed on, and a net income that cannot
    /// be settled exactly is reported; either leaves the state as it was.
    /// Otherwise the month is settled.
    pub open spec fn month_closed(
        self,
        after: GameState,
        net_income: Result<Amount, String>,
        r: Result<(), String>,
    ) -> bool {
        match net_income {
            Err(e) => r == Err::<(), String>(e) && after == self,
            Ok(net) => if self.settles(net) {
                r is Ok && self.settled(after, net)
            } else {
                r is Err && r->Err_0@ == "Monthly settlement out of range"@ && after == self
            },
        }
    }

    /// The net income that the tax rules leave of a gross income: the gross
    /// income less the total of the breakdown. An error of the rules is
    /// passed on, and a difference that is not exact is reported.
    pub open spec fn net_income_of(gross_income: Amount, answer: Result<TaxBreakdown, String>) -> Result<
        Amount,
        Seq<char>,
    > {
        match answer {
            Err(e) => Err(e@),
            Ok(breakdown) => if gross_income.difference_fits(breakdown.total) {
                Ok(gross_income.difference_of(breakdown.total))
            } else {
                Err("Net income out of range"@)
            },
        }
    }

    /// The net income that the tax rules leave of a gross income.
    pub fn net_income_from(gross_income: Amount, answer: Result<TaxBreakdown, String>) -> (r: Result<
        Amount,
        String,
    >)
        ensures
            r is Ok <==> Self::net_income_of(gross_income, answer) is Ok,
            r is Ok ==> r->Ok_0 == Self::net_income_of(gross_income, answer)->Ok_0,
            r is Ok ==> r->Ok_0@ == gross_income@ - answer->Ok_0.total@,
            r is Err ==> r->Err_0@ == Self::net_income_of(gross_income, answer)->Err_0,
            answer is Err ==> r == Err::<Amount, String>(answer->Err_0),
    {
        match answer {
            Err(e) => Err(e),
            Ok(breakdown) => match gross_income.checked_sub(breakdown.total) {
                Some(net) => Ok(net),
                None => Err("Net income out of range".to_string()),
            },
        }
    }

    /// Settles the month for a net income after tax: the cash grows by the
    /// net income less the monthly expenses, and the review begins. A net
    /// income for which this cannot be computed exactly is refused, and the
    /// state stays as it was.
    pub fn settle_month(&mut self, net_income: Amount) -> (r: Result<(), String>)
        requires
            old(self).finances.expenses_fit(),
        ensures
            old(self).month_closed(*final(self), Ok(net_income), r),
    {
        let total_expenses = self.finances.monthly_expenses();
        match net_income.checked_sub(total_expenses) {
            Some(net_cash_flow) => match self.finances.cash.checked_add(net_cash_flow) {
                Some(cash) => {
                    self.finances.cash = cash;
                    self.phase = GamePhase::Review;
                    Ok(())
                },
                None => Err("Monthly settlement out of range".to_string()),
            },
            None => Err("Monthly settlement out of range".to_string()),
        }
    }

    /// Settles the month against the tax rules of the market: the gross
    /// income of the active sources is taxed by the market, unless there is
    /// none, and the month is settled for what is left.
    fn process_monthly_finances<M: MarketProfile + ?Sized>(&mut self, market: &M) -> (r: Result<(), String>)
        requires
            old(self).finances.income_fits(),
            old(self).finances.expenses_fit(),
        ensures
            old(self).finances.gross_income() <= 0 ==> old(self).month_closed(
                *final(self),
                Ok(Amount::whole(0)),
                r,
            ),
            old(self).finances.gross_income() > 0 ==> exists|answer: Result<TaxBreakdown, String>|
                #![auto]
                {
                    &&& call_ensures(
                        M::calculate_income_tax,
                        (market, old(self).finances.gross_amount()),
                        answer,
                    )
                    &&& old(self).taxed_and_closed(*final(self), answer, r)
                },
            r is Ok ==> exists|net_income: Amount| #[trigger]
                old(self).settled(*final(self), net_income),
            r is Err ==> *final(self) == *old(self),
    {
        let gross_income = self.finances.monthly_gross_income();
        if gross_income.is_positive() {
            let answer = market.calculate_income_tax(gross_income);
            let ghost witness = answer;
            match Self::net_income_from(gross_income, answer) {
                Ok(net_income) => {
                    let r = self.settle_month(net_income);
                    proof {
                        assert(old(self).taxed_and_closed(*self, witness, r));
                        if r is Ok {
                            assert(old(self).settled(*self, net_income));
                        }
                    }
                    r
                },
                Err(e) => {
                    proof {
                        assert(old(self).taxed_and_closed(*self, witness, Err(e)));
                    }
                    Err(e)
                },
            }
        } else {
            let r = self.settle_month(Amount::zero());
            proof {
                if r is Ok {
                    assert(old(self).settled(*self, Amount::whole(0)));
                }
            }
            r
        }
    }

    /// What settling a month does with the answer of the tax rules to the
    /// gross income of the month.
    pub open spec fn taxed_and_closed(
        self,
        after: GameState,
        answer: Result<TaxBreakdown, String>,
        r: Result<(), String>,
    ) -> bool {
        &&& match Self::net_income_of(self.finances.gross_amount(), answer) {
            Ok(net) => self.month_closed(after, Ok(net), r),
            Err(message) => r is Err && r->Err_0@ == message && after == self,
        }
        &&& r is Ok ==> answer is Ok && after.finances.cash@ == self.finances.cash@
            + self.finances.gross_income() - answer->Ok_0.total@ - self.finances.expenses_total()
        &&& self.finances.gross_amount()@ == self.finances.gross_income()
    }

    /// Whether a day of the execution phase can be played: before the 30th
    /// the date must be able to move on, on the 30th the gross income and
    /// the expenses of the month must add up exactly.
    pub open spec fn day_can_advance(self) -> bool {
        self.phase is Execution ==> if self.phase->current_day < 30 {
            self.time.day >= 30 && self.time.month.number() == 12 ==> self.time.year < u32::MAX
        } else {
            self.finances.income_fits() && self.finances.expenses_fit()
        }
    }

    /// Whether a day of the execution phase can be played.
    pub fn can_advance_execution_day(&self) -> (r: bool)
        ensures
            r == self.day_can_advance(),
    {
        match self.phase {
            GamePhase::Execution { current_day } => {
                if current_day < 30 {
                    !(self.time.day >= 30 && self.time.month.value() == 12) || self.time.year
                        < u32::MAX
                } else {
                    self.finances.income_adds_up() && self.finances.expenses_add_up()
                }
            },
            _ => true,
        }
    }

    /// Whether `after` is `self` a day later in the execution phase: the day
    /// of the phase and the date have moved on by one, and nothing else has changed.
    pub open spec fn day_passed(self, after: GameState) -> bool {
        &&& after.phase == (GamePhase::Execution {
            current_day: (self.phase->current_day + 1) as u8,
        })
        &&& self.time.day < 30 ==> after.time.reads(
            (self.time.year as int, self.time.month.number(), self.time.day + 1),
        )
        &&& self.time.day >= 30 ==> after.time.reads(self.time.next_month())
        &&& after.finances == self.finances
        &&& after.same_but_progress(self)
    }

    /// Whether `after` is `self` after a day of the execution phase was
    /// played with success: before the 30th the day has passed, on the 30th
    /// the month is settled for the net income.
    pub open spec fn day_played(self, after: GameState, net_income: Amount) -> bool {
        &&& self.phase is Execution
        &&& if self.phase->current_day < 30 {
            self.day_passed(after)
        } else {
            self.settled(after, net_income)
        }
    }

    /// Plays one day of the execution phase. Before the 30th the day moves
    /// on. On the 30th the month is settled against the tax rules of the
    /// market and the review begins. Outside the execution phase the call
    /// is refused.
    pub fn advance_execution_day<M: MarketProfile + ?Sized>(&mut self, market: &M) -> (r: Result<(), String>)
        requires
            old(self).day_can_advance(),
        ensures
            !(old(self).phase is Execution) ==> {
                &&& r is Err
                &&& r->Err_0@ == "Can only advance day during Execution phase"@
                &&& *final(self) == *old(self)
            },
            old(self).phase is Execution && old(self).phase->current_day < 30 ==> r is Ok && old(
                self,
            ).day_passed(*final(self)),
            old(self).phase is Execution && old(self).phase->current_day >= 30 && old(
                self,
            ).finances.gross_income() <= 0 ==> old(self).month_closed(
                *final(self),
                Ok(Amount::whole(0)),
                r,
            ),
            old(self).phase is Execution && old(self).phase->current_day >= 30 && old(
                self,
            ).finances.gross_income() > 0 ==> exists|answer: Result<TaxBreakdown, String>|
                #![auto]
                {
                    &&& call_ensures(
                        M::calculate_income_tax,
                        (market, old(self).finances.gross_amount()),
                        answer,
                    )
                    &&& old(self).taxed_and_closed(*final(self), answer, r)
                },
            r is Ok ==> exists|net_income: Amount| #[trigger]
                old(self).day_played(*final(self), net_income),
            r is Err ==> *final(self) == *old(self),
    {
        match self.phase {
            GamePhase::Execution { current_day } => {
                if current_day < 30 {
                    self.phase = GamePhase::Execution { current_day: current_day + 1 };
                    self.time.advance_day();
                    proof {
                        assert(old(self).day_played(*self, Amount::whole(0)));
                    }
                    Ok(())
                } else {
                    let r = self.process_monthly_finances(market);
                    proof {
                        if r is Ok {
                            let net_income = choose|net_income: Amount| #[trigger]
                                old(self).settled(*self, net_income);
                            assert(old(self).day_played(*self, net_income));
                        }
                    }
                    r
                }
            },
            _ => Err("Can only advance day during Execution phase".to_string()),
        }
    }

    /// The months from the start of the starting year to the current month, which counts.
    pub fn months_elapsed(&self) -> (r: u32)
        requires
            self.start_year <= self.time.year,
            (self.time.year - self.start_year) * 12 + self.time.month.number() <= u32::MAX,
        ensures
            r == (self.time.year - self.start_year) * 12 + self.time.month.number(),
    {
        self.time.total_months(self.start_year)
    }

    /// The years from the starting year to the current one.
    pub fn years_elapsed(&self) -> (r: u32)
        requires
            self.start_year <= self.time.year,
        ensures
            r == self.time.year - self.start_year,
    {
        self.time.year - self.start_year
    }
}

} // verus!

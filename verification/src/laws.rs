//! What holds of the monthly cycle as a whole.

use crate::amount::{all_well_formed, exact_sum, lemma_exact_sum, total, Amount};
use crate::game::accounts::Account;
use crate::game::financial_state::{active_expenses, asset_values, balances, FinancialState};
use crate::game::game_state::GameState;
use crate::game::phase::GamePhase;
use crate::market::{MarketProfile, TaxBreakdown};
use crate::markets::czech::{czech_tax_exact, CzechMarket};
use vstd::prelude::*;

verus! {

/// The monthly cycle has three phases: three steps from any phase lead back
/// to it, but for the day of an execution phase, which starts again at 1.
pub proof fn lemma_three_phases_make_a_cycle(phase: GamePhase)
    ensures
        phase.successor().successor().successor() == match phase {
            GamePhase::Execution { .. } => GamePhase::Execution { current_day: 1 },
            other => other,
        },
        GamePhase::Planning.successor() == (GamePhase::Execution { current_day: 1 }),
{
}

/// While the days before the 30th are played, the phase stays execution,
/// the day counts up, and the finances stay as they are.
proof fn lemma_days_before_settlement(states: Seq<GameState>, net_income: Amount, k: int)
    requires
        states.len() == 31,
        states[0].phase == (GamePhase::Execution { current_day: 1 }),
        forall|i: int| 0 <= i < 30 ==> (#[trigger] states[i]).day_played(states[i + 1], net_income),
        0 <= k < 30,
    ensures
        states[k].phase == (GamePhase::Execution { current_day: (k + 1) as u8 }),
        states[k].finances == states[0].finances,
    decreases k,
{
    if k > 0 {
        lemma_days_before_settlement(states, net_income, k - 1);
        assert(states[k - 1].day_played(states[k], net_income));
    }
}

/// Thirty days played from the first day of an execution phase settle the
/// month exactly once, with the last of them: until then the phase is
/// execution and the finances are untouched; after it the phase is review,
/// and the cash has grown by the net income less the monthly expenses, once.
pub proof fn lemma_thirty_days_settle_once(states: Seq<GameState>, net_income: Amount)
    requires
        states.len() == 31,
        states[0].phase == (GamePhase::Execution { current_day: 1 }),
        forall|i: int| 0 <= i < 30 ==> (#[trigger] states[i]).day_played(states[i + 1], net_income),
    ensures
        forall|k: int|
            0 <= k < 30 ==> (#[trigger] states[k]).phase == (GamePhase::Execution {
                current_day: (k + 1) as u8,
            }),
        forall|k: int| 0 <= k < 30 ==> (#[trigger] states[k]).finances == states[0].finances,
        states[30].phase == GamePhase::Review,
        states[30].finances.cash@ == states[0].finances.cash@ + net_income@
            - states[0].finances.expenses_total(),
{
    assert forall|k: int| 0 <= k < 30 implies (#[trigger] states[k]).phase == (GamePhase::Execution {
        current_day: (k + 1) as u8,
    }) && states[k].finances == states[0].finances by {
        lemma_days_before_settlement(states, net_income, k);
    }
    assert(states[29].day_played(states[30], net_income));
}

/// A month settled against the Czech rules leaves 73.4 % of the gross
/// income, less the monthly expenses, in the cash: the rules take 7.1 % for
/// social insurance, 4.5 % for health insurance and 15 % in income tax.
/// This holds where the three components can be written exactly, so that
/// nothing of them is rounded.
pub proof fn lemma_czech_month(
    market: &CzechMarket,
    before: GameState,
    after: GameState,
    answer: Result<TaxBreakdown, String>,
    r: Result<(), String>,
)
    requires
        call_ensures(
            CzechMarket::calculate_income_tax,
            (market, before.finances.gross_amount()),
            answer,
        ),
        before.taxed_and_closed(after, answer, r),
        r is Ok,
        czech_tax_exact(before.finances.gross_amount()),
    ensures
        after.phase == GamePhase::Review,
        after.finances.cash@ * 1000 == before.finances.cash@ * 1000 + before.finances.gross_income()
            * 734 - before.finances.expenses_total() * 1000,
{
}

/// A deposit that is taken raises the balance and the contributions by
/// exactly the amount, where both sums can be written exactly.
pub proof fn lemma_deposit_adds_exactly(before: Account, amount: Amount)
    requires
        before.balance.well_formed(),
        before.total_contributions.well_formed(),
        amount.well_formed(),
        before.balance.sum_fits(amount),
        before.total_contributions.sum_fits(amount),
    ensures
        before.balance.sum_of(amount)@ == before.balance@ + amount@,
        before.total_contributions.sum_of(amount)@ == before.total_contributions@ + amount@,
{
    before.balance.lemma_sum_of(amount);
    before.total_contributions.lemma_sum_of(amount);
}

/// A withdrawal that is taken lowers the balance and raises the withdrawals
/// by exactly the amount, where the difference and the sum can be written
/// exactly; a withdrawal within the balance leaves a balance that is not negative.
pub proof fn lemma_withdrawal_subtracts_exactly(before: Account, amount: Amount)
    requires
        before.balance.well_formed(),
        before.total_withdrawals.well_formed(),
        amount.well_formed(),
        before.balance.difference_fits(amount),
        before.total_withdrawals.sum_fits(amount),
    ensures
        before.balance.difference_of(amount)@ == before.balance@ - amount@,
        before.total_withdrawals.sum_of(amount)@ == before.total_withdrawals@ + amount@,
        amount@ <= before.balance@ ==> before.balance.difference_of(amount)@ >= 0,
{
    before.balance.lemma_difference_of(amount);
    before.total_withdrawals.lemma_sum_of(amount);
}

/// The independence target is three hundred times the monthly expenses:
/// twelve months of twenty-five years, where the sums and products can be
/// written exactly.
pub proof fn lemma_independence_target(finances: FinancialState)
    requires
        all_well_formed(active_expenses(finances.expenses@)),
        finances.target_fits(),
    ensures
        finances.expenses_amount()@ == finances.expenses_total(),
        finances.target_amount()@ == finances.expenses_total() * 12 * 25,
        finances.target_amount()@ == finances.independence_target(),
{
    lemma_exact_sum(active_expenses(finances.expenses@));
    let monthly = finances.expenses_amount();
    Amount::lemma_whole(12);
    Amount::lemma_whole(25);
    monthly.lemma_product_of(Amount::whole(12));
    Amount::lemma_product_units_whole(monthly@, 12);
    let yearly = monthly.product_of(Amount::whole(12));
    yearly.lemma_product_of(Amount::whole(25));
    Amount::lemma_product_units_whole(yearly@, 25);
}

/// The net worth is cash, account balances and asset values, less the
/// liabilities, where the sums can be written exactly. The player is
/// financially independent just where that is at least the target.
pub proof fn lemma_net_worth(finances: FinancialState)
    requires
        finances.cash.well_formed(),
        finances.liabilities.well_formed(),
        all_well_formed(balances(finances.accounts@)),
        all_well_formed(asset_values(finances.assets@)),
        finances.worth_fits(),
    ensures
        finances.assets_amount()@ == finances.assets_total(),
        finances.worth_amount()@ == finances.worth(),
        finances.worth_amount()@ == finances.cash@ + total(balances(finances.accounts@)) + total(
            asset_values(finances.assets@),
        ) - finances.liabilities@,
{
    lemma_exact_sum(balances(finances.accounts@));
    lemma_exact_sum(asset_values(finances.assets@));
    let in_accounts = exact_sum(balances(finances.accounts@));
    let in_assets = exact_sum(asset_values(finances.assets@));
    finances.cash.lemma_sum_of(in_accounts);
    finances.cash.sum_of(in_accounts).lemma_sum_of(in_assets);
    finances.assets_amount().lemma_difference_of(finances.liabilities);
}

} // verus!

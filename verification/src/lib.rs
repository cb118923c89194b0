//! Simulation engine for a turn-based personal-finance game.
//!
//! A game advances through a monthly cycle of planning, execution and review.
//! The engine keeps the player's finances as exact decimal amounts, settles
//! each month against the tax rules of the selected market, and tracks career,
//! housing and well-being.

pub mod amount;
pub mod clock;
pub mod game;
pub mod laws;
pub mod market;
pub mod markets;

pub use crate::amount::Amount;
pub use crate::clock::{TimeSpan, Timestamp};
pub use crate::game::accounts::{Account, AccountKind, Asset, AssetCategory};
pub use crate::game::budget::Budget;
pub use crate::game::career::{Career, CareerField, Job, JobLevel};
pub use crate::game::expenses::{BudgetAllocation, Expense, ExpenseCategory};
pub use crate::game::financial_state::FinancialState;
pub use crate::game::game_state::GameState;
pub use crate::game::housing::{Housing, HousingMarket, HousingType, LocationQuality};
pub use crate::game::income::{Income, IncomeKind};
pub use crate::game::job_market::JobMarket;
pub use crate::game::phase::GamePhase;
pub use crate::game::player::PlayerStats;
pub use crate::game::time::{GameTime, Month};
pub use crate::market::{AccountType, Currency, MarketProfile, TaxBreakdown};
pub use crate::markets::czech::CzechMarket;
pub use crate::markets::registry::Market;
pub use crate::markets::uk::UkMarket;
pub use crate::markets::usa::UsaMarket;

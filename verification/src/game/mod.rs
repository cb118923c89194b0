//! The game state and the entities it is built from.

pub mod accounts;
pub mod budget;
pub mod career;
pub mod expenses;
pub mod financial_state;
pub mod game_state;
pub mod housing;
pub mod income;
pub mod job_market;
pub mod phase;
pub mod player;
pub mod time;

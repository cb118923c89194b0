//! The three phases of the monthly cycle.

use vstd::prelude::*;

verus! {

/// The phase of the monthly cycle that a game is in.
#[derive(Debug, Clone, Copy, PartialEq, Eq, Structural)]
pub enum GamePhase {
    /// Time is paused while the player plans the month.
    Planning,
    /// Time flows through the days of the month.
    Execution {
        /// The day of the month that is being played, from 1 to 30.
        current_day: u8,
    },
    /// The month is over and its ledger is shown.
    Review,
}

impl GamePhase {
    /// The phase that follows: planning, then execution from day 1, then review.
    pub open spec fn successor(self) -> GamePhase {
        match self {
            GamePhase::Planning => GamePhase::Execution { current_day: 1 },
            GamePhase::Execution { .. } => GamePhase::Review,
            GamePhase::Review => GamePhase::Planning,
        }
    }

    /// The name of the phase as it is shown.
    pub open spec fn title(self) -> Seq<char> {
        match self {
            GamePhase::Planning => "Monthly Planning"@,
            GamePhase::Execution { .. } => "Execution"@,
            GamePhase::Review => "Monthly Review"@,
        }
    }

    /// Whether the phase is planning.
    pub fn is_planning(&self) -> (r: bool)
        ensures
            r == (*self is Planning),
    {
        matches!(self, GamePhase::Planning)
    }

    /// Whether the phase is execution, on whatever day.
    pub fn is_execution(&self) -> (r: bool)
        ensures
            r == (*self is Execution),
    {
        matches!(self, GamePhase::Execution { .. })
    }

    /// Whether the phase is review.
    pub fn is_review(&self) -> (r: bool)
        ensures
            r == (*self is Review),
    {
        matches!(self, GamePhase::Review)
    }

    /// The name of the phase as it is shown.
    pub fn name(&self) -> (r: &'static str)
        ensures
            r@ == self.title(),
    {
        match self {
            GamePhase::Planning => "Monthly Planning",
            GamePhase::Execution { .. } => "Execution",
            GamePhase::Review => "Monthly Review",
        }
    }

    /// The phase that follows.
    pub fn next(&self) -> (r: GamePhase)
        ensures
            r == self.successor(),
    {
        match self {
            GamePhase::Planning => GamePhase::Execution { current_day: 1 },
            GamePhase::Execution { .. } => GamePhase::Review,
            GamePhase::Review => GamePhase::Planning,
        }
    }
}

} // verus!

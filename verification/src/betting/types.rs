//! The plain data of the betting domain.

use vstd::prelude::*;

verus! {

/// Key of a market's cap in persistent storage.
///
/// A key that is absent from storage means that the market has no cap.
#[derive(Debug, Clone, PartialEq, Eq, Structural)]
pub enum BettingDataKey {
    /// The largest single bet that the market with this identifier accepts.
    MaxBet(u64),
}

/// A market's betting configuration.
#[derive(Debug, Clone, PartialEq, Eq, Structural)]
pub struct BettingMarket {
    /// Identifier of the market.
    pub id: u64,
    /// Largest amount that a single bet may have, in stroops
    /// (1 XLM = 10^7 stroops).
    ///
    /// `None` means that the market has no cap. `Some(0)` disables all betting
    /// on the market.
    pub max_bet_amount: Option<i128>,
}

/// A bet that a participant asks to place.
#[derive(Debug, Clone, PartialEq, Eq)]
pub struct BetRequest {
    /// The market to bet on.
    pub market_id: u64,
    /// The participant placing the bet.
    pub bettor: String,
    /// Amount in stroops. Has to be positive, and at most the market's cap when
    /// it has one.
    pub amount: i128,
    /// The outcome that the bettor is staking on.
    pub outcome: String,
}

/// A bet that was accepted.
#[derive(Debug, Clone, PartialEq, Eq)]
pub struct PlacedBet {
    /// The market that the bet was placed on.
    pub market_id: u64,
    /// The participant who placed the bet.
    pub bettor: String,
    /// The accepted amount, in stroops.
    pub amount: i128,
    /// The outcome staked on.
    pub outcome: String,
}

} // verus!

//! What the entrypoints decide, as functions of the stored markets.

use vstd::prelude::*;

use crate::betting::error::BettingError;
use crate::betting::types::{BetRequest, BettingMarket, PlacedBet};

verus! {

/// The market with the identifier `market_id`, if there is one.
pub open spec fn lookup(markets: Map<u64, BettingMarket>, market_id: u64) -> Option<
    BettingMarket,
> {
    if markets.contains_key(market_id) {
        Some(markets[market_id])
    } else {
        None
    }
}

/// The cap of a market: `None` where the market has no cap or does not exist.
pub open spec fn max_bet(markets: Map<u64, BettingMarket>, market_id: u64) -> Option<i128> {
    match lookup(markets, market_id) {
        Some(market) => market.max_bet_amount,
        None => None,
    }
}

/// Whether a cap may be configured: no cap at all, or a positive one.
pub open spec fn valid_cap(cap: Option<i128>) -> bool {
    cap matches Some(amount) ==> amount > 0
}

/// Whether a cap lets a bet of this amount through.
pub open spec fn within_cap(amount: i128, cap: Option<i128>) -> bool {
    cap matches Some(limit) ==> amount <= limit
}

/// The error with which a change of a market's cap is refused, or `None` where
/// the change is made.
///
/// Missing admin rights come first, then a cap that may not be configured, then
/// a market that does not exist.
pub open spec fn set_max_bet_refusal(
    markets: Map<u64, BettingMarket>,
    market_id: u64,
    cap: Option<i128>,
    is_admin: bool,
) -> Option<BettingError> {
    if !is_admin {
        Some(BettingError::Unauthorized)
    } else if !valid_cap(cap) {
        Some(BettingError::InvalidCap { cap: cap->0 })
    } else if !markets.contains_key(market_id) {
        Some(BettingError::MarketNotFound { market_id })
    } else {
        None
    }
}

/// The markets once the cap of one of them is `cap`.
pub open spec fn with_cap(
    markets: Map<u64, BettingMarket>,
    market_id: u64,
    cap: Option<i128>,
) -> Map<u64, BettingMarket> {
    markets.insert(
        market_id,
        BettingMarket { max_bet_amount: cap, ..markets[market_id] },
    )
}

/// The error with which a bet of `amount` on a market is refused, or `None`
/// where the bet is accepted.
///
/// An amount that is not positive comes first, then a market that does not
/// exist, then a cap that the amount exceeds.
pub open spec fn place_bet_refusal(
    markets: Map<u64, BettingMarket>,
    market_id: u64,
    amount: i128,
) -> Option<BettingError> {
    if amount <= 0 {
        Some(BettingError::InvalidAmount { amount })
    } else if !markets.contains_key(market_id) {
        Some(BettingError::MarketNotFound { market_id })
    } else if !within_cap(amount, markets[market_id].max_bet_amount) {
        Some(
            BettingError::BetExceedsMaximum { amount, cap: markets[market_id].max_bet_amount->0 },
        )
    } else {
        None
    }
}

/// Whether every market is stored under its own identifier.
pub open spec fn well_keyed(markets: Map<u64, BettingMarket>) -> bool {
    forall|id: u64| #[trigger] markets.contains_key(id) ==> markets[id].id == id
}

/// Whether every cap in use is one that may be configured.
pub open spec fn valid_caps(markets: Map<u64, BettingMarket>) -> bool {
    forall|id: u64| #[trigger]
        markets.contains_key(id) ==> valid_cap(markets[id].max_bet_amount)
}

/// The bet that an accepted request becomes.
pub open spec fn placed(request: BetRequest) -> PlacedBet {
    PlacedBet {
        market_id: request.market_id,
        bettor: request.bettor,
        amount: request.amount,
        outcome: request.outcome,
    }
}

} // verus!

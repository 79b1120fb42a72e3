//! The entrypoints that configure caps and judge bets.

use vstd::prelude::*;

use crate::betting::error::BettingError;
use crate::betting::model;
use crate::betting::store::MarketStore;
use crate::betting::types::{BetRequest, PlacedBet};

verus! {

/// Stateless entrypoints over a [`MarketStore`].
pub struct BettingService;

impl BettingService {
    /// Admin entrypoint: sets or removes the largest amount that a single bet
    /// on a market may have.
    ///
    /// `max_bet` is the new cap, or `None` to accept bets of any size again.
    /// The caller vouches by `is_admin` that it acts for the admin.
    ///
    /// # Errors
    ///
    /// * [`BettingError::Unauthorized`]: `is_admin` is `false`.
    /// * [`BettingError::InvalidCap`]: the new cap is zero or negative.
    /// * [`BettingError::MarketNotFound`]: the market does not exist.
    ///
    /// A refused call leaves the store as it was.
    pub fn set_max_bet(
        store: &mut MarketStore,
        market_id: u64,
        max_bet: Option<i128>,
        is_admin: bool,
    ) -> (result: Result<(), BettingError>)
        ensures
            match model::set_max_bet_refusal(old(store)@, market_id, max_bet, is_admin) {
                Some(error) => result == Err::<(), BettingError>(error) && final(store)@ == old(
                    store,
                )@,
                None => result == Ok::<(), BettingError>(()) && final(store)@ == model::with_cap(
                    old(store)@,
                    market_id,
                    max_bet,
                ),
            },
            // Which calls succeed, and which error each of the others gets.
            result is Ok <==> {
                &&& is_admin
                &&& max_bet matches Some(cap) ==> cap > 0
                &&& old(store)@.contains_key(market_id)
            },
            !is_admin ==> result == Err::<(), BettingError>(BettingError::Unauthorized),
            is_admin ==> (max_bet matches Some(cap) ==> cap <= 0 ==> result == Err::<
                (),
                BettingError,
            >(BettingError::InvalidCap { cap })),
            is_admin && (max_bet matches Some(cap) ==> cap > 0) && !old(store)@.contains_key(
                market_id,
            ) ==> result == Err::<(), BettingError>(BettingError::MarketNotFound { market_id }),
            // What is stored afterwards.
            result is Err ==> final(store)@ == old(store)@,
            result is Ok ==> final(store)@.dom() == old(store)@.dom(),
            result is Ok ==> final(store)@[market_id].max_bet_amount == max_bet,
            result is Ok ==> final(store)@[market_id].id == old(store)@[market_id].id,
            forall|other: u64|
                other != market_id && old(store)@.contains_key(other)
                    ==> #[trigger] final(store)@[other] == old(store)@[other],
    {
        if !is_admin {
            return Err(BettingError::Unauthorized);
        }
        if let Some(cap) = max_bet {
            if cap <= 0 {
                return Err(BettingError::InvalidCap { cap });
            }
        }
        match store.get_mut(market_id) {
            Some(market) => {
                market.max_bet_amount = max_bet;
                Ok(())
            },
            None => Err(BettingError::MarketNotFound { market_id }),
        }
    }

    /// Betting entrypoint: judges a bet and, where it is accepted, gives it
    /// back as a placed bet.
    ///
    /// A bet on a market with a cap is accepted up to and including the cap; a
    /// market without one accepts any positive amount. The store stays as it
    /// is.
    ///
    /// # Errors
    ///
    /// * [`BettingError::InvalidAmount`]: the amount is zero or negative.
    /// * [`BettingError::MarketNotFound`]: the market does not exist.
    /// * [`BettingError::BetExceedsMaximum`]: the amount is larger than the
    ///   market's cap.
    pub fn place_bet(store: &mut MarketStore, request: BetRequest) -> (result: Result<
        PlacedBet,
        BettingError,
    >)
        ensures
            final(store)@ == old(store)@,
            result == match model::place_bet_refusal(
                old(store)@,
                request.market_id,
                request.amount,
            ) {
                Some(error) => Err::<PlacedBet, BettingError>(error),
                None => Ok::<PlacedBet, BettingError>(model::placed(request)),
            },
            // Which bets are accepted, and which error each of the others gets.
            result is Ok <==> {
                &&& request.amount > 0
                &&& old(store)@.contains_key(request.market_id)
                &&& old(store)@[request.market_id].max_bet_amount matches Some(cap)
                    ==> request.amount <= cap
            },
            request.amount <= 0 ==> result == Err::<PlacedBet, BettingError>(
                BettingError::InvalidAmount { amount: request.amount },
            ),
            request.amount > 0 && !old(store)@.contains_key(request.market_id) ==> result == Err::<
                PlacedBet,
                BettingError,
            >(BettingError::MarketNotFound { market_id: request.market_id }),
            request.amount > 0 && old(store)@.contains_key(request.market_id) ==> (old(
                store,
            )@[request.market_id].max_bet_amount matches Some(cap) ==> request.amount > cap
                ==> result == Err::<PlacedBet, BettingError>(
                BettingError::BetExceedsMaximum { amount: request.amount, cap },
            )),
            // What an accepted bet holds.
            result matches Ok(bet) ==> bet.market_id == request.market_id,
            result matches Ok(bet) ==> bet.bettor@ == request.bettor@,
            result matches Ok(bet) ==> bet.amount == request.amount,
            result matches Ok(bet) ==> bet.outcome@ == request.outcome@,
    {
        if request.amount <= 0 {
            return Err(BettingError::InvalidAmount { amount: request.amount });
        }
        match store.get(request.market_id) {
            Some(market) => {
                if let Some(cap) = market.max_bet_amount {
                    if request.amount > cap {
                        return Err(
                            BettingError::BetExceedsMaximum { amount: request.amount, cap },
                        );
                    }
                }
            },
            None => {
                return Err(BettingError::MarketNotFound { market_id: request.market_id });
            },
        }
        Ok(
            PlacedBet {
                market_id: request.market_id,
                bettor: request.bettor,
                amount: request.amount,
                outcome: request.outcome,
            },
        )
    }

    /// The cap of a market: `None` if the market has no cap or does not exist.
    pub fn get_max_bet(store: &MarketStore, market_id: u64) -> (cap: Option<i128>)
        ensures
            cap == model::max_bet(store@, market_id),
            store@.contains_key(market_id) ==> cap == store@[market_id].max_bet_amount,
            !store@.contains_key(market_id) ==> cap is None,
    {
        match store.get(market_id) {
            Some(market) => market.max_bet_amount,
            None => None,
        }
    }
}

} // verus!

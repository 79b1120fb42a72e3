//! An in-memory store of markets, keyed by market identifier.

use std::collections::hash_map::Entry;
use std::collections::HashMap;
use vstd::prelude::*;

use crate::betting::model;
use crate::betting::types::BettingMarket;

verus! {

broadcast use vstd::std_specs::hash::group_hash_axioms;

/// Markets by identifier.
///
/// The view of a store is the map from identifiers to markets.
#[derive(Debug)]
pub struct MarketStore {
    markets: HashMap<u64, BettingMarket>,
}

impl View for MarketStore {
    type V = Map<u64, BettingMarket>;

    closed spec fn view(&self) -> Map<u64, BettingMarket> {
        self.markets@
    }
}

impl Default for MarketStore {
    /// Creates an empty store.
    fn default() -> (store: Self)
        ensures
            store@ == Map::<u64, BettingMarket>::empty(),
    {
        MarketStore { markets: HashMap::new() }
    }
}

impl MarketStore {
    /// Creates an empty store.
    pub fn new() -> (store: Self)
        ensures
            store@ == Map::<u64, BettingMarket>::empty(),
    {
        Self::default()
    }

    /// Stores `market` under its identifier, in place of any market that was
    /// there.
    pub fn insert(&mut self, market: BettingMarket)
        ensures
            final(self)@ == old(self)@.insert(market.id, market),
    {
        self.markets.insert(market.id, market);
    }

    /// The market with the identifier `market_id`, or `None` if there is none.
    pub fn get(&self, market_id: u64) -> (found: Option<&BettingMarket>)
        ensures
            found == match model::lookup(self@, market_id) {
                Some(market) => Some(&market),
                None => None,
            },
            found is Some <==> self@.contains_key(market_id),
            found matches Some(market) ==> *market == self@[market_id],
    {
        self.markets.get(&market_id)
    }

    /// The market with the identifier `market_id` for modification, or `None`
    /// if there is none.
    ///
    /// What the caller leaves behind the reference is then stored under
    /// `market_id`; every other market stays as it is.
    pub fn get_mut(&mut self, market_id: u64) -> (found: Option<&mut BettingMarket>)
        ensures
            match found {
                Some(market) => {
                    &&& model::lookup(old(self)@, market_id) == Some(*market)
                    &&& final(self)@ == old(self)@.insert(market_id, *final(market))
                },
                None => {
                    &&& model::lookup(old(self)@, market_id) is None
                    &&& final(self)@ == old(self)@
                },
            },
            found is Some <==> old(self)@.contains_key(market_id),
            found matches Some(market) ==> *market == old(self)@[market_id],
    {
        match self.markets.entry(market_id) {
            Entry::Occupied(entry) => Some(entry.into_mut()),
            Entry::Vacant(_) => None,
        }
    }
}

} // verus!

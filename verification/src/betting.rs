//! Betting markets with an optional cap on the size of a single bet.
//!
//! * [`BettingService::set_max_bet`]: admin only; sets or removes the largest
//!   single bet that a market accepts.
//! * [`BettingService::place_bet`]: judges a bet against the market's cap.
//!
//! A market without a cap accepts a bet of any positive size. Amounts are only
//! ever compared, never added or subtracted, so no judgement can overflow.
//!
//! [`model`] says what each entrypoint decides, over the map from market
//! identifiers to markets; [`laws`] proves what follows for the library as a
//! whole.

pub mod error;
pub mod laws;
pub mod model;
pub mod service;
pub mod store;
pub mod types;

pub use error::BettingError;
pub use service::BettingService;
pub use store::MarketStore;
pub use types::{BetRequest, BettingDataKey, BettingMarket, PlacedBet};

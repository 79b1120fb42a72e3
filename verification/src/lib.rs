//! Per-market maximum-bet caps for prediction markets.
//!
//! The [`betting`] module holds the markets, the store they live in, and the
//! service that configures caps and judges bets against them. The [`decimal`]
//! module writes integers in decimal notation for the error messages.

pub mod betting;
pub mod decimal;

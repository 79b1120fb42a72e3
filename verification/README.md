# predictify_hybrid

Per-market maximum-bet caps for prediction markets, verified with Verus.

* `src/betting/types.rs`, `error.rs`: markets, bets and errors.
* `src/betting/store.rs`: the in-memory store of markets.
* `src/betting/model.rs`: what the entrypoints decide, over the stored markets.
* `src/betting/service.rs`: the entrypoints `set_max_bet`, `place_bet` and
  `get_max_bet`.
* `src/betting/laws.rs`: what holds of the library as a whole.
* `src/decimal.rs`: integers in decimal notation, for the error messages.
* `app/`: serialisable records, `std::error::Error`, and logging around the
  entrypoints.

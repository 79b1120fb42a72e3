use predictify_hybrid::betting::{
    BetRequest, BettingError, BettingMarket, BettingService, MarketStore,
};

// helpers

/// Build a store with one market whose cap is `max_bet_amount`.
fn store_with_market(market_id: u64, max_bet_amount: Option<i128>) -> MarketStore {
    let mut store = MarketStore::new();
    store.insert(BettingMarket {
        id: market_id,
        max_bet_amount,
    });
    store
}

fn bet(market_id: u64, amount: i128) -> BetRequest {
    BetRequest {
        market_id,
        bettor: "GBETTOR".to_string(),
        amount,
        outcome: "yes".to_string(),
    }
}

// set_max_bet

#[test]
fn set_max_bet_sets_cap_for_admin() {
    let mut store = store_with_market(1, None);

    BettingService::set_max_bet(&mut store, 1, Some(10_000_000), true).unwrap();

    assert_eq!(store.get(1).unwrap().max_bet_amount, Some(10_000_000));
}

#[test]
fn set_max_bet_removes_cap_when_none() {
    let mut store = store_with_market(1, Some(5_000_000));

    BettingService::set_max_bet(&mut store, 1, None, true).unwrap();

    assert_eq!(store.get(1).unwrap().max_bet_amount, None);
}

#[test]
fn set_max_bet_rejects_non_admin() {
    let mut store = store_with_market(1, None);

    let err = BettingService::set_max_bet(&mut store, 1, Some(1_000_000), false)
        .unwrap_err();

    assert_eq!(err, BettingError::Unauthorized);
}

#[test]
fn set_max_bet_rejects_zero_cap() {
    let mut store = store_with_market(1, None);

    let err = BettingService::set_max_bet(&mut store, 1, Some(0), true)
        .unwrap_err();

    assert_eq!(err, BettingError::InvalidCap { cap: 0 });
}

#[test]
fn set_max_bet_rejects_negative_cap() {
    let mut store = store_with_market(1, None);

    let err = BettingService::set_max_bet(&mut store, 1, Some(-1), true)
        .unwrap_err();

    assert_eq!(err, BettingError::InvalidCap { cap: -1 });
}

#[test]
fn set_max_bet_rejects_unknown_market() {
    let mut store = MarketStore::new();

    let err = BettingService::set_max_bet(&mut store, 99, Some(1_000_000), true)
        .unwrap_err();

    assert_eq!(err, BettingError::MarketNotFound { market_id: 99 });
}

#[test]
fn set_max_bet_overwrites_existing_cap() {
    let mut store = store_with_market(1, Some(5_000_000));

    BettingService::set_max_bet(&mut store, 1, Some(20_000_000), true).unwrap();

    assert_eq!(store.get(1).unwrap().max_bet_amount, Some(20_000_000));
}

// place_bet - happy path

#[test]
fn place_bet_accepts_bet_exactly_at_cap() {
    let mut store = store_with_market(1, Some(10_000_000));
    let placed = BettingService::place_bet(&mut store, bet(1, 10_000_000)).unwrap();
    assert_eq!(placed.amount, 10_000_000);
}

#[test]
fn place_bet_accepts_bet_below_cap() {
    let mut store = store_with_market(1, Some(10_000_000));
    let placed = BettingService::place_bet(&mut store, bet(1, 1)).unwrap();
    assert_eq!(placed.amount, 1);
}

#[test]
fn place_bet_accepts_any_amount_when_no_cap() {
    let mut store = store_with_market(1, None);
    let placed = BettingService::place_bet(&mut store, bet(1, i128::MAX)).unwrap();
    assert_eq!(placed.amount, i128::MAX);
}

#[test]
fn place_bet_returns_correct_placed_bet_fields() {
    let mut store = store_with_market(42, Some(100_000_000));
    let req = BetRequest {
        market_id: 42,
        bettor: "GPARTICIPANT".to_string(),
        amount: 50_000_000,
        outcome: "no".to_string(),
    };
    let placed = BettingService::place_bet(&mut store, req).unwrap();

    assert_eq!(placed.market_id, 42);
    assert_eq!(placed.bettor, "GPARTICIPANT");
    assert_eq!(placed.amount, 50_000_000);
    assert_eq!(placed.outcome, "no");
}

// place_bet - cap enforcement

#[test]
fn place_bet_rejects_bet_above_cap() {
    let mut store = store_with_market(1, Some(10_000_000));

    let err = BettingService::place_bet(&mut store, bet(1, 10_000_001)).unwrap_err();

    assert_eq!(
        err,
        BettingError::BetExceedsMaximum {
            amount: 10_000_001,
            cap: 10_000_000,
        }
    );
}

#[test]
fn place_bet_rejects_bet_when_cap_is_one_stroop() {
    let mut store = store_with_market(1, Some(1));

    // Amount = 1 is exactly at cap: accepted.
    BettingService::place_bet(&mut store, bet(1, 1)).unwrap();

    // Amount = 2 exceeds cap: rejected.
    let err = BettingService::place_bet(&mut store, bet(1, 2)).unwrap_err();
    assert_eq!(
        err,
        BettingError::BetExceedsMaximum { amount: 2, cap: 1 }
    );
}

#[test]
fn place_bet_enforces_updated_cap() {
    let mut store = store_with_market(1, Some(10_000_000));

    // Bet of 10_000_000 is accepted initially.
    BettingService::place_bet(&mut store, bet(1, 10_000_000)).unwrap();

    // Admin lowers cap.
    BettingService::set_max_bet(&mut store, 1, Some(5_000_000), true).unwrap();

    // Now the same amount is rejected.
    let err = BettingService::place_bet(&mut store, bet(1, 10_000_000)).unwrap_err();
    assert_eq!(
        err,
        BettingError::BetExceedsMaximum {
            amount: 10_000_000,
            cap: 5_000_000,
        }
    );
}

#[test]
fn place_bet_allowed_after_cap_removed() {
    let mut store = store_with_market(1, Some(1_000_000));

    // Large amount rejected while cap is set.
    BettingService::place_bet(&mut store, bet(1, 2_000_000)).unwrap_err();

    // Admin removes cap.
    BettingService::set_max_bet(&mut store, 1, None, true).unwrap();

    // Same amount now accepted.
    BettingService::place_bet(&mut store, bet(1, 2_000_000)).unwrap();
}

// place_bet - invalid amount

#[test]
fn place_bet_rejects_zero_amount() {
    let mut store = store_with_market(1, None);

    let err = BettingService::place_bet(&mut store, bet(1, 0)).unwrap_err();

    assert_eq!(err, BettingError::InvalidAmount { amount: 0 });
}

#[test]
fn place_bet_rejects_negative_amount() {
    let mut store = store_with_market(1, None);

    let err = BettingService::place_bet(&mut store, bet(1, -1)).unwrap_err();

    assert_eq!(err, BettingError::InvalidAmount { amount: -1 });
}

#[test]
fn place_bet_rejects_i128_min_amount() {
    let mut store = store_with_market(1, None);

    let err = BettingService::place_bet(&mut store, bet(1, i128::MIN)).unwrap_err();

    assert_eq!(err, BettingError::InvalidAmount { amount: i128::MIN });
}

// place_bet - market not found

#[test]
fn place_bet_rejects_unknown_market() {
    let mut store = MarketStore::new();

    let err = BettingService::place_bet(&mut store, bet(99, 1_000)).unwrap_err();

    assert_eq!(err, BettingError::MarketNotFound { market_id: 99 });
}

// get_max_bet

#[test]
fn get_max_bet_returns_current_cap() {
    let store = store_with_market(1, Some(7_000_000));
    assert_eq!(BettingService::get_max_bet(&store, 1), Some(7_000_000));
}

#[test]
fn get_max_bet_returns_none_when_no_cap() {
    let store = store_with_market(1, None);
    assert_eq!(BettingService::get_max_bet(&store, 1), None);
}

#[test]
fn get_max_bet_returns_none_for_unknown_market() {
    let store = MarketStore::new();
    assert_eq!(BettingService::get_max_bet(&store, 99), None);
}

// error display

#[test]
fn error_display_bet_exceeds_maximum() {
    let err = BettingError::BetExceedsMaximum { amount: 200, cap: 100 };
    let msg = err.to_string();
    assert!(msg.contains("200"));
    assert!(msg.contains("100"));
}

#[test]
fn error_display_invalid_amount() {
    let err = BettingError::InvalidAmount { amount: -5 };
    assert!(err.to_string().contains("-5"));
}

#[test]
fn error_display_invalid_cap() {
    let err = BettingError::InvalidCap { cap: 0 };
    assert!(err.to_string().contains("0"));
}

#[test]
fn error_display_market_not_found() {
    let err = BettingError::MarketNotFound { market_id: 42 };
    assert!(err.to_string().contains("42"));
}

#[test]
fn error_display_overflow() {
    assert!(BettingError::Overflow.to_string().contains("overflow"));
}

#[test]
fn error_display_unauthorized() {
    assert!(BettingError::Unauthorized.to_string().contains("Admin"));
}

// multiple markets are independent

#[test]
fn caps_are_independent_per_market() {
    let mut store = MarketStore::new();
    store.insert(BettingMarket { id: 1, max_bet_amount: Some(1_000_000) });
    store.insert(BettingMarket { id: 2, max_bet_amount: Some(5_000_000) });

    // Market 1: amount 1_000_000 accepted, 1_000_001 rejected.
    BettingService::place_bet(&mut store, bet(1, 1_000_000)).unwrap();
    BettingService::place_bet(&mut store, bet(1, 1_000_001)).unwrap_err();

    // Market 2: same amounts — different cap applies.
    BettingService::place_bet(&mut store, bet(2, 1_000_001)).unwrap();
    BettingService::place_bet(&mut store, bet(2, 5_000_001)).unwrap_err();
}

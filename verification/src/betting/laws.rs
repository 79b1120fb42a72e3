//! What holds of the library as a whole.
//!
//! The laws speak of the maps that stores view as, and of the functions in
//! [`model`](crate::betting::model) that the contracts of the entrypoints are
//! written in.

use vstd::prelude::*;

use crate::betting::error::BettingError;
use crate::betting::model;
use crate::betting::types::{BetRequest, BettingMarket};
use crate::decimal;

verus! {

/// A market that was inserted is found under its identifier, whatever was there
/// before, and every other identifier finds what it found before.
pub proof fn law_insert_then_get(
    markets: Map<u64, BettingMarket>,
    market: BettingMarket,
    other: u64,
)
    requires
        other != market.id,
    ensures
        model::lookup(markets.insert(market.id, market), market.id) == Some(market),
        model::lookup(markets.insert(market.id, market), other) == model::lookup(markets, other),
{
}

/// Looking an identifier up finds the market that is stored under it, and
/// nothing where none is.
pub proof fn law_lookup_finds_what_is_stored(markets: Map<u64, BettingMarket>, market_id: u64)
    ensures
        model::lookup(markets, market_id) is Some <==> markets.contains_key(market_id),
        markets.contains_key(market_id) ==> model::lookup(markets, market_id) == Some(
            markets[market_id],
        ),
{
}

/// Every market stays stored under its own identifier: in an empty store, after
/// an insertion, and after a change of a cap.
pub proof fn law_markets_stay_under_their_identifiers(
    markets: Map<u64, BettingMarket>,
    market: BettingMarket,
    market_id: u64,
    cap: Option<i128>,
    is_admin: bool,
)
    requires
        model::well_keyed(markets),
    ensures
        model::well_keyed(Map::<u64, BettingMarket>::empty()),
        model::well_keyed(markets.insert(market.id, market)),
        model::set_max_bet_refusal(markets, market_id, cap, is_admin) is None
            ==> model::well_keyed(model::with_cap(markets, market_id, cap)),
{
}

/// A modification through a mutable reference keeps every market under its own
/// identifier exactly where it leaves the identifier of the market alone.
pub proof fn law_modification_keeps_identifiers(
    markets: Map<u64, BettingMarket>,
    market_id: u64,
    modified: BettingMarket,
)
    requires
        model::well_keyed(markets),
    ensures
        model::well_keyed(markets.insert(market_id, modified)) <==> modified.id == market_id,
{
    let after = markets.insert(market_id, modified);
    assert(after.contains_key(market_id));
}

/// Only an admin changes a cap: any other caller is refused as unauthorized,
/// whatever else it passes.
pub proof fn law_only_an_admin_sets_caps(
    markets: Map<u64, BettingMarket>,
    market_id: u64,
    cap: Option<i128>,
    is_admin: bool,
)
    ensures
        !is_admin <==> model::set_max_bet_refusal(markets, market_id, cap, is_admin) == Some(
            BettingError::Unauthorized,
        ),
{
}

/// A cap is changed exactly where the caller is an admin, the new cap is absent
/// or positive, and the market exists.
pub proof fn law_caps_change_exactly_where_allowed(
    markets: Map<u64, BettingMarket>,
    market_id: u64,
    cap: Option<i128>,
    is_admin: bool,
)
    ensures
        model::set_max_bet_refusal(markets, market_id, cap, is_admin) is None <==> {
            &&& is_admin
            &&& cap matches Some(limit) ==> limit > 0
            &&& markets.contains_key(market_id)
        },
{
}

/// An admin who sets a cap of zero or less is refused, and told that cap,
/// whether or not the market exists; nobody else is refused for the cap.
pub proof fn law_nonpositive_cap_is_invalid(
    markets: Map<u64, BettingMarket>,
    market_id: u64,
    cap: Option<i128>,
    is_admin: bool,
    limit: i128,
)
    ensures
        model::set_max_bet_refusal(markets, market_id, cap, is_admin) == Some(
            BettingError::InvalidCap { cap: limit },
        ) <==> is_admin && cap == Some(limit) && limit <= 0,
{
}

/// A change of a cap is refused for want of a market exactly where it is
/// otherwise in order and the market does not exist; the error names the
/// market.
pub proof fn law_cap_of_unknown_market_cannot_change(
    markets: Map<u64, BettingMarket>,
    market_id: u64,
    cap: Option<i128>,
    is_admin: bool,
    named: u64,
)
    ensures
        model::set_max_bet_refusal(markets, market_id, cap, is_admin) == Some(
            BettingError::MarketNotFound { market_id: named },
        ) <==> {
            &&& is_admin
            &&& cap matches Some(limit) ==> limit > 0
            &&& !markets.contains_key(market_id)
            &&& named == market_id
        },
{
}

/// A change of a cap is judged alike for any two markets of any two stores that
/// both exist, or both do not: it succeeds for both or for neither.
pub proof fn law_cap_changes_single_out_no_market(
    a: Map<u64, BettingMarket>,
    id_a: u64,
    b: Map<u64, BettingMarket>,
    id_b: u64,
    cap: Option<i128>,
    is_admin: bool,
)
    requires
        a.contains_key(id_a) == b.contains_key(id_b),
    ensures
        model::set_max_bet_refusal(a, id_a, cap, is_admin) is None
            <==> model::set_max_bet_refusal(b, id_b, cap, is_admin) is None,
{
}

/// Changing the cap of a market stores exactly the new cap with it, and leaves
/// its identifier, every other market, and the set of markets alone.
pub proof fn law_changed_cap_is_what_is_stored(
    markets: Map<u64, BettingMarket>,
    market_id: u64,
    cap: Option<i128>,
    other: u64,
)
    requires
        markets.contains_key(market_id),
    ensures
        model::with_cap(markets, market_id, cap)[market_id].max_bet_amount == cap,
        model::with_cap(markets, market_id, cap)[market_id].id == markets[market_id].id,
        model::with_cap(markets, market_id, cap).contains_key(other) == markets.contains_key(other),
        other != market_id ==> model::with_cap(markets, market_id, cap)[other] == markets[other],
{
}

/// After a successful change, a market has no cap or a positive one.
pub proof fn law_configured_cap_is_positive(
    markets: Map<u64, BettingMarket>,
    market_id: u64,
    cap: Option<i128>,
    is_admin: bool,
)
    requires
        model::set_max_bet_refusal(markets, market_id, cap, is_admin) is None,
    ensures
        model::with_cap(markets, market_id, cap)[market_id].max_bet_amount matches Some(limit)
            ==> limit > 0,
{
}

/// The cap that is read is the one stored with the market, and none where the
/// market does not exist.
pub proof fn law_cap_read_is_the_stored_cap(markets: Map<u64, BettingMarket>, market_id: u64)
    ensures
        markets.contains_key(market_id) ==> model::max_bet(markets, market_id)
            == markets[market_id].max_bet_amount,
        !markets.contains_key(market_id) ==> model::max_bet(markets, market_id) is None,
{
}

/// The cap that a successful change sets is the cap that is read afterwards.
pub proof fn law_cap_reads_back(
    markets: Map<u64, BettingMarket>,
    market_id: u64,
    cap: Option<i128>,
    is_admin: bool,
)
    requires
        model::set_max_bet_refusal(markets, market_id, cap, is_admin) is None,
    ensures
        model::max_bet(model::with_cap(markets, market_id, cap), market_id) == cap,
{
}

/// A successful change of a cap neither adds nor removes a market, and keeps
/// the market's identifier.
pub proof fn law_cap_change_touches_only_the_cap(
    markets: Map<u64, BettingMarket>,
    market_id: u64,
    cap: Option<i128>,
    is_admin: bool,
)
    requires
        model::set_max_bet_refusal(markets, market_id, cap, is_admin) is None,
    ensures
        model::with_cap(markets, market_id, cap).dom() == markets.dom(),
        model::with_cap(markets, market_id, cap)[market_id].id == markets[market_id].id,
{
}

/// Caps are independent: a successful change of one market's cap leaves every
/// other market as it was, its cap, and the judgement on every bet on it.
pub proof fn law_caps_are_independent(
    markets: Map<u64, BettingMarket>,
    market_id: u64,
    cap: Option<i128>,
    is_admin: bool,
    other: u64,
    amount: i128,
)
    requires
        model::set_max_bet_refusal(markets, market_id, cap, is_admin) is None,
        other != market_id,
    ensures
        model::lookup(model::with_cap(markets, market_id, cap), other) == model::lookup(
            markets,
            other,
        ),
        model::max_bet(model::with_cap(markets, market_id, cap), other) == model::max_bet(
            markets,
            other,
        ),
        model::place_bet_refusal(model::with_cap(markets, market_id, cap), other, amount)
            == model::place_bet_refusal(markets, other, amount),
{
}

/// The latest cap wins: of two successful changes to one market, the first
/// leaves no trace, and it does not affect whether the second succeeds.
pub proof fn law_latest_cap_wins(
    markets: Map<u64, BettingMarket>,
    market_id: u64,
    first: Option<i128>,
    second: Option<i128>,
    first_is_admin: bool,
    second_is_admin: bool,
)
    requires
        model::set_max_bet_refusal(markets, market_id, first, first_is_admin) is None,
    ensures
        model::set_max_bet_refusal(
            model::with_cap(markets, market_id, first),
            market_id,
            second,
            second_is_admin,
        ) == model::set_max_bet_refusal(markets, market_id, second, second_is_admin),
        model::with_cap(model::with_cap(markets, market_id, first), market_id, second)
            == model::with_cap(markets, market_id, second),
{
}

/// A change of a cap is undone by setting the cap that was there before,
/// provided that this is one that may be configured.
pub proof fn law_cap_change_can_be_undone(
    markets: Map<u64, BettingMarket>,
    market_id: u64,
    cap: Option<i128>,
)
    requires
        model::set_max_bet_refusal(markets, market_id, cap, true) is None,
        model::valid_cap(model::max_bet(markets, market_id)),
    ensures
        ({
            let before = model::max_bet(markets, market_id);
            let changed = model::with_cap(markets, market_id, cap);
            &&& model::set_max_bet_refusal(changed, market_id, before, true) is None
            &&& model::with_cap(changed, market_id, before) == markets
        }),
{
}

/// Every cap that the admin configures is positive: where all caps in use are
/// ones that may be configured, they are so after a change as well.
pub proof fn law_configured_caps_are_valid(
    markets: Map<u64, BettingMarket>,
    market_id: u64,
    cap: Option<i128>,
    is_admin: bool,
)
    requires
        model::valid_caps(markets),
        model::set_max_bet_refusal(markets, market_id, cap, is_admin) is None,
    ensures
        model::valid_caps(model::with_cap(markets, market_id, cap)),
{
}

/// The cap stored with a market judges every positive bet on it: up to and
/// including the cap it is accepted, above it is refused with the amount and
/// the cap; with no cap stored, it is accepted.
pub proof fn law_stored_cap_judges_bets(
    markets: Map<u64, BettingMarket>,
    market_id: u64,
    market: BettingMarket,
    amount: i128,
)
    requires
        markets.contains_key(market_id),
        markets[market_id] == market,
        amount > 0,
    ensures
        market.max_bet_amount is None ==> model::place_bet_refusal(markets, market_id, amount)
            is None,
        market.max_bet_amount matches Some(cap) ==> amount <= cap ==> model::place_bet_refusal(
            markets,
            market_id,
            amount,
        ) is None,
        market.max_bet_amount matches Some(cap) ==> amount > cap ==> model::place_bet_refusal(
            markets,
            market_id,
            amount,
        ) == Some(BettingError::BetExceedsMaximum { amount, cap }),
{
}

/// A bet is refused for its amount exactly where the amount is zero or
/// negative, whether or not the market exists; the error names the amount.
pub proof fn law_nonpositive_bet_is_invalid(
    markets: Map<u64, BettingMarket>,
    market_id: u64,
    amount: i128,
    named: i128,
)
    ensures
        model::place_bet_refusal(markets, market_id, amount) == Some(
            BettingError::InvalidAmount { amount: named },
        ) <==> amount <= 0 && named == amount,
{
}

/// A bet is refused for want of a market exactly where its amount is positive
/// and the market does not exist; the error names the market.
pub proof fn law_bet_on_unknown_market_is_refused(
    markets: Map<u64, BettingMarket>,
    market_id: u64,
    amount: i128,
    named: u64,
)
    ensures
        model::place_bet_refusal(markets, market_id, amount) == Some(
            BettingError::MarketNotFound { market_id: named },
        ) <==> amount > 0 && !markets.contains_key(market_id) && named == market_id,
{
}

/// Where a bet is accepted, so is every smaller positive bet on the same
/// market.
pub proof fn law_smaller_bets_are_accepted(
    markets: Map<u64, BettingMarket>,
    market_id: u64,
    smaller: i128,
    larger: i128,
)
    requires
        0 < smaller <= larger,
        model::place_bet_refusal(markets, market_id, larger) is None,
    ensures
        model::place_bet_refusal(markets, market_id, smaller) is None,
{
}

/// Two markets of any two stores that store the same cap get the same judgement
/// on every amount.
pub proof fn law_bets_single_out_no_market(
    a: Map<u64, BettingMarket>,
    id_a: u64,
    b: Map<u64, BettingMarket>,
    id_b: u64,
    amount: i128,
)
    requires
        a.contains_key(id_a),
        b.contains_key(id_b),
        a[id_a].max_bet_amount == b[id_b].max_bet_amount,
    ensures
        model::place_bet_refusal(a, id_a, amount) == model::place_bet_refusal(b, id_b, amount),
{
}

/// An accepted bet carries the market, the bettor, the amount and the outcome
/// of its request, each in its own place.
pub proof fn law_placed_bet_carries_the_request(request: BetRequest)
    ensures
        model::placed(request).market_id == request.market_id,
        model::placed(request).bettor@ == request.bettor@,
        model::placed(request).amount == request.amount,
        model::placed(request).outcome@ == request.outcome@,
{
}

/// A bet is accepted exactly where its amount is positive, its market exists,
/// and the amount is at most the market's cap if it has one.
pub proof fn law_accepted_bets(markets: Map<u64, BettingMarket>, market_id: u64, amount: i128)
    ensures
        model::place_bet_refusal(markets, market_id, amount) is None <==> {
            &&& amount > 0
            &&& markets.contains_key(market_id)
            &&& model::within_cap(amount, model::max_bet(markets, market_id))
        },
        model::place_bet_refusal(markets, market_id, amount) is None <==> {
            &&& amount > 0
            &&& markets.contains_key(market_id)
            &&& markets[market_id].max_bet_amount matches Some(cap) ==> amount <= cap
        },
{
}

/// A positive amount above the cap is refused as exceeding the maximum, with
/// the amount and the cap in the error.
pub proof fn law_bet_above_cap_is_rejected(
    markets: Map<u64, BettingMarket>,
    market_id: u64,
    amount: i128,
    cap: i128,
)
    requires
        model::max_bet(markets, market_id) == Some(cap),
        amount > cap,
        amount > 0,
    ensures
        model::place_bet_refusal(markets, market_id, amount) == Some(
            BettingError::BetExceedsMaximum { amount, cap },
        ),
{
}

/// A market without a cap accepts any positive amount.
pub proof fn law_uncapped_market_accepts_any_positive_bet(
    markets: Map<u64, BettingMarket>,
    market_id: u64,
    amount: i128,
)
    requires
        markets.contains_key(market_id),
        model::max_bet(markets, market_id) is None,
        amount > 0,
    ensures
        model::place_bet_refusal(markets, market_id, amount) is None,
{
}

/// A cap of zero disables all betting on the market.
pub proof fn law_zero_cap_disables_betting(
    markets: Map<u64, BettingMarket>,
    market_id: u64,
    amount: i128,
)
    requires
        model::max_bet(markets, market_id) == Some(0i128),
    ensures
        model::place_bet_refusal(markets, market_id, amount) is Some,
{
}

/// From a successful change on, the new cap alone decides on positive amounts:
/// one is accepted where the cap lets it through, and refused as exceeding it
/// where not.
pub proof fn law_new_cap_is_enforced(
    markets: Map<u64, BettingMarket>,
    market_id: u64,
    cap: Option<i128>,
    is_admin: bool,
    amount: i128,
)
    requires
        model::set_max_bet_refusal(markets, market_id, cap, is_admin) is None,
    ensures
        model::place_bet_refusal(model::with_cap(markets, market_id, cap), market_id, amount)
            == if amount <= 0 {
            Some(BettingError::InvalidAmount { amount })
        } else {
            match cap {
                Some(limit) => if amount <= limit {
                    None
                } else {
                    Some(BettingError::BetExceedsMaximum { amount, cap: limit })
                },
                None => None,
            }
        },
{
}

/// No entrypoint ever reports an overflow.
pub proof fn law_no_overflow(
    markets: Map<u64, BettingMarket>,
    market_id: u64,
    cap: Option<i128>,
    is_admin: bool,
    amount: i128,
)
    ensures
        model::set_max_bet_refusal(markets, market_id, cap, is_admin) != Some(
            BettingError::Overflow,
        ),
        model::place_bet_refusal(markets, market_id, amount) != Some(BettingError::Overflow),
{
}

/// The words of each message, with the numbers of the error in their places.
pub proof fn law_message_wording(amount: i128, cap: i128, market_id: u64)
    ensures
        (BettingError::BetExceedsMaximum { amount, cap }).message() == "Bet amount "@
            + decimal::decimal_int(amount as int) + " exceeds the per-market maximum of "@
            + decimal::decimal_int(cap as int),
        (BettingError::InvalidAmount { amount }).message() == "Bet amount must be positive, got "@
            + decimal::decimal_int(amount as int),
        (BettingError::InvalidCap { cap }).message()
            == "Max-bet cap must be positive when setting a cap, got "@ + decimal::decimal_int(
            cap as int,
        ) + "; pass None to remove the cap"@,
        BettingError::Overflow.message() == "Arithmetic overflow in bet calculation"@,
        BettingError::Unauthorized.message() == "Admin authorisation required"@,
        (BettingError::MarketNotFound { market_id }).message() == "Market "@
            + decimal::decimal_int(market_id as int) + " not found"@,
{
}

/// Whether `part` stands in `text` as one piece.
pub open spec fn occurs_in(part: Seq<char>, text: Seq<char>) -> bool {
    exists|start: int|
        0 <= start <= text.len() - part.len() && #[trigger] text.subrange(
            start,
            start + part.len(),
        ) == part
}

/// The message of an error shows, in decimal notation, the numbers that the
/// error holds.
pub proof fn law_messages_show_the_numbers(error: BettingError)
    ensures
        match error {
            BettingError::BetExceedsMaximum { amount, cap } => {
                &&& occurs_in(decimal::decimal_int(amount as int), error.message())
                &&& occurs_in(decimal::decimal_int(cap as int), error.message())
            },
            BettingError::InvalidAmount { amount } => occurs_in(
                decimal::decimal_int(amount as int),
                error.message(),
            ),
            BettingError::InvalidCap { cap } => occurs_in(
                decimal::decimal_int(cap as int),
                error.message(),
            ),
            BettingError::MarketNotFound { market_id } => occurs_in(
                decimal::decimal_nat(market_id as nat),
                error.message(),
            ),
            BettingError::Overflow | BettingError::Unauthorized => true,
        },
{
    match error {
        BettingError::BetExceedsMaximum { amount, cap } => {
            let before = "Bet amount "@;
            let shown = decimal::decimal_int(amount as int);
            let between = " exceeds the per-market maximum of "@;
            let limit = decimal::decimal_int(cap as int);
            lemma_occurs_between(before, shown, between + limit);
            assert(before + shown + (between + limit) == error.message());
            lemma_occurs_between(before + shown + between, limit, Seq::empty());
            assert(before + shown + between + limit + Seq::empty() == error.message());
        },
        BettingError::InvalidAmount { amount } => {
            let before = "Bet amount must be positive, got "@;
            let shown = decimal::decimal_int(amount as int);
            lemma_occurs_between(before, shown, Seq::empty());
            assert(before + shown + Seq::empty() == error.message());
        },
        BettingError::InvalidCap { cap } => {
            lemma_occurs_between(
                "Max-bet cap must be positive when setting a cap, got "@,
                decimal::decimal_int(cap as int),
                "; pass None to remove the cap"@,
            );
        },
        BettingError::MarketNotFound { market_id } => {
            lemma_occurs_between(
                "Market "@,
                decimal::decimal_nat(market_id as nat),
                " not found"@,
            );
        },
        BettingError::Overflow | BettingError::Unauthorized => {},
    }
}

proof fn lemma_occurs_between(before: Seq<char>, part: Seq<char>, after: Seq<char>)
    ensures
        occurs_in(part, before + part + after),
{
    let start = before.len() as int;
    assert((before + part + after).subrange(start, start + part.len()) == part);
}

/// Errors with the same message are the same error.
pub proof fn law_messages_tell_errors_apart(a: BettingError, b: BettingError)
    requires
        a.message() == b.message(),
    ensures
        a == b,
{
    reveal_strlit(" exceeds the per-market maximum of ");
    lemma_opening(a);
    lemma_opening(b);
    match (a, b) {
        (
            BettingError::BetExceedsMaximum { amount: amount_a, cap: cap_a },
            BettingError::BetExceedsMaximum { amount: amount_b, cap: cap_b },
        ) => {
            let opening = "Bet amount "@.len() as int;
            let between = " exceeds the per-market maximum of "@;
            let shown_a = decimal::decimal_int(amount_a as int);
            let shown_b = decimal::decimal_int(amount_b as int);
            let rest_a = between + decimal::decimal_int(cap_a as int);
            let rest_b = between + decimal::decimal_int(cap_b as int);
            assert(a.message().skip(opening) == shown_a + rest_a);
            assert(b.message().skip(opening) == shown_b + rest_b);
            lemma_decimal_has_no_letters(amount_a as int);
            lemma_decimal_has_no_letters(amount_b as int);
            lemma_split_at_space(shown_a, rest_a, shown_b, rest_b);
            assert(rest_a.skip(between.len() as int) == decimal::decimal_int(cap_a as int));
            assert(rest_b.skip(between.len() as int) == decimal::decimal_int(cap_b as int));
            decimal::law_decimal_int_is_injective(amount_a as int, amount_b as int);
            decimal::law_decimal_int_is_injective(cap_a as int, cap_b as int);
        },
        (
            BettingError::InvalidAmount { amount: amount_a },
            BettingError::InvalidAmount { amount: amount_b },
        ) => {
            let opening = "Bet amount must be positive, got "@.len() as int;
            assert(a.message().skip(opening) == decimal::decimal_int(amount_a as int));
            assert(b.message().skip(opening) == decimal::decimal_int(amount_b as int));
            decimal::law_decimal_int_is_injective(amount_a as int, amount_b as int);
        },
        (BettingError::InvalidCap { cap: cap_a }, BettingError::InvalidCap { cap: cap_b }) => {
            let start = "Max-bet cap must be positive when setting a cap, got "@.len() as int;
            let end = a.message().len() - "; pass None to remove the cap"@.len();
            assert(a.message().subrange(start, end) == decimal::decimal_int(cap_a as int));
            assert(b.message().subrange(start, end) == decimal::decimal_int(cap_b as int));
            decimal::law_decimal_int_is_injective(cap_a as int, cap_b as int);
        },
        (
            BettingError::MarketNotFound { market_id: id_a },
            BettingError::MarketNotFound { market_id: id_b },
        ) => {
            let start = "Market "@.len() as int;
            let end = a.message().len() - " not found"@.len();
            assert(a.message().subrange(start, end) == decimal::decimal_int(id_a as int));
            assert(b.message().subrange(start, end) == decimal::decimal_int(id_b as int));
            decimal::law_decimal_int_is_injective(id_a as int, id_b as int);
        },
        _ => {},
    }
}

/// The opening of a message gives the kind of the error away.
proof fn lemma_opening(error: BettingError)
    ensures
        error.message().len() > 11,
        ({
            let text = error.message();
            match error {
                BettingError::BetExceedsMaximum { .. } => text[0] == 'B' && text[11] != 'm',
                BettingError::InvalidAmount { .. } => text[0] == 'B' && text[11] == 'm',
                BettingError::InvalidCap { .. } => text[0] == 'M' && text[2] == 'x',
                BettingError::Overflow => text[0] == 'A' && text[1] == 'r',
                BettingError::Unauthorized => text[0] == 'A' && text[1] == 'd',
                BettingError::MarketNotFound { .. } => text[0] == 'M' && text[2] == 'r',
            }
        }),
{
    reveal_strlit("Bet amount ");
    reveal_strlit(" exceeds the per-market maximum of ");
    reveal_strlit("Bet amount must be positive, got ");
    reveal_strlit("Max-bet cap must be positive when setting a cap, got ");
    reveal_strlit("; pass None to remove the cap");
    reveal_strlit("Arithmetic overflow in bet calculation");
    reveal_strlit("Admin authorisation required");
    reveal_strlit("Market ");
    reveal_strlit(" not found");
    if let BettingError::BetExceedsMaximum { amount, cap } = error {
        lemma_decimal_has_no_letters(amount as int);
    }
}

/// Decimal notation is not empty, and holds only digits and the sign.
proof fn lemma_decimal_has_no_letters(i: int)
    ensures
        decimal::decimal_int(i).len() > 0,
        forall|k: int|
            0 <= k < decimal::decimal_int(i).len() ==> {
                ||| decimal::is_digit(#[trigger] decimal::decimal_int(i)[k])
                ||| decimal::decimal_int(i)[k] == '-'
            },
{
    decimal::law_decimal_nat_reads_back(if i < 0 {
        (-i) as nat
    } else {
        i as nat
    });
}

/// A text splits in one way only at its first space.
proof fn lemma_split_at_space(
    head_a: Seq<char>,
    tail_a: Seq<char>,
    head_b: Seq<char>,
    tail_b: Seq<char>,
)
    requires
        head_a + tail_a == head_b + tail_b,
        forall|k: int| 0 <= k < head_a.len() ==> head_a[k] != ' ',
        forall|k: int| 0 <= k < head_b.len() ==> head_b[k] != ' ',
        tail_a.len() > 0 && tail_a[0] == ' ',
        tail_b.len() > 0 && tail_b[0] == ' ',
    ensures
        head_a == head_b,
        tail_a == tail_b,
{
    let text = head_a + tail_a;
    assert(text[head_a.len() as int] == ' ');
    assert((head_b + tail_b)[head_b.len() as int] == ' ');
    assert(head_a.len() == head_b.len()) by {
        if head_a.len() < head_b.len() {
            assert(text[head_a.len() as int] == head_b[head_a.len() as int]);
        }
        if head_b.len() < head_a.len() {
            assert(text[head_b.len() as int] == head_a[head_b.len() as int]);
        }
    }
    assert(text.take(head_a.len() as int) == head_a);
    assert((head_b + tail_b).take(head_b.len() as int) == head_b);
    assert(text.skip(head_a.len() as int) == tail_a);
    assert((head_b + tail_b).skip(head_b.len() as int) == tail_b);
}

} // verus!

//! The reasons for which an entrypoint refuses a call.

use vstd::prelude::*;

use crate::decimal;

verus! {

/// Errors returned by the betting entrypoints.
#[derive(Debug, Clone, PartialEq, Eq, Structural)]
pub enum BettingError {
    /// The amount of the bet is larger than the market's cap.
    BetExceedsMaximum { amount: i128, cap: i128 },
    /// The amount of a bet has to be positive.
    InvalidAmount { amount: i128 },
    /// A cap has to be positive. To remove a cap, pass `None` instead.
    InvalidCap { cap: i128 },
    /// An `i128` operation overflowed.
    Overflow,
    /// The caller has no admin rights.
    Unauthorized,
    /// No market has this identifier.
    MarketNotFound { market_id: u64 },
}

impl BettingError {
    /// The text that describes the error.
    pub open spec fn message(self) -> Seq<char> {
        match self {
            BettingError::BetExceedsMaximum { amount, cap } => "Bet amount "@
                + decimal::decimal_int(amount as int) + " exceeds the per-market maximum of "@
                + decimal::decimal_int(cap as int),
            BettingError::InvalidAmount { amount } => "Bet amount must be positive, got "@
                + decimal::decimal_int(amount as int),
            BettingError::InvalidCap { cap } => "Max-bet cap must be positive when setting a cap, got "@
                + decimal::decimal_int(cap as int) + "; pass None to remove the cap"@,
            BettingError::Overflow => "Arithmetic overflow in bet calculation"@,
            BettingError::Unauthorized => "Admin authorisation required"@,
            BettingError::MarketNotFound { market_id } => "Market "@ + decimal::decimal_nat(
                market_id as nat,
            ) + " not found"@,
        }
    }

    /// Describes the error in one line of text.
    pub fn to_string(&self) -> (text: String)
        ensures
            text@ == self.message(),
            *self matches BettingError::BetExceedsMaximum { amount, cap } ==> text@
                == "Bet amount "@ + decimal::decimal_int(amount as int)
                + " exceeds the per-market maximum of "@ + decimal::decimal_int(cap as int),
            *self matches BettingError::InvalidAmount { amount } ==> text@
                == "Bet amount must be positive, got "@ + decimal::decimal_int(amount as int),
            *self matches BettingError::InvalidCap { cap } ==> text@
                == "Max-bet cap must be positive when setting a cap, got "@
                + decimal::decimal_int(cap as int) + "; pass None to remove the cap"@,
            *self is Overflow ==> text@ == "Arithmetic overflow in bet calculation"@,
            *self is Unauthorized ==> text@ == "Admin authorisation required"@,
            *self matches BettingError::MarketNotFound { market_id } ==> text@ == "Market "@
                + decimal::decimal_nat(market_id as nat) + " not found"@,
    {
        let mut text = String::new();
        match self {
            BettingError::BetExceedsMaximum { amount, cap } => {
                text.append("Bet amount ");
                decimal::append_i128(&mut text, *amount);
                text.append(" exceeds the per-market maximum of ");
                decimal::append_i128(&mut text, *cap);
            },
            BettingError::InvalidAmount { amount } => {
                text.append("Bet amount must be positive, got ");
                decimal::append_i128(&mut text, *amount);
            },
            BettingError::InvalidCap { cap } => {
                text.append("Max-bet cap must be positive when setting a cap, got ");
                decimal::append_i128(&mut text, *cap);
                text.append("; pass None to remove the cap");
            },
            BettingError::Overflow => {
                text.append("Arithmetic overflow in bet calculation");
            },
            BettingError::Unauthorized => {
                text.append("Admin authorisation required");
            },
            BettingError::MarketNotFound { market_id } => {
                text.append("Market ");
                decimal::append_u128(&mut text, *market_id as u128);
                text.append(" not found");
            },
        }
        text
    }
}

} // verus!

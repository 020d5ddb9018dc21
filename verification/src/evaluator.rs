//! The opportunity evaluator: a pure decision on two raw quotes.
//!
//! Quotes are raw integers in the quote token's smallest unit (here a
//! six-decimal stable-coin, so one human unit is `SCALE_FACTOR` raw units).
//! All comparisons happen on these raw integers; conversion to a decimal
//! happens only at the presentation edge, outside this module.

use vstd::prelude::*;

verus! {

/// A raw quote below this floor is treated as unusable (effectively zero).
pub const SANITY_FLOOR: u128 = 1_000_000;

/// Raw units per human-readable unit of the quote token (six decimals).
pub const SCALE_FACTOR: u128 = 1_000_000;

/// The two venues whose router contracts are compared.
#[derive(Clone, Copy, Debug, PartialEq, Eq, Structural)]
pub enum Venue {
    QuickSwap,
    SushiSwap,
}

/// Outcome of evaluating one tick's pair of quotes.
#[derive(Clone, Debug, PartialEq, Eq, Structural)]
pub enum Evaluation {
    /// At least one quote is below the sanity floor: the tick is discarded.
    Invalid,
    /// The quotes are equal: no direction, no opportunity.
    NoOp,
    /// A direction exists but the gas-adjusted profit does not strictly
    /// exceed the configured threshold.
    BelowThreshold,
    /// A persistable opportunity: buy on the lower-quoting venue, sell on
    /// the higher, with the gas-adjusted profit in raw units.
    Opportunity { buy_dex: Venue, sell_dex: Venue, profit_raw: u128 },
}

/// Gas cost and profit threshold, both already converted to raw units.
#[derive(Clone, Copy, Debug, PartialEq, Eq, Structural)]
pub struct EvalParams {
    /// Simulated gas cost, in raw units of the quote token.
    pub gas_cost_raw: u128,
    /// Minimum profit a record must strictly exceed, in raw units.
    pub min_profit_raw: u128,
}

/// Absolute difference of the two raw quotes.
pub open spec fn abs_diff(a: u128, b: u128) -> int {
    if a >= b { a - b } else { b - a }
}

/// Gas-adjusted profit: the quote difference less the gas cost, floored at zero.
pub open spec fn profit_raw_of(a: u128, b: u128, gas: u128) -> int {
    if abs_diff(a, b) > gas { abs_diff(a, b) - gas } else { 0 }
}

/// The venue to buy on: the one with the lower quote.
/// `quote_a` belongs to QuickSwap, `quote_b` to SushiSwap.
pub open spec fn spec_buy_venue(quote_a: u128, quote_b: u128) -> Venue {
    if quote_a < quote_b { Venue::QuickSwap } else { Venue::SushiSwap }
}

/// The venue to sell on: the one with the higher quote.
pub open spec fn spec_sell_venue(quote_a: u128, quote_b: u128) -> Venue {
    if quote_a < quote_b { Venue::SushiSwap } else { Venue::QuickSwap }
}

/// The storable name of a venue.
pub open spec fn spec_venue_name(v: Venue) -> Seq<char> {
    match v {
        Venue::QuickSwap => "QuickSwap"@,
        Venue::SushiSwap => "SushiSwap"@,
    }
}

/// The venue's name, as the store records it.
pub fn venue_name(v: Venue) -> (r: String)
    ensures
        r@ == spec_venue_name(v),
{
    match v {
        Venue::QuickSwap => String::from_str("QuickSwap"),
        Venue::SushiSwap => String::from_str("SushiSwap"),
    }
}

/// The evaluator's full decision on one tick.
pub open spec fn spec_evaluate(quote_a: u128, quote_b: u128, gas: u128, threshold: u128) -> Evaluation {
    if quote_a < SANITY_FLOOR || quote_b < SANITY_FLOOR {
        Evaluation::Invalid
    } else if quote_a == quote_b {
        Evaluation::NoOp
    } else if profit_raw_of(quote_a, quote_b, gas) > threshold {
        Evaluation::Opportunity {
            buy_dex: spec_buy_venue(quote_a, quote_b),
            sell_dex: spec_sell_venue(quote_a, quote_b),
            profit_raw: profit_raw_of(quote_a, quote_b, gas) as u128,
        }
    } else {
        Evaluation::BelowThreshold
    }
}

/// Evaluate one tick: validity gate, direction by raw comparison,
/// gas-adjusted profit, and the strict threshold decision.
pub fn evaluate(quote_a: u128, quote_b: u128, params: &EvalParams) -> (r: Evaluation)
    ensures
        r == spec_evaluate(quote_a, quote_b, params.gas_cost_raw, params.min_profit_raw),
{
    if quote_a < SANITY_FLOOR || quote_b < SANITY_FLOOR {
        return Evaluation::Invalid;
    }
    if quote_a == quote_b {
        return Evaluation::NoOp;
    }
    let diff: u128 = if quote_a >= quote_b { quote_a - quote_b } else { quote_b - quote_a };
    let profit_raw: u128 = if diff > params.gas_cost_raw { diff - params.gas_cost_raw } else { 0 };
    if profit_raw > params.min_profit_raw {
        let buy_dex = if quote_a < quote_b { Venue::QuickSwap } else { Venue::SushiSwap };
        let sell_dex = if quote_a < quote_b { Venue::SushiSwap } else { Venue::QuickSwap };
        Evaluation::Opportunity { buy_dex, sell_dex, profit_raw }
    } else {
        Evaluation::BelowThreshold
    }
}

/// Law: for valid, distinct quotes the buy venue is the one with the lower
/// quote and the sell venue the one with the higher, and swapping the two
/// quotes swaps the buy and sell roles while leaving the profit unchanged.
pub proof fn lemma_direction_antisymmetric(a: u128, b: u128, gas: u128, threshold: u128)
    requires
        a >= SANITY_FLOOR,
        b >= SANITY_FLOOR,
        a != b,
    ensures
        spec_buy_venue(a, b) == spec_sell_venue(b, a),
        spec_sell_venue(a, b) == spec_buy_venue(b, a),
        a < b ==> spec_buy_venue(a, b) == Venue::QuickSwap && spec_sell_venue(a, b) == Venue::SushiSwap,
        b < a ==> spec_buy_venue(a, b) == Venue::SushiSwap && spec_sell_venue(a, b) == Venue::QuickSwap,
        spec_evaluate(a, b, gas, threshold) matches Evaluation::Opportunity { buy_dex, sell_dex, profit_raw }
            ==> buy_dex == spec_buy_venue(a, b)
                && sell_dex == spec_sell_venue(a, b)
                && spec_evaluate(b, a, gas, threshold) == (Evaluation::Opportunity {
                    buy_dex: sell_dex,
                    sell_dex: buy_dex,
                    profit_raw,
                }),
{
}

/// Law: equal quotes at or above the sanity floor yield a no-op, never a record.
pub proof fn lemma_equal_quotes_no_op(a: u128, gas: u128, threshold: u128)
    requires
        a >= SANITY_FLOOR,
    ensures
        spec_evaluate(a, a, gas, threshold) == Evaluation::NoOp,
{
}

/// Law: a quote below the sanity floor makes the tick invalid, never a
/// record, regardless of the other quote.
pub proof fn lemma_below_floor_invalid(a: u128, b: u128, gas: u128, threshold: u128)
    requires
        a < SANITY_FLOOR || b < SANITY_FLOOR,
    ensures
        spec_evaluate(a, b, gas, threshold) == Evaluation::Invalid,
{
}

/// Law: for a fixed gas cost, the gas-adjusted profit is non-decreasing in
/// the absolute quote difference.
pub proof fn lemma_profit_monotonic(a1: u128, a2: u128, b: u128, gas: u128)
    requires
        abs_diff(a1, b) <= abs_diff(a2, b),
    ensures
        profit_raw_of(a1, b, gas) <= profit_raw_of(a2, b, gas),
{
}

/// Law: a profit exactly equal to the threshold produces no record, while a
/// profit one raw unit above it does.
pub proof fn lemma_threshold_boundary(a: u128, b: u128, gas: u128, threshold: u128)
    requires
        a >= SANITY_FLOOR,
        b >= SANITY_FLOOR,
        a != b,
    ensures
        profit_raw_of(a, b, gas) == threshold
            ==> spec_evaluate(a, b, gas, threshold) == Evaluation::BelowThreshold,
        profit_raw_of(a, b, gas) == threshold + 1
            ==> spec_evaluate(a, b, gas, threshold) == (Evaluation::Opportunity {
                buy_dex: spec_buy_venue(a, b),
                sell_dex: spec_sell_venue(a, b),
                profit_raw: (threshold + 1) as u128,
            }),
{
}

/// Law: the evaluator emits a record only when both quotes pass the sanity
/// floor, differ, and the gas-adjusted profit strictly exceeds the threshold.
pub proof fn lemma_record_only_above_threshold(a: u128, b: u128, gas: u128, threshold: u128)
    ensures
        spec_evaluate(a, b, gas, threshold) matches Evaluation::Opportunity { buy_dex, sell_dex, profit_raw }
            ==> a >= SANITY_FLOOR
                && b >= SANITY_FLOOR
                && a != b
                && buy_dex != sell_dex
                && profit_raw == profit_raw_of(a, b, gas)
                && profit_raw > threshold,
{
}

} // verus!

//! One tick of the poll loop, as a pure decision.
//!
//! The loop's outer shell fetches the two quotes and performs the chosen
//! action; everything between — zero-substitution for a failed fetch,
//! extraction of the final path amount, evaluation, and record building —
//! happens here.

use vstd::prelude::*;
use crate::evaluator::{
    spec_evaluate, spec_venue_name, venue_name, evaluate, EvalParams, Evaluation, Venue,
};
use crate::clock::now_rfc3339;

verus! {

/// A detected opportunity, as handed to the store. The store assigns the id.
///
/// `profit_raw` is the gas-adjusted profit in raw units of the quote token;
/// the human-readable decimal is `profit_raw / SCALE_FACTOR`, converted only
/// at the presentation edge.
#[derive(Clone, Debug)]
pub struct ArbitrageOpportunity {
    /// Name of the venue with the lower quote, where the trade buys.
    pub buy_dex: String,
    /// Name of the venue with the higher quote, where the trade sells.
    pub sell_dex: String,
    /// Gas-adjusted profit in raw units.
    pub profit_raw: u128,
    /// RFC 3339 creation time.
    pub timestamp: String,
}

impl ArbitrageOpportunity {
    /// The buy and sell venues are distinct members of the known set,
    /// and the timestamp is present.
    pub open spec fn wf(self) -> bool {
        &&& ((self.buy_dex@ == spec_venue_name(Venue::QuickSwap)
                && self.sell_dex@ == spec_venue_name(Venue::SushiSwap))
            || (self.buy_dex@ == spec_venue_name(Venue::SushiSwap)
                && self.sell_dex@ == spec_venue_name(Venue::QuickSwap)))
        &&& self.timestamp@.len() > 0
    }

    /// Build a record for a detected opportunity.
    pub fn new(buy: Venue, sell: Venue, profit_raw: u128, timestamp: String) -> (r: ArbitrageOpportunity)
        requires
            buy != sell,
            timestamp@.len() > 0,
        ensures
            r.buy_dex@ == spec_venue_name(buy),
            r.sell_dex@ == spec_venue_name(sell),
            r.profit_raw == profit_raw,
            r.timestamp == timestamp,
            r.wf(),
    {
        ArbitrageOpportunity {
            buy_dex: venue_name(buy),
            sell_dex: venue_name(sell),
            profit_raw,
            timestamp,
        }
    }
}

/// Why a tick produced no record.
#[derive(Clone, Copy, Debug, PartialEq, Eq, Structural)]
pub enum SkipReason {
    /// A quote was below the sanity floor (a failed fetch counts as zero).
    InvalidQuote,
    /// The two quotes were equal: no direction.
    EqualQuotes,
    /// The gas-adjusted profit did not strictly exceed the threshold.
    BelowThreshold,
}

/// What the loop must do after one tick.
#[derive(Clone, Debug)]
pub enum TickAction {
    /// Nothing to persist; the reason is logged.
    Skip(SkipReason),
    /// A record to hand to the store.
    Persist(ArbitrageOpportunity),
}

/// The raw quote a fetch outcome stands for: a failed fetch counts as zero,
/// and of a returned amounts sequence only the final element is used.
pub open spec fn spec_quote_of(fetched: Option<Vec<u128>>) -> u128 {
    match fetched {
        None => 0u128,
        Some(v) => if v@.len() == 0 { 0u128 } else { v@[v@.len() - 1] },
    }
}

/// Extract the raw quote from one venue's fetch outcome.
pub fn quote_from_fetch(fetched: &Option<Vec<u128>>) -> (q: u128)
    ensures
        q == spec_quote_of(*fetched),
{
    match fetched {
        None => 0,
        Some(v) => {
            if v.len() == 0 {
                0
            } else {
                v[v.len() - 1]
            }
        },
    }
}

/// Decide one tick: substitute zero for a failed fetch, take each sequence's
/// final amount, evaluate, and on an opportunity build a timestamped record.
pub fn process_tick(
    fetch_a: &Option<Vec<u128>>,
    fetch_b: &Option<Vec<u128>>,
    params: &EvalParams,
) -> (r: TickAction)
    ensures
        ({
            let a = spec_quote_of(*fetch_a);
            let b = spec_quote_of(*fetch_b);
            match spec_evaluate(a, b, params.gas_cost_raw, params.min_profit_raw) {
                Evaluation::Invalid => r == TickAction::Skip(SkipReason::InvalidQuote),
                Evaluation::NoOp => r == TickAction::Skip(SkipReason::EqualQuotes),
                Evaluation::BelowThreshold => r == TickAction::Skip(SkipReason::BelowThreshold),
                Evaluation::Opportunity { buy_dex, sell_dex, profit_raw } => match r {
                    TickAction::Persist(rec) => {
                        &&& rec.buy_dex@ == spec_venue_name(buy_dex)
                        &&& rec.sell_dex@ == spec_venue_name(sell_dex)
                        &&& rec.profit_raw == profit_raw
                        &&& rec.wf()
                    },
                    TickAction::Skip(_) => false,
                },
            }
        }),
{
    let quote_a = quote_from_fetch(fetch_a);
    let quote_b = quote_from_fetch(fetch_b);
    match evaluate(quote_a, quote_b, params) {
        Evaluation::Invalid => TickAction::Skip(SkipReason::InvalidQuote),
        Evaluation::NoOp => TickAction::Skip(SkipReason::EqualQuotes),
        Evaluation::BelowThreshold => TickAction::Skip(SkipReason::BelowThreshold),
        Evaluation::Opportunity { buy_dex, sell_dex, profit_raw } => {
            let timestamp = now_rfc3339();
            TickAction::Persist(ArbitrageOpportunity::new(buy_dex, sell_dex, profit_raw, timestamp))
        },
    }
}

/// Law: a failed fetch stands for a zero quote, which is below the sanity
/// floor, so the tick is invalid whatever the other venue returned.
pub proof fn lemma_failed_fetch_invalid(other: Option<Vec<u128>>, gas: u128, threshold: u128)
    ensures
        spec_quote_of(None::<Vec<u128>>) == 0,
        spec_evaluate(spec_quote_of(None::<Vec<u128>>), spec_quote_of(other), gas, threshold)
            == Evaluation::Invalid,
        spec_evaluate(spec_quote_of(other), spec_quote_of(None::<Vec<u128>>), gas, threshold)
            == Evaluation::Invalid,
{
}

} // verus!

//! Detection core for a two-venue DEX arbitrage poller.
//!
//! Two router contracts are polled for the quoted output of a fixed-size
//! swap; the evaluator compares the two raw quotes, subtracts a simulated
//! gas cost, and decides whether the tick yields a persistable opportunity.

pub mod clock;
pub mod evaluator;
pub mod tick;

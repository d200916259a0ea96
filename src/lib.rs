//! A market-making quoting engine for a central-limit order book: it turns a
//! fair price into a bid and an ask, applies a price-improvement rule against
//! the best prices of other traders, and diffs the result against the tracked
//! resting orders so that only the orders that changed are cancelled and placed.
use vstd::prelude::*;

pub mod book;
pub mod engine;
pub mod laws;
pub mod network;
pub mod policy;
pub mod price_math;
pub mod strategy;

pub use book::{get_best_bid_and_ask, OrderBook, OrderId, RestingOrder, Side};
pub use engine::{confirm_placements, initialize, load_header, update_quotes};
pub use network::get_network;
pub use policy::{apply_price_improvement, parse_price_improvement_behavior, PriceImprovementBehavior};
pub use price_math::{get_ask_price, get_bid_price};
pub use strategy::{
    CancelOrder, Clock, Initialize, MarketAccount, MarketHeader, NewOrder, OrderParams,
    PhoenixStrategyState, PlacementReport, Pubkey, QuotePlan, Quotes, StrategyError,
    StrategyParams, UpdateQuotes,
};

verus! {

/// Marker for the venue's program, which owns the market accounts.
#[derive(Debug, Clone, Copy)]
pub struct PhoenixV1;

/// What a faucet hands out, and where.
#[derive(Debug, Clone, Copy)]
pub struct FaucetMetadata {
    pub spec_pubkey: Pubkey,
    pub faucet_pubkey: Pubkey,
    pub difficulty: u8,
    pub amount: u64,
}

impl Default for FaucetMetadata {
    fn default() -> (r: Self)
        ensures
            r.spec_pubkey.bytes@ == Seq::new(32, |i: int| 0u8),
            r.faucet_pubkey.bytes@ == Seq::new(32, |i: int| 0u8),
            r.difficulty == 0,
            r.amount == 0,
    {
        let r = FaucetMetadata {
            spec_pubkey: Pubkey { bytes: [0u8; 32] },
            faucet_pubkey: Pubkey { bytes: [0u8; 32] },
            difficulty: 0,
            amount: 0,
        };
        assert(r.spec_pubkey.bytes@ =~= Seq::new(32, |i: int| 0u8));
        assert(r.faucet_pubkey.bytes@ =~= Seq::new(32, |i: int| 0u8));
        r
    }
}

} // verus!

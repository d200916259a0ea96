use vstd::prelude::*;

use crate::book::{side_from_order_sequence_number, side_of_sequence, OrderBook, OrderId, Side};
use crate::policy::{behavior_of_code, PriceImprovementBehavior};

verus! {

/// The discriminant that opens every venue market account.
pub const PHOENIX_MARKET_DISCRIMINANT: u64 = 8167313896524341111;

#[derive(Debug, Clone, Copy, PartialEq, Eq, Structural)]
pub enum StrategyError {
    /// A parameter that initialization requires is missing.
    InvalidStrategyParams,
    /// The quote edge is zero.
    EdgeMustBeNonZero,
    /// The market account is not owned by the venue, or its discriminant is wrong.
    InvalidPhoenixProgram,
    /// The market account's bytes do not parse.
    FailedToDeserializePhoenixMarket,
    /// A price would be zero, a divisor would be zero, or an amount would not fit in 64 bits.
    ArithmeticGuard,
}

/// A 32-byte account address.
#[derive(Debug, Clone, Copy, PartialEq, Eq)]
pub struct Pubkey {
    pub bytes: [u8; 32],
}

/// A logical timestamp: the slot and the wall-clock time.
#[derive(Debug, Clone, Copy, PartialEq, Eq, Structural)]
pub struct Clock {
    pub slot: u64,
    pub unix_timestamp: i64,
}

/// The fields of the venue's market header that the strategy reads.
#[derive(Debug, Clone, Copy, PartialEq, Eq, Structural)]
pub struct MarketHeader {
    pub discriminant: u64,
    pub raw_base_units_per_base_unit: u32,
    pub tick_size_in_quote_atoms_per_base_unit: u64,
    pub quote_lot_size: u64,
}

/// What the host read of the market account.
#[derive(Debug, Clone)]
pub struct MarketAccount {
    pub key: Pubkey,
    /// Whether the venue's program owns the account.
    pub owned_by_phoenix: bool,
    /// The header, or `None` when its bytes do not parse.
    pub header: Option<MarketHeader>,
    /// The book, or `None` when the market body does not load.
    pub book: Option<OrderBook>,
}

/// The strategy's persisted record for one (trader, market) pair.
#[derive(Debug, Clone, Copy)]
pub struct PhoenixStrategyState {
    pub trader: Pubkey,
    pub market: Pubkey,
    pub bid_order_sequence_number: u64,
    pub bid_price_in_ticks: u64,
    pub initial_bid_size_in_base_lots: u64,
    pub ask_order_sequence_number: u64,
    pub ask_price_in_ticks: u64,
    pub initial_ask_size_in_base_lots: u64,
    pub last_update_slot: u64,
    pub last_update_unix_timestamp: i64,
    /// Number of basis points between quoted price and fair price.
    pub quote_edge_in_bps: u64,
    /// Order notional size in quote atoms.
    pub quote_size_in_quote_atoms: u64,
    /// If set, the orders never cross the spread.
    pub post_only: bool,
    /// Code of the price-improvement behavior.
    pub price_improvement_behavior: u8,
}

/// Strategy parameters; on update, an absent field keeps the stored value.
#[derive(Debug, Clone, Copy, PartialEq, Eq, Structural)]
pub struct StrategyParams {
    pub quote_edge_in_bps: Option<u64>,
    pub quote_size_in_quote_atoms: Option<u64>,
    pub price_improvement_behavior: Option<PriceImprovementBehavior>,
    pub post_only: bool,
}

#[derive(Debug, Clone, Copy, PartialEq, Eq, Structural)]
pub struct OrderParams {
    pub fair_price_in_quote_atoms_per_raw_base_unit: u64,
    pub strategy_params: StrategyParams,
}

/// The accounts and clock of an initialization.
#[derive(Debug, Clone)]
pub struct Initialize {
    pub user: Pubkey,
    pub market: MarketAccount,
    pub clock: Clock,
}

/// The accounts and clock of a quote update.
#[derive(Debug, Clone)]
pub struct UpdateQuotes {
    pub user: Pubkey,
    pub market: MarketAccount,
    pub clock: Clock,
}

/// Target prices in ticks and sizes in base lots for both sides.
#[derive(Debug, Clone, Copy, PartialEq, Eq, Structural)]
pub struct Quotes {
    pub bid_price_in_ticks: u64,
    pub bid_size_in_base_lots: u64,
    pub ask_price_in_ticks: u64,
    pub ask_size_in_base_lots: u64,
}

/// The decisions of one reconciliation pass, for the host to carry out:
/// first the cancels, then the placements.
#[derive(Debug, Clone, Copy, PartialEq, Eq, Structural)]
pub struct QuotePlan {
    pub quotes: Quotes,
    /// The tracked bid and ask when the pass began.
    pub bid_id: OrderId,
    pub ask_id: OrderId,
    pub cancel_bid: bool,
    pub cancel_ask: bool,
    pub place_bid: bool,
    pub place_ask: bool,
    /// Place all new orders in one all-or-nothing request.
    pub atomic: bool,
    /// The venue's raw sequence counter when the pass read the book.
    pub sequence_number: u64,
}

/// An order to cancel.
#[derive(Debug, Clone, Copy, PartialEq, Eq, Structural)]
pub struct CancelOrder {
    pub side: Side,
    pub price_in_ticks: u64,
    pub order_sequence_number: u64,
}

/// An order to place.
#[derive(Debug, Clone, Copy, PartialEq, Eq, Structural)]
pub struct NewOrder {
    pub side: Side,
    pub price_in_ticks: u64,
    pub num_base_lots: u64,
}

/// Which placements were found live on the re-read book.
#[derive(Debug, Clone, Copy, PartialEq, Eq, Structural)]
pub struct PlacementReport {
    pub bid_confirmed: bool,
    pub ask_confirmed: bool,
}

impl PhoenixStrategyState {
    pub open spec fn wf(&self) -> bool {
        &&& self.quote_edge_in_bps > 0
        &&& self.price_improvement_behavior < 3
        &&& self.initial_bid_size_in_base_lots > 0 ==> self.bid_price_in_ticks > 0
        &&& self.initial_ask_size_in_base_lots > 0 ==> self.ask_price_in_ticks > 0
    }

    pub open spec fn behavior(&self) -> PriceImprovementBehavior {
        behavior_of_code(self.price_improvement_behavior)
    }

    pub open spec fn tracked_bid(&self) -> OrderId {
        OrderId { price_in_ticks: self.bid_price_in_ticks, order_sequence_number: self.bid_order_sequence_number }
    }

    pub open spec fn tracked_ask(&self) -> OrderId {
        OrderId { price_in_ticks: self.ask_price_in_ticks, order_sequence_number: self.ask_order_sequence_number }
    }
}

impl QuotePlan {
    pub open spec fn wf(&self) -> bool {
        self.quotes.bid_price_in_ticks > 0 && self.quotes.ask_price_in_ticks > 0
    }

    pub open spec fn spec_has_actions(&self) -> bool {
        self.cancel_bid || self.cancel_ask || self.place_bid || self.place_ask
    }

    /// Whether the pass asks for any cancel or placement.
    pub fn has_actions(&self) -> (r: bool)
        ensures
            r == self.spec_has_actions(),
    {
        self.cancel_bid || self.cancel_ask || self.place_bid || self.place_ask
    }

    pub open spec fn spec_cancel_orders(&self) -> Seq<CancelOrder> {
        let bid = CancelOrder {
            side: side_of_sequence(self.bid_id.order_sequence_number),
            price_in_ticks: self.bid_id.price_in_ticks,
            order_sequence_number: self.bid_id.order_sequence_number,
        };
        let ask = CancelOrder {
            side: side_of_sequence(self.ask_id.order_sequence_number),
            price_in_ticks: self.ask_id.price_in_ticks,
            order_sequence_number: self.ask_id.order_sequence_number,
        };
        let bids = if self.cancel_bid { seq![bid] } else { Seq::empty() };
        let asks = if self.cancel_ask { seq![ask] } else { Seq::empty() };
        bids + asks
    }

    /// The batch of cancels, bid first; each side is read from its sequence number.
    pub fn cancel_orders(&self) -> (r: Vec<CancelOrder>)
        ensures
            r@ == self.spec_cancel_orders(),
    {
        let mut r: Vec<CancelOrder> = Vec::new();
        if self.cancel_bid {
            r.push(CancelOrder {
                side: side_from_order_sequence_number(self.bid_id.order_sequence_number),
                price_in_ticks: self.bid_id.price_in_ticks,
                order_sequence_number: self.bid_id.order_sequence_number,
            });
        }
        if self.cancel_ask {
            r.push(CancelOrder {
                side: side_from_order_sequence_number(self.ask_id.order_sequence_number),
                price_in_ticks: self.ask_id.price_in_ticks,
                order_sequence_number: self.ask_id.order_sequence_number,
            });
        }
        assert(r@ =~= self.spec_cancel_orders());
        r
    }

    pub open spec fn spec_new_orders(&self) -> Seq<NewOrder> {
        let bid = NewOrder {
            side: Side::Bid,
            price_in_ticks: self.quotes.bid_price_in_ticks,
            num_base_lots: self.quotes.bid_size_in_base_lots,
        };
        let ask = NewOrder {
            side: Side::Ask,
            price_in_ticks: self.quotes.ask_price_in_ticks,
            num_base_lots: self.quotes.ask_size_in_base_lots,
        };
        let bids = if self.place_bid { seq![bid] } else { Seq::empty() };
        let asks = if self.place_ask { seq![ask] } else { Seq::empty() };
        bids + asks
    }

    /// The orders to place, bid first.
    pub fn new_orders(&self) -> (r: Vec<NewOrder>)
        ensures
            r@ == self.spec_new_orders(),
    {
        let mut r: Vec<NewOrder> = Vec::new();
        if self.place_bid {
            r.push(NewOrder {
                side: Side::Bid,
                price_in_ticks: self.quotes.bid_price_in_ticks,
                num_base_lots: self.quotes.bid_size_in_base_lots,
            });
        }
        if self.place_ask {
            r.push(NewOrder {
                side: Side::Ask,
                price_in_ticks: self.quotes.ask_price_in_ticks,
                num_base_lots: self.quotes.ask_size_in_base_lots,
            });
        }
        assert(r@ =~= self.spec_new_orders());
        r
    }
}

} // verus!

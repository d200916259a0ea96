use vstd::prelude::*;

use crate::book::{best_other_prices, first_other_price, OrderBook, OrderId, Side};
use crate::policy::{apply_price_improvement, behavior_code, improved_prices, PriceImprovementBehavior};
use crate::price_math::{
    ask_of, bid_of, fair_ticks_of, fits_u64, order_size_defined, order_size_in_base_lots,
    order_size_of, quote_prices, quote_prices_defined,
};
use crate::strategy::{
    Clock, Initialize, MarketAccount, MarketHeader, OrderParams, PhoenixStrategyState,
    PlacementReport, QuotePlan, Quotes, StrategyError, StrategyParams, UpdateQuotes,
    PHOENIX_MARKET_DISCRIMINANT,
};

verus! {

/// The header of a market account, or why it is refused.
pub open spec fn header_result(market: MarketAccount) -> Result<MarketHeader, StrategyError> {
    if !market.owned_by_phoenix {
        Err(StrategyError::InvalidPhoenixProgram)
    } else {
        match market.header {
            None => Err(StrategyError::FailedToDeserializePhoenixMarket),
            Some(h) => if h.discriminant != PHOENIX_MARKET_DISCRIMINANT {
                Err(StrategyError::InvalidPhoenixProgram)
            } else {
                Ok(h)
            },
        }
    }
}

/// Checks that the market account belongs to the venue and reads its header.
pub fn load_header(market: &MarketAccount) -> (r: Result<MarketHeader, StrategyError>)
    ensures
        r == header_result(*market),
{
    if !market.owned_by_phoenix {
        return Err(StrategyError::InvalidPhoenixProgram);
    }
    match market.header {
        None => Err(StrategyError::FailedToDeserializePhoenixMarket),
        Some(h) => {
            if h.discriminant != PHOENIX_MARKET_DISCRIMINANT {
                Err(StrategyError::InvalidPhoenixProgram)
            } else {
                Ok(h)
            }
        },
    }
}

/// The record that initialization creates: no tracked orders, the supplied parameters.
pub open spec fn initial_state(ctx: Initialize, params: StrategyParams) -> PhoenixStrategyState {
    PhoenixStrategyState {
        trader: ctx.user,
        market: ctx.market.key,
        bid_order_sequence_number: 0,
        bid_price_in_ticks: 0,
        initial_bid_size_in_base_lots: 0,
        ask_order_sequence_number: 0,
        ask_price_in_ticks: 0,
        initial_ask_size_in_base_lots: 0,
        last_update_slot: ctx.clock.slot,
        last_update_unix_timestamp: ctx.clock.unix_timestamp,
        quote_edge_in_bps: params.quote_edge_in_bps->Some_0,
        quote_size_in_quote_atoms: params.quote_size_in_quote_atoms->Some_0,
        post_only: params.post_only,
        price_improvement_behavior: behavior_code(params.price_improvement_behavior->Some_0),
    }
}

pub open spec fn initialize_result(ctx: Initialize, params: StrategyParams) -> Result<PhoenixStrategyState, StrategyError> {
    if params.quote_edge_in_bps is None || params.quote_size_in_quote_atoms is None
        || params.price_improvement_behavior is None {
        Err(StrategyError::InvalidStrategyParams)
    } else if params.quote_edge_in_bps->Some_0 == 0 {
        Err(StrategyError::EdgeMustBeNonZero)
    } else {
        match header_result(ctx.market) {
            Err(e) => Err(e),
            Ok(_) => Ok(initial_state(ctx, params)),
        }
    }
}

/// Creates the strategy record; all three of edge, size and behavior are required.
pub fn initialize(ctx: &Initialize, params: StrategyParams) -> (r: Result<PhoenixStrategyState, StrategyError>)
    ensures
        r == initialize_result(*ctx, params),
        r matches Ok(s) ==> s.wf(),
{
    let (edge, size, behavior) = match (
        params.quote_edge_in_bps,
        params.quote_size_in_quote_atoms,
        params.price_improvement_behavior,
    ) {
        (Some(e), Some(s), Some(b)) => (e, s, b),
        _ => return Err(StrategyError::InvalidStrategyParams),
    };
    if edge == 0 {
        return Err(StrategyError::EdgeMustBeNonZero);
    }
    match load_header(&ctx.market) {
        Err(e) => return Err(e),
        Ok(_) => {},
    }
    Ok(PhoenixStrategyState {
        trader: ctx.user,
        market: ctx.market.key,
        bid_order_sequence_number: 0,
        bid_price_in_ticks: 0,
        initial_bid_size_in_base_lots: 0,
        ask_order_sequence_number: 0,
        ask_price_in_ticks: 0,
        initial_ask_size_in_base_lots: 0,
        last_update_slot: ctx.clock.slot,
        last_update_unix_timestamp: ctx.clock.unix_timestamp,
        quote_edge_in_bps: edge,
        quote_size_in_quote_atoms: size,
        post_only: params.post_only,
        price_improvement_behavior: behavior.to_u8(),
    })
}

/// The record with the new timestamps and the supplied parameters merged in:
/// an absent field, or an edge of zero, keeps the stored value.
pub open spec fn merged_state(s: PhoenixStrategyState, p: StrategyParams, clock: Clock) -> PhoenixStrategyState {
    PhoenixStrategyState {
        last_update_slot: clock.slot,
        last_update_unix_timestamp: clock.unix_timestamp,
        quote_edge_in_bps: match p.quote_edge_in_bps {
            Some(e) => if e > 0 { e } else { s.quote_edge_in_bps },
            None => s.quote_edge_in_bps,
        },
        quote_size_in_quote_atoms: match p.quote_size_in_quote_atoms {
            Some(q) => q,
            None => s.quote_size_in_quote_atoms,
        },
        post_only: p.post_only,
        price_improvement_behavior: match p.price_improvement_behavior {
            Some(b) => behavior_code(b),
            None => s.price_improvement_behavior,
        },
        ..s
    }
}

/// Merges the supplied parameters and the new timestamps into the record.
pub fn merge_params(s: &mut PhoenixStrategyState, p: StrategyParams, clock: Clock)
    requires
        old(s).wf(),
    ensures
        *final(s) == merged_state(*old(s), p, clock),
        final(s).wf(),
{
    s.last_update_slot = clock.slot;
    s.last_update_unix_timestamp = clock.unix_timestamp;
    if let Some(edge) = p.quote_edge_in_bps {
        if edge > 0 {
            s.quote_edge_in_bps = edge;
        }
    }
    if let Some(size) = p.quote_size_in_quote_atoms {
        s.quote_size_in_quote_atoms = size;
    }
    s.post_only = p.post_only;
    if let Some(b) = p.price_improvement_behavior {
        s.price_improvement_behavior = b.to_u8();
    }
}

/// The target quotes for a fair price, or `None` when the arithmetic guard trips.
pub open spec fn target_quotes(fair: u64, h: MarketHeader, book: OrderBook, s: PhoenixStrategyState) -> Option<Quotes> {
    let raw = h.raw_base_units_per_base_unit as int;
    let tick = h.tick_size_in_quote_atoms_per_base_unit as int;
    let edge = s.quote_edge_in_bps as int;
    let ft = fair_ticks_of(fair as int, raw, tick);
    let trader = book.spec_trader_index();
    let improved = improved_prices(
        s.behavior(),
        bid_of(ft, edge),
        ask_of(ft, edge),
        first_other_price(book.bids@, trader),
        first_other_price(book.asks@, trader),
    );
    let lots = s.quote_size_in_quote_atoms as int * h.quote_lot_size as int;
    let lot_tick = book.tick_size_in_quote_lots_per_base_unit as int;
    if !quote_prices_defined(fair as int, raw, tick, edge) || !fits_u64(lots)
        || !order_size_defined(lots, improved.0, lot_tick)
        || !order_size_defined(lots, improved.1, lot_tick) {
        None
    } else {
        Some(Quotes {
            bid_price_in_ticks: improved.0 as u64,
            bid_size_in_base_lots: order_size_of(lots, improved.0, lot_tick) as u64,
            ask_price_in_ticks: improved.1 as u64,
            ask_size_in_base_lots: order_size_of(lots, improved.1, lot_tick) as u64,
        })
    }
}

/// Whether a tracked order is live at exactly the target price and size.
pub open spec fn side_unchanged(live: Option<u64>, tracked_price: u64, price: u64, size: u64) -> bool {
    live == Some(size) && tracked_price == price
}

/// The plan that the diff of the tracked orders against the targets gives.
pub open spec fn plan_of(s: PhoenixStrategyState, q: Quotes, book: OrderBook) -> QuotePlan {
    let bid_live = book.spec_lookup(Side::Bid, s.tracked_bid());
    let ask_live = book.spec_lookup(Side::Ask, s.tracked_ask());
    let bid_same = side_unchanged(bid_live, s.bid_price_in_ticks, q.bid_price_in_ticks, q.bid_size_in_base_lots);
    let ask_same = side_unchanged(ask_live, s.ask_price_in_ticks, q.ask_price_in_ticks, q.ask_size_in_base_lots);
    QuotePlan {
        quotes: q,
        bid_id: s.tracked_bid(),
        ask_id: s.tracked_ask(),
        cancel_bid: bid_live is Some && !bid_same,
        cancel_ask: ask_live is Some && !ask_same,
        place_bid: !bid_same,
        place_ask: !ask_same,
        atomic: s.post_only || s.behavior() != PriceImprovementBehavior::Join,
        sequence_number: book.sequence_number,
    }
}

/// The outcome of one quote update on a record.
pub open spec fn update_result(s: PhoenixStrategyState, ctx: UpdateQuotes, params: OrderParams) -> Result<QuotePlan, StrategyError> {
    let next = merged_state(s, params.strategy_params, ctx.clock);
    match header_result(ctx.market) {
        Err(e) => Err(e),
        Ok(h) => match ctx.market.book {
            None => Err(StrategyError::FailedToDeserializePhoenixMarket),
            Some(book) => match target_quotes(params.fair_price_in_quote_atoms_per_raw_base_unit, h, book, next) {
                None => Err(StrategyError::ArithmeticGuard),
                Some(q) => Ok(plan_of(next, q, book)),
            },
        },
    }
}

/// Computes the target quotes: edge-derived prices, price improvement, then sizes.
pub fn compute_quotes(fair: u64, h: &MarketHeader, book: &OrderBook, s: &PhoenixStrategyState) -> (r: Option<Quotes>)
    requires
        s.wf(),
        book.wf(),
    ensures
        r == target_quotes(fair, *h, *book, *s),
        r matches Some(q) ==> q.bid_price_in_ticks > 0 && q.ask_price_in_ticks > 0,
{
    let lots = match s.quote_size_in_quote_atoms.checked_mul(h.quote_lot_size) {
        Some(l) => l,
        None => return None,
    };
    let (bid, ask) = match quote_prices(
        fair,
        h.raw_base_units_per_base_unit,
        h.tick_size_in_quote_atoms_per_base_unit,
        s.quote_edge_in_bps,
    ) {
        Some(p) => p,
        None => return None,
    };
    let trader = book.get_trader_index();
    let (best_bid, best_ask) = best_other_prices(book, trader);
    let behavior = PriceImprovementBehavior::from_u8(s.price_improvement_behavior);
    let (bid, ask) = apply_price_improvement(behavior, bid, ask, best_bid, best_ask);
    let bid_size = match order_size_in_base_lots(lots, bid, book.tick_size_in_quote_lots_per_base_unit) {
        Some(z) => z,
        None => return None,
    };
    let ask_size = match order_size_in_base_lots(lots, ask, book.tick_size_in_quote_lots_per_base_unit) {
        Some(z) => z,
        None => return None,
    };
    proof {
        assert(bid > 0) by (nonlinear_arith)
            requires bid * book.tick_size_in_quote_lots_per_base_unit > 0;
        assert(ask > 0) by (nonlinear_arith)
            requires ask * book.tick_size_in_quote_lots_per_base_unit > 0;
    }
    Some(Quotes {
        bid_price_in_ticks: bid,
        bid_size_in_base_lots: bid_size,
        ask_price_in_ticks: ask,
        ask_size_in_base_lots: ask_size,
    })
}

/// Compares the tracked orders with the targets and decides the cancels and placements.
pub fn diff_orders(s: &PhoenixStrategyState, q: Quotes, book: &OrderBook) -> (r: QuotePlan)
    requires
        s.wf(),
    ensures
        r == plan_of(*s, q, *book),
{
    let bid_id = OrderId { price_in_ticks: s.bid_price_in_ticks, order_sequence_number: s.bid_order_sequence_number };
    let ask_id = OrderId { price_in_ticks: s.ask_price_in_ticks, order_sequence_number: s.ask_order_sequence_number };
    let bid_live = book.lookup_order(Side::Bid, bid_id);
    let ask_live = book.lookup_order(Side::Ask, ask_id);
    let bid_same = match bid_live {
        Some(lots) => lots == q.bid_size_in_base_lots && s.bid_price_in_ticks == q.bid_price_in_ticks,
        None => false,
    };
    let ask_same = match ask_live {
        Some(lots) => lots == q.ask_size_in_base_lots && s.ask_price_in_ticks == q.ask_price_in_ticks,
        None => false,
    };
    let behavior = PriceImprovementBehavior::from_u8(s.price_improvement_behavior);
    QuotePlan {
        quotes: q,
        bid_id,
        ask_id,
        cancel_bid: bid_live.is_some() && !bid_same,
        cancel_ask: ask_live.is_some() && !ask_same,
        place_bid: !bid_same,
        place_ask: !ask_same,
        atomic: s.post_only || behavior != PriceImprovementBehavior::Join,
        sequence_number: book.sequence_number,
    }
}

/// Runs the deciding half of one reconciliation pass: merges the parameters and
/// timestamps, reads the market, computes the targets and diffs them against the
/// tracked orders. On an error the record is left as it was.
pub fn update_quotes(ctx: &UpdateQuotes, state: &mut PhoenixStrategyState, params: OrderParams) -> (r: Result<QuotePlan, StrategyError>)
    requires
        old(state).wf(),
        ctx.market.book matches Some(b) ==> b.wf(),
    ensures
        r == update_result(*old(state), *ctx, params),
        r is Ok ==> *final(state) == merged_state(*old(state), params.strategy_params, ctx.clock),
        r is Err ==> *final(state) == *old(state),
        final(state).wf(),
        r matches Ok(p) ==> p.wf(),
{
    let mut next = *state;
    merge_params(&mut next, params.strategy_params, ctx.clock);
    let header = match load_header(&ctx.market) {
        Ok(h) => h,
        Err(e) => return Err(e),
    };
    let book = match &ctx.market.book {
        Some(b) => b,
        None => return Err(StrategyError::FailedToDeserializePhoenixMarket),
    };
    let quotes = match compute_quotes(params.fair_price_in_quote_atoms_per_raw_base_unit, &header, book, &next) {
        Some(q) => q,
        None => return Err(StrategyError::ArithmeticGuard),
    };
    let plan = diff_orders(&next, quotes, book);
    *state = next;
    Ok(plan)
}

/// The counter after one order has taken a number.
pub open spec fn next_sequence(seq: u64) -> u64 {
    if seq == u64::MAX { 0 } else { (seq + 1) as u64 }
}

/// The identity that a newly placed bid takes: the complement of the raw counter.
pub open spec fn predicted_bid(plan: QuotePlan) -> OrderId {
    OrderId { price_in_ticks: plan.quotes.bid_price_in_ticks, order_sequence_number: !plan.sequence_number }
}

pub open spec fn bid_confirmed(plan: QuotePlan, book: OrderBook) -> bool {
    plan.place_bid && book.spec_lookup(Side::Bid, predicted_bid(plan)) is Some
}

/// The identity that a newly placed ask takes: the raw counter, advanced past a confirmed bid.
pub open spec fn predicted_ask(plan: QuotePlan, book: OrderBook) -> OrderId {
    OrderId {
        price_in_ticks: plan.quotes.ask_price_in_ticks,
        order_sequence_number: if bid_confirmed(plan, book) {
            next_sequence(plan.sequence_number)
        } else {
            plan.sequence_number
        },
    }
}

pub open spec fn ask_confirmed(plan: QuotePlan, book: OrderBook) -> bool {
    plan.place_ask && book.spec_lookup(Side::Ask, predicted_ask(plan, book)) is Some
}

/// The record after the placed orders that the re-read book shows have been recorded.
pub open spec fn confirmed_state(s: PhoenixStrategyState, plan: QuotePlan, book: OrderBook) -> PhoenixStrategyState {
    let bid = predicted_bid(plan);
    let ask = predicted_ask(plan, book);
    let s1 = if bid_confirmed(plan, book) {
        PhoenixStrategyState {
            bid_price_in_ticks: bid.price_in_ticks,
            bid_order_sequence_number: bid.order_sequence_number,
            initial_bid_size_in_base_lots: book.spec_lookup(Side::Bid, bid)->Some_0,
            ..s
        }
    } else {
        s
    };
    if ask_confirmed(plan, book) {
        PhoenixStrategyState {
            ask_price_in_ticks: ask.price_in_ticks,
            ask_order_sequence_number: ask.order_sequence_number,
            initial_ask_size_in_base_lots: book.spec_lookup(Side::Ask, ask)->Some_0,
            ..s1
        }
    } else {
        s1
    }
}

pub open spec fn confirm_result(s: PhoenixStrategyState, plan: QuotePlan, market: MarketAccount) -> Result<(PhoenixStrategyState, PlacementReport), StrategyError> {
    if !plan.place_bid && !plan.place_ask {
        Ok((s, PlacementReport { bid_confirmed: false, ask_confirmed: false }))
    } else {
        match market.book {
            None => Err(StrategyError::FailedToDeserializePhoenixMarket),
            Some(book) => Ok((
                confirmed_state(s, plan, book),
                PlacementReport { bid_confirmed: bid_confirmed(plan, book), ask_confirmed: ask_confirmed(plan, book) },
            )),
        }
    }
}

/// Runs the recording half of a pass, after the host has placed the new orders:
/// looks each placed order up by its predicted identity on the re-read market and
/// records what it finds. A placed order that is not found leaves its side as it was.
pub fn confirm_placements(state: &mut PhoenixStrategyState, plan: &QuotePlan, market: &MarketAccount) -> (r: Result<PlacementReport, StrategyError>)
    requires
        old(state).wf(),
        plan.wf(),
    ensures
        match confirm_result(*old(state), *plan, *market) {
            Ok((s, report)) => r == Ok::<PlacementReport, StrategyError>(report) && *final(state) == s,
            Err(e) => r == Err::<PlacementReport, StrategyError>(e) && *final(state) == *old(state),
        },
        final(state).wf(),
{
    if !plan.place_bid && !plan.place_ask {
        return Ok(PlacementReport { bid_confirmed: false, ask_confirmed: false });
    }
    let book = match &market.book {
        Some(b) => b,
        None => return Err(StrategyError::FailedToDeserializePhoenixMarket),
    };
    let mut sequence = plan.sequence_number;
    let mut report = PlacementReport { bid_confirmed: false, ask_confirmed: false };
    if plan.place_bid {
        let bid_id = OrderId { price_in_ticks: plan.quotes.bid_price_in_ticks, order_sequence_number: !sequence };
        if let Some(lots) = book.lookup_order(Side::Bid, bid_id) {
            state.bid_price_in_ticks = bid_id.price_in_ticks;
            state.bid_order_sequence_number = bid_id.order_sequence_number;
            state.initial_bid_size_in_base_lots = lots;
            sequence = if sequence == u64::MAX { 0 } else { sequence + 1 };
            report.bid_confirmed = true;
        }
    }
    if plan.place_ask {
        let ask_id = OrderId { price_in_ticks: plan.quotes.ask_price_in_ticks, order_sequence_number: sequence };
        if let Some(lots) = book.lookup_order(Side::Ask, ask_id) {
            state.ask_price_in_ticks = ask_id.price_in_ticks;
            state.ask_order_sequence_number = ask_id.order_sequence_number;
            state.initial_ask_size_in_base_lots = lots;
            report.ask_confirmed = true;
        }
    }
    Ok(report)
}

} // verus!

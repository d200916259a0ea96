use vstd::prelude::*;

use crate::book::{first_other_price, OrderBook, RestingOrder, Side};
use crate::engine::{
    ask_confirmed, bid_confirmed, confirmed_state, initialize_result, merged_state,
    predicted_ask, predicted_bid, target_quotes, update_result,
};
use crate::policy::{improved_prices, PriceImprovementBehavior};
use crate::price_math::{ask_of, bid_of, edge_ticks_of};
use crate::strategy::{
    Initialize, OrderParams, PhoenixStrategyState, QuotePlan, StrategyError, StrategyParams,
    UpdateQuotes,
};

verus! {

/// With a positive fair price, a positive edge and no price improvement, the bid
/// lies strictly below the fair price and the ask strictly above it, whenever the
/// edge amounts to at least one tick (`edge_bps * fair_ticks >= 10000`).
pub proof fn lemma_ignore_quotes_straddle_fair(fair_ticks: int, edge_bps: int, best_bid: Option<u64>, best_ask: Option<u64>)
    requires
        fair_ticks > 0,
        edge_bps > 0,
        edge_bps * fair_ticks >= 10_000,
    ensures
        ({
            let (b, a) = improved_prices(
                PriceImprovementBehavior::Ignore,
                bid_of(fair_ticks, edge_bps),
                ask_of(fair_ticks, edge_bps),
                best_bid,
                best_ask,
            );
            b < fair_ticks < a
        }),
{
    assert(edge_bps * fair_ticks / 10_000 >= 1) by (nonlinear_arith)
        requires edge_bps * fair_ticks >= 10_000;
}

/// A wider edge never raises the bid nor lowers the ask.
pub proof fn lemma_wider_edge_widens_quotes(fair_ticks: int, narrow_bps: int, wide_bps: int)
    requires
        fair_ticks >= 0,
        0 <= narrow_bps <= wide_bps,
    ensures
        bid_of(fair_ticks, wide_bps) <= bid_of(fair_ticks, narrow_bps),
        ask_of(fair_ticks, wide_bps) >= ask_of(fair_ticks, narrow_bps),
{
    assert(narrow_bps * fair_ticks <= wide_bps * fair_ticks) by (nonlinear_arith)
        requires fair_ticks >= 0, narrow_bps <= wide_bps;
    assert(edge_ticks_of(fair_ticks, narrow_bps) <= edge_ticks_of(fair_ticks, wide_bps)) by (nonlinear_arith)
        requires narrow_bps * fair_ticks <= wide_bps * fair_ticks;
}

/// Initialization with all parameters supplied and an edge of zero fails with
/// `EdgeMustBeNonZero`.
pub proof fn lemma_zero_edge_rejected(ctx: Initialize, params: StrategyParams)
    requires
        params.quote_edge_in_bps == Some(0u64),
        params.quote_size_in_quote_atoms is Some,
        params.price_improvement_behavior is Some,
    ensures
        initialize_result(ctx, params) == Err::<PhoenixStrategyState, StrategyError>(StrategyError::EdgeMustBeNonZero),
{
}

/// Each order that a pass records as confirmed is found on the re-read book, under
/// the identity and with the size that the record now holds.
pub proof fn lemma_confirmed_orders_resolve(s: PhoenixStrategyState, plan: QuotePlan, book: OrderBook)
    ensures
        ({
            let t = confirmed_state(s, plan, book);
            &&& bid_confirmed(plan, book) ==> {
                &&& t.tracked_bid() == predicted_bid(plan)
                &&& t.bid_price_in_ticks == plan.quotes.bid_price_in_ticks
                &&& book.spec_lookup(Side::Bid, t.tracked_bid()) == Some(t.initial_bid_size_in_base_lots)
            }
            &&& ask_confirmed(plan, book) ==> {
                &&& t.tracked_ask() == predicted_ask(plan, book)
                &&& t.ask_price_in_ticks == plan.quotes.ask_price_in_ticks
                &&& book.spec_lookup(Side::Ask, t.tracked_ask()) == Some(t.initial_ask_size_in_base_lots)
            }
        }),
{
}

/// The orders of other traders on one side, in book order.
pub open spec fn others(orders: Seq<RestingOrder>, trader_index: u64) -> Seq<RestingOrder> {
    orders.filter(other_than(trader_index))
}

pub open spec fn other_than(trader_index: u64) -> spec_fn(RestingOrder) -> bool {
    |o: RestingOrder| o.trader_index != trader_index
}

/// The first price of another trader depends only on the other traders' orders.
pub proof fn lemma_first_other_price_of_others(orders: Seq<RestingOrder>, trader_index: u64)
    ensures
        first_other_price(orders, trader_index) == first_other_price(others(orders, trader_index), trader_index),
    decreases orders.len(),
{
    if orders.len() > 0 {
        reveal(Seq::filter);
        let rest = orders.drop_last();
        lemma_first_other_price_of_others(rest, trader_index);
        let f = others(rest, trader_index);
        assert(orders.filter(other_than(trader_index)) == if orders.last().trader_index != trader_index {
            f.push(orders.last())
        } else {
            f
        });
        assert(f.push(orders.last()).drop_last() == f);
    }
}

/// Reconciling twice with the same fair price and parameters takes no action the
/// second time, when between the first read and the second the other traders'
/// orders stay as they were, each order that the first pass placed rests at its
/// full target size, and each order that it kept stays as it was. The second
/// pass leaves the tracked orders as the first pass recorded them.
pub proof fn lemma_second_pass_takes_no_action(
    s: PhoenixStrategyState,
    first: UpdateQuotes,
    second: UpdateQuotes,
    params: OrderParams,
)
    requires
        s.wf(),
        update_result(s, first, params) is Ok,
        second.market.owned_by_phoenix == first.market.owned_by_phoenix,
        second.market.header == first.market.header,
        second.market.book is Some,
        ({
            let b1 = first.market.book->Some_0;
            let b2 = second.market.book->Some_0;
            let t = b1.spec_trader_index();
            let p = update_result(s, first, params)->Ok_0;
            &&& b2.tick_size_in_quote_lots_per_base_unit == b1.tick_size_in_quote_lots_per_base_unit
            &&& b2.trader_index == b1.trader_index
            &&& others(b2.bids@, t) == others(b1.bids@, t)
            &&& others(b2.asks@, t) == others(b1.asks@, t)
            &&& p.place_bid ==> b2.spec_lookup(Side::Bid, predicted_bid(p)) == Some(p.quotes.bid_size_in_base_lots)
            &&& !p.place_bid ==> b2.spec_lookup(Side::Bid, p.bid_id) == b1.spec_lookup(Side::Bid, p.bid_id)
            &&& p.place_ask ==> b2.spec_lookup(Side::Ask, predicted_ask(p, b2)) == Some(p.quotes.ask_size_in_base_lots)
            &&& !p.place_ask ==> b2.spec_lookup(Side::Ask, p.ask_id) == b1.spec_lookup(Side::Ask, p.ask_id)
        }),
    ensures
        ({
            let p = update_result(s, first, params)->Ok_0;
            let s1 = merged_state(s, params.strategy_params, first.clock);
            let s2 = confirmed_state(s1, p, second.market.book->Some_0);
            let s3 = merged_state(s2, params.strategy_params, second.clock);
            &&& update_result(s2, second, params) matches Ok(p2) && !p2.spec_has_actions()
            &&& s3.tracked_bid() == s2.tracked_bid()
            &&& s3.tracked_ask() == s2.tracked_ask()
            &&& s3.initial_bid_size_in_base_lots == s2.initial_bid_size_in_base_lots
            &&& s3.initial_ask_size_in_base_lots == s2.initial_ask_size_in_base_lots
        }),
{
    let b1 = first.market.book->Some_0;
    let b2 = second.market.book->Some_0;
    let t = b1.spec_trader_index();
    lemma_first_other_price_of_others(b1.bids@, t);
    lemma_first_other_price_of_others(b2.bids@, t);
    lemma_first_other_price_of_others(b1.asks@, t);
    lemma_first_other_price_of_others(b2.asks@, t);
    let p = update_result(s, first, params)->Ok_0;
    let s1 = merged_state(s, params.strategy_params, first.clock);
    let s2 = confirmed_state(s1, p, b2);
    let n2 = merged_state(s2, params.strategy_params, second.clock);
    let h = first.market.header->Some_0;
    let fair = params.fair_price_in_quote_atoms_per_raw_base_unit;
    assert(target_quotes(fair, h, b2, n2) == target_quotes(fair, h, b1, s1));
}

/// A pass under `Join` quotes no better than the best prices of other traders on
/// the book that it read, and a side that no other trader quotes keeps its
/// edge-derived price.
pub proof fn lemma_join_pass_never_improves(s: PhoenixStrategyState, ctx: UpdateQuotes, params: OrderParams)
    requires
        update_result(s, ctx, params) is Ok,
        merged_state(s, params.strategy_params, ctx.clock).behavior() == PriceImprovementBehavior::Join,
    ensures
        ({
            let q = update_result(s, ctx, params)->Ok_0.quotes;
            let b = ctx.market.book->Some_0;
            let h = ctx.market.header->Some_0;
            let n = merged_state(s, params.strategy_params, ctx.clock);
            let ft = crate::price_math::fair_ticks_of(
                params.fair_price_in_quote_atoms_per_raw_base_unit as int,
                h.raw_base_units_per_base_unit as int,
                h.tick_size_in_quote_atoms_per_base_unit as int,
            );
            &&& first_other_price(b.asks@, b.spec_trader_index()) matches Some(p) ==> q.ask_price_in_ticks >= p
            &&& first_other_price(b.bids@, b.spec_trader_index()) matches Some(p) ==> q.bid_price_in_ticks <= p
            &&& first_other_price(b.asks@, b.spec_trader_index()) is None ==> q.ask_price_in_ticks == ask_of(ft, n.quote_edge_in_bps as int)
            &&& first_other_price(b.bids@, b.spec_trader_index()) is None ==> q.bid_price_in_ticks == bid_of(ft, n.quote_edge_in_bps as int)
        }),
{
}

/// A pass under `Dime` improves on the best prices of other traders on the book
/// that it read by at most one tick.
pub proof fn lemma_dime_pass_improves_by_at_most_one_tick(s: PhoenixStrategyState, ctx: UpdateQuotes, params: OrderParams)
    requires
        update_result(s, ctx, params) is Ok,
        merged_state(s, params.strategy_params, ctx.clock).behavior() == PriceImprovementBehavior::Dime,
    ensures
        ({
            let q = update_result(s, ctx, params)->Ok_0.quotes;
            let b = ctx.market.book->Some_0;
            &&& first_other_price(b.asks@, b.spec_trader_index()) matches Some(p) ==> q.ask_price_in_ticks >= p - 1
            &&& first_other_price(b.bids@, b.spec_trader_index()) matches Some(p) ==> q.bid_price_in_ticks <= p + 1
        }),
{
}

/// When the tracked ask is gone from the book (filled or cancelled elsewhere) and
/// the tracked bid rests at exactly its target, a pass cancels nothing and places
/// only a new ask.
pub proof fn lemma_gone_ask_is_replaced_alone(s: PhoenixStrategyState, ctx: UpdateQuotes, params: OrderParams)
    requires
        update_result(s, ctx, params) is Ok,
        ({
            let n = merged_state(s, params.strategy_params, ctx.clock);
            let q = update_result(s, ctx, params)->Ok_0.quotes;
            let b = ctx.market.book->Some_0;
            &&& b.spec_lookup(Side::Ask, n.tracked_ask()) is None
            &&& b.spec_lookup(Side::Bid, n.tracked_bid()) == Some(q.bid_size_in_base_lots)
            &&& n.bid_price_in_ticks == q.bid_price_in_ticks
        }),
    ensures
        ({
            let p = update_result(s, ctx, params)->Ok_0;
            &&& !p.cancel_bid && !p.cancel_ask
            &&& !p.place_bid && p.place_ask
            &&& p.spec_cancel_orders().len() == 0
            &&& p.spec_new_orders() == seq![crate::strategy::NewOrder {
                side: Side::Ask,
                price_in_ticks: p.quotes.ask_price_in_ticks,
                num_base_lots: p.quotes.ask_size_in_base_lots,
            }]
        }),
{
    let p = update_result(s, ctx, params)->Ok_0;
    assert(p.spec_new_orders() =~= seq![crate::strategy::NewOrder {
        side: Side::Ask,
        price_in_ticks: p.quotes.ask_price_in_ticks,
        num_base_lots: p.quotes.ask_size_in_base_lots,
    }]);
}

} // verus!

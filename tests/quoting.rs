use phoenix_onchain_mm::book::{side_from_order_sequence_number, RestingOrder};
use phoenix_onchain_mm::engine::merge_params;
use phoenix_onchain_mm::price_math::{fair_price_in_ticks, order_size_in_base_lots};
use phoenix_onchain_mm::strategy::PHOENIX_MARKET_DISCRIMINANT;
use phoenix_onchain_mm::{
    apply_price_improvement, confirm_placements, parse_price_improvement_behavior, get_ask_price, get_best_bid_and_ask,
    get_bid_price, get_network, initialize, load_header, update_quotes, Clock, Initialize,
    MarketAccount, MarketHeader, OrderBook, OrderId, OrderParams, PhoenixStrategyState,
    PriceImprovementBehavior, Pubkey, QuotePlan, Side, StrategyError, StrategyParams,
    UpdateQuotes,
};

const ME: u64 = 7;
const OTHER: u64 = 3;

fn header() -> MarketHeader {
    MarketHeader {
        discriminant: PHOENIX_MARKET_DISCRIMINANT,
        raw_base_units_per_base_unit: 1,
        tick_size_in_quote_atoms_per_base_unit: 10_000,
        quote_lot_size: 1,
    }
}

fn book(bids: Vec<RestingOrder>, asks: Vec<RestingOrder>, sequence_number: u64) -> OrderBook {
    OrderBook {
        tick_size_in_quote_lots_per_base_unit: 1,
        sequence_number,
        trader_index: Some(ME as u32),
        bids,
        asks,
    }
}

fn order(price: u64, seq: u64, trader: u64, lots: u64) -> RestingOrder {
    RestingOrder { price_in_ticks: price, order_sequence_number: seq, trader_index: trader, num_base_lots: lots }
}

fn market(b: OrderBook) -> MarketAccount {
    MarketAccount { key: Pubkey { bytes: [2u8; 32] }, owned_by_phoenix: true, header: Some(header()), book: Some(b) }
}

fn params(edge: Option<u64>, size: Option<u64>, behavior: Option<PriceImprovementBehavior>, post_only: bool) -> StrategyParams {
    StrategyParams {
        quote_edge_in_bps: edge,
        quote_size_in_quote_atoms: size,
        price_improvement_behavior: behavior,
        post_only,
    }
}

fn init_ctx(m: MarketAccount) -> Initialize {
    Initialize { user: Pubkey { bytes: [1u8; 32] }, market: m, clock: Clock { slot: 10, unix_timestamp: 1000 } }
}

fn update_ctx(b: OrderBook, slot: u64) -> UpdateQuotes {
    UpdateQuotes { user: Pubkey { bytes: [1u8; 32] }, market: market(b), clock: Clock { slot, unix_timestamp: 1000 + slot as i64 } }
}

fn fresh_state(behavior: PriceImprovementBehavior, post_only: bool) -> PhoenixStrategyState {
    initialize(&init_ctx(market(book(vec![], vec![], 5))), params(Some(3), Some(100_000_000), Some(behavior), post_only)).unwrap()
}

/// Applies a plan to a book as the venue would: cancels, then places the new orders at full size.
fn apply_plan(b: &OrderBook, plan: &QuotePlan) -> OrderBook {
    let mut bids: Vec<RestingOrder> = b.bids.clone();
    let mut asks: Vec<RestingOrder> = b.asks.clone();
    for c in plan.cancel_orders() {
        match c.side {
            Side::Bid => bids.retain(|o| !(o.price_in_ticks == c.price_in_ticks && o.order_sequence_number == c.order_sequence_number)),
            Side::Ask => asks.retain(|o| !(o.price_in_ticks == c.price_in_ticks && o.order_sequence_number == c.order_sequence_number)),
        }
    }
    let mut seq = b.sequence_number;
    for n in plan.new_orders() {
        match n.side {
            Side::Bid => bids.push(order(n.price_in_ticks, !seq, ME, n.num_base_lots)),
            Side::Ask => asks.push(order(n.price_in_ticks, seq, ME, n.num_base_lots)),
        }
        seq += 1;
    }
    bids.sort_by(|a, b| (b.price_in_ticks, b.order_sequence_number).cmp(&(a.price_in_ticks, a.order_sequence_number)));
    asks.sort_by(|a, b| (a.price_in_ticks, a.order_sequence_number).cmp(&(b.price_in_ticks, b.order_sequence_number)));
    book(bids, asks, seq)
}

fn order_params(fair: u64, p: StrategyParams) -> OrderParams {
    OrderParams { fair_price_in_quote_atoms_per_raw_base_unit: fair, strategy_params: p }
}

#[test]
fn worked_example_prices() {
    assert_eq!(fair_price_in_ticks(100_000_000, 1, 10_000), Some(10_000));
    assert_eq!(get_bid_price(100_000_000, 1, 10_000, 3), Some(9_997));
    assert_eq!(get_ask_price(100_000_000, 1, 10_000, 3), Some(10_003));
}

#[test]
fn fair_price_scales_by_raw_units_and_floors() {
    assert_eq!(fair_price_in_ticks(12_345, 1_000, 100), Some(123_450));
    assert_eq!(fair_price_in_ticks(99, 1, 10), Some(9));
    assert_eq!(fair_price_in_ticks(5, 1, 0), None);
    assert_eq!(fair_price_in_ticks(u64::MAX, 2, 1), None);
}

#[test]
fn ignore_straddles_fair_price() {
    let (bid, ask) = apply_price_improvement(PriceImprovementBehavior::Ignore, 9_997, 10_003, Some(9_999), Some(10_001));
    assert_eq!((bid, ask), (9_997, 10_003));
    assert!(bid < 10_000 && 10_000 < ask);
}

#[test]
fn small_edge_rounds_to_zero_ticks() {
    assert_eq!(get_bid_price(100, 1, 1, 3), Some(100));
    assert_eq!(get_ask_price(100, 1, 1, 3), Some(100));
}

#[test]
fn edge_above_one_whole_is_refused() {
    assert_eq!(get_bid_price(100_000_000, 1, 10_000, 20_000), None);
}

#[test]
fn join_clamps_to_best_prices() {
    assert_eq!(apply_price_improvement(PriceImprovementBehavior::Join, 9_997, 10_003, Some(9_995), Some(10_005)), (9_995, 10_005));
    assert_eq!(apply_price_improvement(PriceImprovementBehavior::Join, 9_990, 10_010, Some(9_995), Some(10_005)), (9_990, 10_010));
}

#[test]
fn dime_improves_by_one_tick_at_most() {
    assert_eq!(apply_price_improvement(PriceImprovementBehavior::Dime, 9_999, 10_001, Some(9_995), Some(10_005)), (9_996, 10_004));
    assert_eq!(apply_price_improvement(PriceImprovementBehavior::Dime, 9_990, 10_010, Some(9_995), Some(10_005)), (9_990, 10_010));
    assert_eq!(apply_price_improvement(PriceImprovementBehavior::Dime, 9_990, 10_010, None, None), (9_990, 10_010));
    assert_eq!(apply_price_improvement(PriceImprovementBehavior::Dime, 9_990, 10_010, Some(1), Some(u64::MAX)), (2, u64::MAX - 1));
}

#[test]
fn order_sizes_differ_by_side() {
    assert_eq!(order_size_in_base_lots(100_000_000, 9_997, 1), Some(10_003));
    assert_eq!(order_size_in_base_lots(100_000_000, 10_003, 1), Some(9_997));
    assert_eq!(order_size_in_base_lots(100, 0, 1), None);
    assert_eq!(order_size_in_base_lots(100, u64::MAX, 2), None);
}

#[test]
fn best_prices_skip_own_orders() {
    let b = book(
        vec![order(101, !1, ME, 5), order(100, !2, OTHER, 5)],
        vec![order(103, 3, ME, 5), order(104, 4, OTHER, 5)],
        9,
    );
    assert_eq!(get_best_bid_and_ask(&b, ME), (100, 104));
    let only_mine = book(vec![order(101, !1, ME, 5)], vec![order(103, 3, ME, 5)], 9);
    assert_eq!(get_best_bid_and_ask(&only_mine, ME), (1, u64::MAX));
}

#[test]
fn lookup_finds_by_price_and_sequence() {
    let b = book(vec![order(101, !1, ME, 5)], vec![order(103, 3, ME, 6)], 9);
    assert_eq!(b.lookup_order(Side::Bid, OrderId { price_in_ticks: 101, order_sequence_number: !1 }), Some(5));
    assert_eq!(b.lookup_order(Side::Bid, OrderId { price_in_ticks: 102, order_sequence_number: !1 }), None);
    assert_eq!(b.lookup_order(Side::Ask, OrderId { price_in_ticks: 103, order_sequence_number: 3 }), Some(6));
    assert_eq!(b.lookup_order(Side::Bid, OrderId { price_in_ticks: 103, order_sequence_number: 3 }), None);
}

#[test]
fn side_follows_sequence_number_top_bit() {
    assert_eq!(side_from_order_sequence_number(!5u64), Side::Bid);
    assert_eq!(side_from_order_sequence_number(5), Side::Ask);
    assert_eq!(side_from_order_sequence_number(1u64 << 63), Side::Bid);
}

#[test]
fn behavior_codes_round_trip() {
    for b in [PriceImprovementBehavior::Join, PriceImprovementBehavior::Dime, PriceImprovementBehavior::Ignore] {
        assert_eq!(PriceImprovementBehavior::from_u8(b.to_u8()), b);
    }
    assert_eq!(PriceImprovementBehavior::Dime.to_u8(), 1);
    assert_eq!(PriceImprovementBehavior::from_u8(2), PriceImprovementBehavior::Ignore);
}

#[test]
fn initialize_zeroes_orders_and_stores_params() {
    let s = fresh_state(PriceImprovementBehavior::Dime, true);
    assert_eq!(s.bid_price_in_ticks, 0);
    assert_eq!(s.initial_ask_size_in_base_lots, 0);
    assert_eq!(s.quote_edge_in_bps, 3);
    assert_eq!(s.quote_size_in_quote_atoms, 100_000_000);
    assert_eq!(s.price_improvement_behavior, 1);
    assert!(s.post_only);
    assert_eq!(s.last_update_slot, 10);
    assert_eq!(s.trader.bytes, [1u8; 32]);
}

#[test]
fn initialize_rejects_zero_edge() {
    let ctx = init_ctx(market(book(vec![], vec![], 0)));
    let r = initialize(&ctx, params(Some(0), Some(1), Some(PriceImprovementBehavior::Join), false));
    assert_eq!(r.err(), Some(StrategyError::EdgeMustBeNonZero));
}

#[test]
fn initialize_rejects_missing_params() {
    let ctx = init_ctx(market(book(vec![], vec![], 0)));
    let r = initialize(&ctx, params(Some(3), None, Some(PriceImprovementBehavior::Join), false));
    assert_eq!(r.err(), Some(StrategyError::InvalidStrategyParams));
    let r = initialize(&ctx, params(None, Some(1), Some(PriceImprovementBehavior::Join), false));
    assert_eq!(r.err(), Some(StrategyError::InvalidStrategyParams));
    let r = initialize(&ctx, params(Some(3), Some(1), None, false));
    assert_eq!(r.err(), Some(StrategyError::InvalidStrategyParams));
}

#[test]
fn market_checks_reject_foreign_accounts() {
    let mut m = market(book(vec![], vec![], 0));
    m.owned_by_phoenix = false;
    assert_eq!(load_header(&m).err(), Some(StrategyError::InvalidPhoenixProgram));
    let mut m = market(book(vec![], vec![], 0));
    m.header = None;
    assert_eq!(load_header(&m).err(), Some(StrategyError::FailedToDeserializePhoenixMarket));
    let mut m = market(book(vec![], vec![], 0));
    m.header = Some(MarketHeader { discriminant: 1, ..header() });
    assert_eq!(load_header(&m).err(), Some(StrategyError::InvalidPhoenixProgram));
    let ctx = init_ctx(m);
    let r = initialize(&ctx, params(Some(3), Some(1), Some(PriceImprovementBehavior::Join), false));
    assert_eq!(r.err(), Some(StrategyError::InvalidPhoenixProgram));
}

#[test]
fn update_rejects_unloadable_book_and_keeps_state() {
    let mut s = fresh_state(PriceImprovementBehavior::Join, false);
    let mut ctx = update_ctx(book(vec![], vec![], 5), 20);
    ctx.market.book = None;
    let r = update_quotes(&ctx, &mut s, order_params(100_000_000, params(Some(9), None, None, true)));
    assert_eq!(r.err(), Some(StrategyError::FailedToDeserializePhoenixMarket));
    assert_eq!(s.last_update_slot, 10);
    assert_eq!(s.quote_edge_in_bps, 3);
}

#[test]
fn update_guards_zero_price() {
    let mut s = fresh_state(PriceImprovementBehavior::Ignore, false);
    let ctx = update_ctx(book(vec![], vec![], 5), 20);
    let r = update_quotes(&ctx, &mut s, order_params(0, params(None, None, None, false)));
    assert_eq!(r.err(), Some(StrategyError::ArithmeticGuard));
    assert_eq!(s.last_update_slot, 10);
}

#[test]
fn update_merges_params_and_ignores_zero_edge() {
    let mut s = fresh_state(PriceImprovementBehavior::Join, true);
    merge_params(&mut s, params(Some(0), Some(5), Some(PriceImprovementBehavior::Ignore), false), Clock { slot: 30, unix_timestamp: 7 });
    assert_eq!(s.quote_edge_in_bps, 3);
    assert_eq!(s.quote_size_in_quote_atoms, 5);
    assert_eq!(s.price_improvement_behavior, 2);
    assert!(!s.post_only);
    assert_eq!(s.last_update_slot, 30);
    merge_params(&mut s, params(Some(8), None, None, true), Clock { slot: 31, unix_timestamp: 8 });
    assert_eq!(s.quote_edge_in_bps, 8);
    assert_eq!(s.quote_size_in_quote_atoms, 5);
    assert!(s.post_only);
}

#[test]
fn first_pass_places_both_sides() {
    let mut s = fresh_state(PriceImprovementBehavior::Ignore, false);
    let b0 = book(vec![order(9_000, !1, OTHER, 5)], vec![order(11_000, 2, OTHER, 5)], 5);
    let plan = update_quotes(&update_ctx(b0.clone(), 20), &mut s, order_params(100_000_000, params(None, None, None, false))).unwrap();
    assert_eq!(plan.quotes.bid_price_in_ticks, 9_997);
    assert_eq!(plan.quotes.ask_price_in_ticks, 10_003);
    assert_eq!(plan.quotes.bid_size_in_base_lots, 10_003);
    assert_eq!(plan.quotes.ask_size_in_base_lots, 9_997);
    assert!(plan.place_bid && plan.place_ask);
    assert!(plan.cancel_orders().is_empty());
    assert_eq!(plan.new_orders().len(), 2);
    assert!(plan.atomic);
    assert_eq!(s.last_update_slot, 20);
}

#[test]
fn join_without_post_only_places_one_by_one() {
    let mut s = fresh_state(PriceImprovementBehavior::Join, false);
    let b0 = book(vec![], vec![], 5);
    let plan = update_quotes(&update_ctx(b0, 20), &mut s, order_params(100_000_000, params(None, None, None, false))).unwrap();
    assert!(!plan.atomic);
    let mut s = fresh_state(PriceImprovementBehavior::Join, true);
    let plan = update_quotes(&update_ctx(book(vec![], vec![], 5), 20), &mut s, order_params(100_000_000, params(None, None, None, true))).unwrap();
    assert!(plan.atomic);
}

#[test]
fn join_pass_quotes_no_better_than_others() {
    let mut s = fresh_state(PriceImprovementBehavior::Join, false);
    let b0 = book(vec![order(9_990, !1, OTHER, 5)], vec![order(10_001, 2, OTHER, 5)], 5);
    let plan = update_quotes(&update_ctx(b0, 20), &mut s, order_params(100_000_000, params(None, None, None, false))).unwrap();
    assert_eq!(plan.quotes.bid_price_in_ticks, 9_990);
    assert_eq!(plan.quotes.ask_price_in_ticks, 10_003);
}

/// Runs one full pass against a simulated venue and returns the new book.
fn run_pass(s: &mut PhoenixStrategyState, b: &OrderBook, slot: u64) -> (QuotePlan, OrderBook) {
    let plan = update_quotes(&update_ctx(b.clone(), slot), s, order_params(100_000_000, params(None, None, None, false))).unwrap();
    let after = apply_plan(b, &plan);
    confirm_placements(s, &plan, &market(after.clone())).unwrap();
    (plan, after)
}

#[test]
fn confirmed_orders_round_trip() {
    let mut s = fresh_state(PriceImprovementBehavior::Ignore, false);
    let b0 = book(vec![], vec![], 5);
    let (plan, b1) = run_pass(&mut s, &b0, 20);
    assert_eq!(s.bid_order_sequence_number, !5u64);
    assert_eq!(s.ask_order_sequence_number, 6);
    assert_eq!(s.bid_price_in_ticks, plan.quotes.bid_price_in_ticks);
    let bid = OrderId { price_in_ticks: s.bid_price_in_ticks, order_sequence_number: s.bid_order_sequence_number };
    let ask = OrderId { price_in_ticks: s.ask_price_in_ticks, order_sequence_number: s.ask_order_sequence_number };
    assert_eq!(b1.lookup_order(Side::Bid, bid), Some(s.initial_bid_size_in_base_lots));
    assert_eq!(b1.lookup_order(Side::Ask, ask), Some(s.initial_ask_size_in_base_lots));
}

#[test]
fn second_pass_on_same_book_is_quiet() {
    let mut s = fresh_state(PriceImprovementBehavior::Ignore, false);
    let b0 = book(vec![order(9_000, !1, OTHER, 5)], vec![order(11_000, 2, OTHER, 5)], 5);
    let (_, b1) = run_pass(&mut s, &b0, 20);
    let plan = update_quotes(&update_ctx(b1, 21), &mut s, order_params(100_000_000, params(None, None, None, false))).unwrap();
    assert!(!plan.has_actions());
    assert!(plan.cancel_orders().is_empty());
    assert!(plan.new_orders().is_empty());
    assert_eq!(s.last_update_slot, 21);
}

#[test]
fn filled_ask_is_replaced_alone() {
    let mut s = fresh_state(PriceImprovementBehavior::Ignore, false);
    let b0 = book(vec![], vec![], 5);
    let (_, b1) = run_pass(&mut s, &b0, 20);
    let filled = book(b1.bids.clone(), vec![], b1.sequence_number);
    let plan = update_quotes(&update_ctx(filled, 21), &mut s, order_params(100_000_000, params(None, None, None, false))).unwrap();
    assert!(!plan.place_bid && plan.place_ask);
    assert!(plan.cancel_orders().is_empty());
    let placed = plan.new_orders();
    assert_eq!(placed.len(), 1);
    assert_eq!(placed[0].side, Side::Ask);
    assert_eq!(placed[0].price_in_ticks, 10_003);
}

#[test]
fn moved_fair_price_cancels_then_replaces() {
    let mut s = fresh_state(PriceImprovementBehavior::Ignore, false);
    let b0 = book(vec![], vec![], 5);
    let (_, b1) = run_pass(&mut s, &b0, 20);
    let plan = update_quotes(&update_ctx(b1, 21), &mut s, order_params(200_000_000, params(None, None, None, false))).unwrap();
    let cancels = plan.cancel_orders();
    assert_eq!(cancels.len(), 2);
    assert_eq!(cancels[0].side, Side::Bid);
    assert_eq!(cancels[0].order_sequence_number, !5u64);
    assert_eq!(cancels[1].side, Side::Ask);
    assert_eq!(plan.new_orders().len(), 2);
    assert_eq!(plan.quotes.bid_price_in_ticks, 19_994);
}

#[test]
fn unconfirmed_placement_leaves_side_stale() {
    let mut s = fresh_state(PriceImprovementBehavior::Ignore, false);
    let b0 = book(vec![], vec![], 5);
    let plan = update_quotes(&update_ctx(b0.clone(), 20), &mut s, order_params(100_000_000, params(None, None, None, false))).unwrap();
    let report = confirm_placements(&mut s, &plan, &market(b0)).unwrap();
    assert!(!report.bid_confirmed && !report.ask_confirmed);
    assert_eq!(s.bid_price_in_ticks, 0);
    assert_eq!(s.initial_ask_size_in_base_lots, 0);
    let mut gone = market(book(vec![], vec![], 5));
    gone.book = None;
    assert_eq!(confirm_placements(&mut s, &plan, &gone).err(), Some(StrategyError::FailedToDeserializePhoenixMarket));
}

#[test]
fn network_aliases_resolve() {
    assert_eq!(get_network("dev"), "https://api.devnet.solana.com");
    assert_eq!(get_network("mainnet-beta"), "https://api.mainnet-beta.solana.com");
    assert_eq!(get_network("l"), "http://localhost:8899");
    assert_eq!(get_network("https://example.org"), "https://example.org");
    assert_eq!(get_network(""), "");
}

#[test]
fn behavior_names_parse() {
    assert_eq!(parse_price_improvement_behavior("dime"), PriceImprovementBehavior::Dime);
    assert_eq!(parse_price_improvement_behavior("Ignore"), PriceImprovementBehavior::Ignore);
    assert_eq!(parse_price_improvement_behavior("join"), PriceImprovementBehavior::Join);
    assert_eq!(parse_price_improvement_behavior("DIME"), PriceImprovementBehavior::Join);
}

#[test]
fn dime_pass_improves_by_one_tick() {
    let mut s = fresh_state(PriceImprovementBehavior::Dime, false);
    let b0 = book(vec![order(9_999, !1, OTHER, 5)], vec![order(10_001, 2, OTHER, 5)], 5);
    let plan = update_quotes(&update_ctx(b0, 20), &mut s, order_params(100_000_000, params(None, None, None, false))).unwrap();
    assert_eq!(plan.quotes.bid_price_in_ticks, 9_997);
    assert_eq!(plan.quotes.ask_price_in_ticks, 10_003);
    let mut s = fresh_state(PriceImprovementBehavior::Dime, false);
    let b1 = book(vec![order(9_990, !1, OTHER, 5)], vec![order(10_010, 2, OTHER, 5)], 5);
    let plan = update_quotes(&update_ctx(b1, 20), &mut s, order_params(100_000_000, params(None, None, None, false))).unwrap();
    assert_eq!(plan.quotes.bid_price_in_ticks, 9_991);
    assert_eq!(plan.quotes.ask_price_in_ticks, 10_009);
    assert!(plan.atomic);
}

#[test]
fn update_guards_overflow() {
    let mut s = fresh_state(PriceImprovementBehavior::Ignore, false);
    let mut ctx = update_ctx(book(vec![], vec![], 5), 20);
    ctx.market.header = Some(MarketHeader { raw_base_units_per_base_unit: 1_000, tick_size_in_quote_atoms_per_base_unit: 1, ..header() });
    let r = update_quotes(&ctx, &mut s, order_params(u64::MAX / 10, params(None, None, None, false)));
    assert_eq!(r.err(), Some(StrategyError::ArithmeticGuard));
}

#[test]
fn each_price_fails_only_on_its_own_arithmetic() {
    assert_eq!(get_bid_price(u64::MAX, 1, 1, 1), Some(u64::MAX - u64::MAX / 10_000));
    assert_eq!(get_ask_price(u64::MAX, 1, 1, 1), None);
    assert_eq!(get_ask_price(1_000, 1, 1, 20_000), Some(3_000));
    assert_eq!(get_bid_price(1_000, 1, 1, 20_000), None);
}

#[test]
fn join_without_others_keeps_edge_prices() {
    assert_eq!(apply_price_improvement(PriceImprovementBehavior::Join, 9_997, 10_003, None, None), (9_997, 10_003));
    assert_eq!(apply_price_improvement(PriceImprovementBehavior::Join, 9_997, 10_003, None, Some(10_001)), (9_997, 10_003));
    let mut s = fresh_state(PriceImprovementBehavior::Join, false);
    let one_sided = book(vec![order(9_990, !1, OTHER, 5)], vec![], 5);
    let plan = update_quotes(&update_ctx(one_sided, 20), &mut s, order_params(100_000_000, params(None, None, None, false))).unwrap();
    assert_eq!(plan.quotes.bid_price_in_ticks, 9_990);
    assert_eq!(plan.quotes.ask_price_in_ticks, 10_003);
    assert_eq!(plan.quotes.ask_size_in_base_lots, 9_997);
}

#[test]
fn book_order_is_checked() {
    let good = book(
        vec![order(101, !1, ME, 5), order(100, !2, OTHER, 5), order(100, !3, OTHER, 5)],
        vec![order(103, 3, ME, 5), order(103, 4, OTHER, 5), order(104, 1, OTHER, 5)],
        9,
    );
    assert!(good.is_well_formed());
    let bids_rising = book(vec![order(100, !2, OTHER, 5), order(101, !1, ME, 5)], vec![], 9);
    assert!(!bids_rising.is_well_formed());
    let asks_falling = book(vec![], vec![order(104, 1, OTHER, 5), order(103, 3, ME, 5)], 9);
    assert!(!asks_falling.is_well_formed());
    let repeated = book(vec![], vec![order(103, 3, ME, 5), order(103, 3, ME, 5)], 9);
    assert!(!repeated.is_well_formed());
    assert!(book(vec![], vec![], 0).is_well_formed());
}

#[test]
fn best_prices_are_highest_bid_and_lowest_ask() {
    let b = book(
        vec![order(105, !1, ME, 5), order(102, !4, OTHER, 5), order(99, !2, OTHER, 5)],
        vec![order(106, 3, ME, 5), order(108, 6, OTHER, 5), order(110, 5, OTHER, 5)],
        9,
    );
    assert_eq!(get_best_bid_and_ask(&b, ME), (102, 108));
}

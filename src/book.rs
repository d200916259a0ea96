use vstd::prelude::*;

verus! {

/// Best bid assumed when no other trader bids.
pub const NO_BID_PRICE: u64 = 1;

/// Best ask assumed when no other trader offers.
pub const NO_ASK_PRICE: u64 = u64::MAX;

/// Sequence numbers from this value up belong to bids.
pub const BID_SEQUENCE_FLAG: u64 = 0x8000_0000_0000_0000;

#[derive(Debug, Clone, Copy, PartialEq, Eq, Structural)]
pub enum Side {
    Bid,
    Ask,
}

/// The identity of a resting order within one side of the book.
#[derive(Debug, Clone, Copy, PartialEq, Eq, Structural)]
pub struct OrderId {
    pub price_in_ticks: u64,
    pub order_sequence_number: u64,
}

/// One resting order as the venue's book shows it.
#[derive(Debug, Clone, Copy, PartialEq, Eq, Structural)]
pub struct RestingOrder {
    pub price_in_ticks: u64,
    pub order_sequence_number: u64,
    pub trader_index: u64,
    pub num_base_lots: u64,
}

/// A read of the venue's market: each side lists its resting orders best first.
#[derive(Debug, Clone)]
pub struct OrderBook {
    /// Tick size in quote lots per base unit.
    pub tick_size_in_quote_lots_per_base_unit: u64,
    /// The venue's next raw order sequence number.
    pub sequence_number: u64,
    /// The seat index of the strategy's trader, if it has one.
    pub trader_index: Option<u32>,
    pub bids: Vec<RestingOrder>,
    pub asks: Vec<RestingOrder>,
}

/// The side that a sequence number encodes: bids carry the complement of the
/// raw counter, so their top bit is set.
pub open spec fn side_of_sequence(seq: u64) -> Side {
    if seq >= BID_SEQUENCE_FLAG { Side::Bid } else { Side::Ask }
}

pub fn side_from_order_sequence_number(seq: u64) -> (r: Side)
    ensures
        r == side_of_sequence(seq),
{
    if seq >= BID_SEQUENCE_FLAG { Side::Bid } else { Side::Ask }
}

pub open spec fn has_id(o: RestingOrder, id: OrderId) -> bool {
    o.price_in_ticks == id.price_in_ticks && o.order_sequence_number == id.order_sequence_number
}

/// The size of the first order of `orders` with identity `id`.
pub open spec fn lookup_lots(orders: Seq<RestingOrder>, id: OrderId) -> Option<u64>
    decreases orders.len(),
{
    if orders.len() == 0 {
        None
    } else {
        let earlier = lookup_lots(orders.drop_last(), id);
        if earlier is Some {
            earlier
        } else if has_id(orders.last(), id) {
            Some(orders.last().num_base_lots)
        } else {
            None
        }
    }
}

/// The price of the first order of `orders` that another trader placed.
pub open spec fn first_other_price(orders: Seq<RestingOrder>, trader_index: u64) -> Option<u64>
    decreases orders.len(),
{
    if orders.len() == 0 {
        None
    } else {
        let earlier = first_other_price(orders.drop_last(), trader_index);
        if earlier is Some {
            earlier
        } else if orders.last().trader_index != trader_index {
            Some(orders.last().price_in_ticks)
        } else {
            None
        }
    }
}

/// Whether `a` comes before `b` on `side` of the book: bids by falling price,
/// asks by rising price, and at one price in the venue's time order (bids by
/// falling sequence number, asks by rising sequence number).
pub open spec fn ranks_before(side: Side, a: RestingOrder, b: RestingOrder) -> bool {
    match side {
        Side::Bid => a.price_in_ticks > b.price_in_ticks
            || (a.price_in_ticks == b.price_in_ticks && a.order_sequence_number > b.order_sequence_number),
        Side::Ask => a.price_in_ticks < b.price_in_ticks
            || (a.price_in_ticks == b.price_in_ticks && a.order_sequence_number < b.order_sequence_number),
    }
}

/// Whether the orders of one side are listed best first, each identity once.
pub open spec fn side_ordered(orders: Seq<RestingOrder>, side: Side) -> bool {
    forall|i: int, j: int| 0 <= i < j < orders.len() ==> #[trigger] ranks_before(side, orders[i], orders[j])
}

pub open spec fn is_other(o: RestingOrder, trader_index: u64) -> bool {
    o.trader_index != trader_index
}

/// Whether another trader has an order among `orders`.
pub open spec fn has_other(orders: Seq<RestingOrder>, trader_index: u64) -> bool {
    exists|i: int| 0 <= i < orders.len() && #[trigger] is_other(orders[i], trader_index)
}

/// Whether `p` is the highest price among the orders of other traders.
pub open spec fn is_highest_other(orders: Seq<RestingOrder>, trader_index: u64, p: u64) -> bool {
    &&& exists|i: int| 0 <= i < orders.len() && #[trigger] is_other(orders[i], trader_index) && orders[i].price_in_ticks == p
    &&& forall|i: int| 0 <= i < orders.len() && #[trigger] is_other(orders[i], trader_index) ==> orders[i].price_in_ticks <= p
}

/// Whether `p` is the lowest price among the orders of other traders.
pub open spec fn is_lowest_other(orders: Seq<RestingOrder>, trader_index: u64, p: u64) -> bool {
    &&& exists|i: int| 0 <= i < orders.len() && #[trigger] is_other(orders[i], trader_index) && orders[i].price_in_ticks == p
    &&& forall|i: int| 0 <= i < orders.len() && #[trigger] is_other(orders[i], trader_index) ==> orders[i].price_in_ticks >= p
}

/// The seat index used to tell the strategy's own orders apart.
pub open spec fn trader_index_of(seat: Option<u32>) -> u64 {
    match seat {
        Some(i) => i as u64,
        None => u32::MAX as u64,
    }
}

impl OrderBook {
    /// The venue's ordering: each side best first, identities unique.
    pub open spec fn wf(&self) -> bool {
        side_ordered(self.bids@, Side::Bid) && side_ordered(self.asks@, Side::Ask)
    }

    /// Whether both sides are in the venue's order.
    pub fn is_well_formed(&self) -> (r: bool)
        ensures
            r == self.wf(),
    {
        side_in_order(&self.bids, Side::Bid) && side_in_order(&self.asks, Side::Ask)
    }

    pub open spec fn side_orders(&self, side: Side) -> Seq<RestingOrder> {
        match side {
            Side::Bid => self.bids@,
            Side::Ask => self.asks@,
        }
    }

    pub open spec fn spec_lookup(&self, side: Side, id: OrderId) -> Option<u64> {
        lookup_lots(self.side_orders(side), id)
    }

    pub open spec fn spec_trader_index(&self) -> u64 {
        trader_index_of(self.trader_index)
    }

    /// The size of the resting order with identity `id` on `side`, if it is live.
    pub fn lookup_order(&self, side: Side, id: OrderId) -> (r: Option<u64>)
        ensures
            r == self.spec_lookup(side, id),
    {
        let orders = match side {
            Side::Bid => &self.bids,
            Side::Ask => &self.asks,
        };
        let mut i: usize = 0;
        while i < orders.len()
            invariant
                orders@ == self.side_orders(side),
                i <= orders.len(),
                lookup_lots(orders@.subrange(0, i as int), id) is None,
            decreases orders.len() - i,
        {
            let o = orders[i];
            assert(orders@.subrange(0, i + 1).drop_last() == orders@.subrange(0, i as int));
            if o.price_in_ticks == id.price_in_ticks && o.order_sequence_number == id.order_sequence_number {
                proof {
                    lemma_lookup_prefix(orders@, id, i as int + 1);
                }
                return Some(o.num_base_lots);
            }
            i += 1;
        }
        assert(orders@.subrange(0, i as int) == orders@);
        None
    }

    /// The seat index of the trader, or `u32::MAX` when it has no seat.
    pub fn get_trader_index(&self) -> (r: u64)
        ensures
            r == self.spec_trader_index(),
    {
        match self.trader_index {
            Some(i) => i as u64,
            None => u32::MAX as u64,
        }
    }
}

/// Once a prefix holds a match, the whole sequence gives the same answer.
proof fn lemma_lookup_prefix(orders: Seq<RestingOrder>, id: OrderId, n: int)
    requires
        0 <= n <= orders.len(),
        lookup_lots(orders.subrange(0, n), id) is Some,
    ensures
        lookup_lots(orders, id) == lookup_lots(orders.subrange(0, n), id),
    decreases orders.len() - n,
{
    if n < orders.len() {
        assert(orders.subrange(0, n + 1).drop_last() == orders.subrange(0, n));
        lemma_lookup_prefix(orders, id, n + 1);
    } else {
        assert(orders.subrange(0, n) == orders);
    }
}

proof fn lemma_other_prefix(orders: Seq<RestingOrder>, trader_index: u64, n: int)
    requires
        0 <= n <= orders.len(),
        first_other_price(orders.subrange(0, n), trader_index) is Some,
    ensures
        first_other_price(orders, trader_index) == first_other_price(orders.subrange(0, n), trader_index),
    decreases orders.len() - n,
{
    if n < orders.len() {
        assert(orders.subrange(0, n + 1).drop_last() == orders.subrange(0, n));
        lemma_other_prefix(orders, trader_index, n + 1);
    } else {
        assert(orders.subrange(0, n) == orders);
    }
}

fn ranks_before_exec(side: Side, a: RestingOrder, b: RestingOrder) -> (r: bool)
    ensures
        r == ranks_before(side, a, b),
{
    match side {
        Side::Bid => a.price_in_ticks > b.price_in_ticks
            || (a.price_in_ticks == b.price_in_ticks && a.order_sequence_number > b.order_sequence_number),
        Side::Ask => a.price_in_ticks < b.price_in_ticks
            || (a.price_in_ticks == b.price_in_ticks && a.order_sequence_number < b.order_sequence_number),
    }
}

/// Whether one side is listed in the venue's order, checked on neighbours.
fn side_in_order(orders: &Vec<RestingOrder>, side: Side) -> (r: bool)
    ensures
        r == side_ordered(orders@, side),
{
    if orders.len() == 0 {
        return true;
    }
    let mut i: usize = 1;
    while i < orders.len()
        invariant
            1 <= i <= orders.len(),
            side_ordered(orders@.subrange(0, i as int), side),
        decreases orders.len() - i,
    {
        if !ranks_before_exec(side, orders[i - 1], orders[i]) {
            assert(!ranks_before(side, orders@[i - 1], orders@[i as int]));
            return false;
        }
        let ghost s = orders@;
        assert forall|x: int, y: int| 0 <= x < y < i + 1 implies #[trigger] ranks_before(side, s.subrange(0, i + 1)[x], s.subrange(0, i + 1)[y]) by {
            if y < i {
                assert(ranks_before(side, s.subrange(0, i as int)[x], s.subrange(0, i as int)[y]));
            } else if x < i - 1 {
                assert(ranks_before(side, s.subrange(0, i as int)[x], s.subrange(0, i as int)[i - 1]));
            }
        }
        i += 1;
    }
    assert(orders@.subrange(0, i as int) == orders@);
    true
}

/// In a side listed in the venue's order no identity occurs twice.
pub proof fn lemma_ordered_ids_unique(orders: Seq<RestingOrder>, side: Side)
    requires
        side_ordered(orders, side),
    ensures
        forall|i: int, j: int| 0 <= i < orders.len() && 0 <= j < orders.len() && i != j ==> !has_id(
            #[trigger] orders[i],
            OrderId { price_in_ticks: orders[j].price_in_ticks, order_sequence_number: #[trigger] orders[j].order_sequence_number },
        ),
{
    assert forall|i: int, j: int| 0 <= i < orders.len() && 0 <= j < orders.len() && i != j implies !has_id(
        #[trigger] orders[i],
        OrderId { price_in_ticks: orders[j].price_in_ticks, order_sequence_number: #[trigger] orders[j].order_sequence_number },
    ) by {
        if i < j {
            assert(ranks_before(side, orders[i], orders[j]));
        } else {
            assert(ranks_before(side, orders[j], orders[i]));
        }
    }
}

/// The price of the first order on one side that another trader placed.
fn first_other(orders: &Vec<RestingOrder>, trader_index: u64) -> (r: Option<u64>)
    ensures
        r == first_other_price(orders@, trader_index),
        r is None <==> !has_other(orders@, trader_index),
        r matches Some(p) ==> exists|k: int| 0 <= k < orders@.len() && #[trigger] is_other(orders@[k], trader_index)
            && orders@[k].price_in_ticks == p
            && forall|j: int| 0 <= j < k ==> !is_other(#[trigger] orders@[j], trader_index),
{
    let mut i: usize = 0;
    while i < orders.len()
        invariant
            i <= orders.len(),
            first_other_price(orders@.subrange(0, i as int), trader_index) is None,
            forall|j: int| 0 <= j < i ==> !is_other(#[trigger] orders@[j], trader_index),
        decreases orders.len() - i,
    {
        let o = orders[i];
        assert(orders@.subrange(0, i + 1).drop_last() == orders@.subrange(0, i as int));
        if o.trader_index != trader_index {
            proof {
                lemma_other_prefix(orders@, trader_index, i as int + 1);
                assert(is_other(orders@[i as int], trader_index));
            }
            return Some(o.price_in_ticks);
        }
        i += 1;
    }
    assert(orders@.subrange(0, i as int) == orders@);
    None
}

/// The best bid and best ask among the orders of other traders, `None` where a
/// side has none.
pub fn best_other_prices(book: &OrderBook, trader_index: u64) -> (r: (Option<u64>, Option<u64>))
    requires
        book.wf(),
    ensures
        r.0 == first_other_price(book.bids@, trader_index),
        r.1 == first_other_price(book.asks@, trader_index),
        r.0 is None <==> !has_other(book.bids@, trader_index),
        r.1 is None <==> !has_other(book.asks@, trader_index),
        r.0 matches Some(p) ==> is_highest_other(book.bids@, trader_index, p),
        r.1 matches Some(p) ==> is_lowest_other(book.asks@, trader_index, p),
{
    let best_bid = first_other(&book.bids, trader_index);
    let best_ask = first_other(&book.asks, trader_index);
    proof {
        let bids = book.bids@;
        let asks = book.asks@;
        if best_bid is Some {
            let p = best_bid->Some_0;
            let k = choose|k: int| 0 <= k < bids.len() && #[trigger] is_other(bids[k], trader_index)
                && bids[k].price_in_ticks == p
                && forall|j: int| 0 <= j < k ==> !is_other(#[trigger] bids[j], trader_index);
            assert forall|j: int| 0 <= j < bids.len() && #[trigger] is_other(bids[j], trader_index) implies bids[j].price_in_ticks <= p by {
                if j > k {
                    assert(ranks_before(Side::Bid, bids[k], bids[j]));
                }
            }
        }
        if best_ask is Some {
            let p = best_ask->Some_0;
            let k = choose|k: int| 0 <= k < asks.len() && #[trigger] is_other(asks[k], trader_index)
                && asks[k].price_in_ticks == p
                && forall|j: int| 0 <= j < k ==> !is_other(#[trigger] asks[j], trader_index);
            assert forall|j: int| 0 <= j < asks.len() && #[trigger] is_other(asks[j], trader_index) implies asks[j].price_in_ticks >= p by {
                if j > k {
                    assert(ranks_before(Side::Ask, asks[k], asks[j]));
                }
            }
        }
    }
    (best_bid, best_ask)
}

/// The best bid and best ask among the orders of other traders: the highest
/// bid, or 1 where there is none, and the lowest ask, or `u64::MAX` where there
/// is none. Callers read these fallback values as "no constraint".
pub fn get_best_bid_and_ask(book: &OrderBook, trader_index: u64) -> (r: (u64, u64))
    requires
        book.wf(),
    ensures
        has_other(book.bids@, trader_index) ==> is_highest_other(book.bids@, trader_index, r.0),
        !has_other(book.bids@, trader_index) ==> r.0 == NO_BID_PRICE,
        has_other(book.asks@, trader_index) ==> is_lowest_other(book.asks@, trader_index, r.1),
        !has_other(book.asks@, trader_index) ==> r.1 == NO_ASK_PRICE,
{
    let (best_bid, best_ask) = best_other_prices(book, trader_index);
    let bid = match best_bid {
        Some(p) => p,
        None => NO_BID_PRICE,
    };
    let ask = match best_ask {
        Some(p) => p,
        None => NO_ASK_PRICE,
    };
    (bid, ask)
}

} // verus!

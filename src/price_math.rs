use vstd::prelude::*;

verus! {

/// Basis points in one whole.
pub const BPS_PER_UNIT: u64 = 10_000;

/// Fair price in ticks: `fair * raw_base_units_per_base_unit / tick_size`, floored.
pub open spec fn fair_ticks_of(fair: int, raw_per_base: int, tick_size: int) -> int {
    fair * raw_per_base / tick_size
}

/// The half-spread in ticks for an edge given in basis points.
pub open spec fn edge_ticks_of(fair_ticks: int, edge_bps: int) -> int {
    edge_bps * fair_ticks / 10_000
}

pub open spec fn bid_of(fair_ticks: int, edge_bps: int) -> int {
    fair_ticks - edge_ticks_of(fair_ticks, edge_bps)
}

pub open spec fn ask_of(fair_ticks: int, edge_bps: int) -> int {
    fair_ticks + edge_ticks_of(fair_ticks, edge_bps)
}

pub open spec fn fits_u64(x: int) -> bool {
    0 <= x <= u64::MAX as int
}

/// Whether the fair price in ticks is defined and fits in a `u64`.
pub open spec fn fair_ticks_defined(fair: int, raw_per_base: int, tick_size: int) -> bool {
    tick_size > 0 && fits_u64(fair * raw_per_base)
}

/// Whether the unimproved bid is defined: the fair price in ticks and the edge
/// product fit in a `u64`, and the edge term does not exceed the fair price.
pub open spec fn bid_price_defined(fair: int, raw_per_base: int, tick_size: int, edge_bps: int) -> bool {
    let ft = fair_ticks_of(fair, raw_per_base, tick_size);
    &&& fair_ticks_defined(fair, raw_per_base, tick_size)
    &&& fits_u64(edge_bps * ft)
    &&& edge_ticks_of(ft, edge_bps) <= ft
}

/// Whether the unimproved ask is defined: the fair price in ticks, the edge
/// product and the sum all fit in a `u64`.
pub open spec fn ask_price_defined(fair: int, raw_per_base: int, tick_size: int, edge_bps: int) -> bool {
    let ft = fair_ticks_of(fair, raw_per_base, tick_size);
    &&& fair_ticks_defined(fair, raw_per_base, tick_size)
    &&& fits_u64(edge_bps * ft)
    &&& fits_u64(ask_of(ft, edge_bps))
}

/// Whether the unimproved bid and ask are both defined.
pub open spec fn quote_prices_defined(fair: int, raw_per_base: int, tick_size: int, edge_bps: int) -> bool {
    bid_price_defined(fair, raw_per_base, tick_size, edge_bps) && ask_price_defined(fair, raw_per_base, tick_size, edge_bps)
}

/// Whether an order size can be computed for a price: the divisor is non-zero
/// and every intermediate fits in a `u64`.
pub open spec fn order_size_defined(size_in_quote_lots: int, price_in_ticks: int, tick_size_in_quote_lots: int) -> bool {
    &&& price_in_ticks * tick_size_in_quote_lots > 0
    &&& fits_u64(price_in_ticks * tick_size_in_quote_lots)
}

pub open spec fn order_size_of(size_in_quote_lots: int, price_in_ticks: int, tick_size_in_quote_lots: int) -> int {
    size_in_quote_lots / (price_in_ticks * tick_size_in_quote_lots)
}

/// Converts a fair price in quote atoms per raw base unit into ticks.
pub fn fair_price_in_ticks(fair: u64, raw_base_units_per_base_unit: u32, tick_size_in_quote_atoms_per_base_unit: u64) -> (r: Option<u64>)
    ensures
        r is Some <==> fair_ticks_defined(fair as int, raw_base_units_per_base_unit as int, tick_size_in_quote_atoms_per_base_unit as int),
        r matches Some(t) ==> t == fair_ticks_of(fair as int, raw_base_units_per_base_unit as int, tick_size_in_quote_atoms_per_base_unit as int),
{
    if tick_size_in_quote_atoms_per_base_unit == 0 {
        return None;
    }
    match fair.checked_mul(raw_base_units_per_base_unit as u64) {
        Some(scaled) => Some(scaled / tick_size_in_quote_atoms_per_base_unit),
        None => None,
    }
}

/// The half-spread in ticks, `edge_bps * fair_ticks / 10000`, or `None` when the product overflows.
pub fn edge_in_ticks(fair_ticks: u64, edge_bps: u64) -> (r: Option<u64>)
    ensures
        r is Some <==> fits_u64(edge_bps * fair_ticks),
        r matches Some(e) ==> e == edge_ticks_of(fair_ticks as int, edge_bps as int),
{
    match edge_bps.checked_mul(fair_ticks) {
        Some(p) => Some(p / BPS_PER_UNIT),
        None => None,
    }
}

/// The bid price in ticks: the fair price less the edge.
pub fn get_bid_price(fair: u64, raw_base_units_per_base_unit: u32, tick_size_in_quote_atoms_per_base_unit: u64, edge_bps: u64) -> (r: Option<u64>)
    ensures
        r is Some <==> bid_price_defined(fair as int, raw_base_units_per_base_unit as int, tick_size_in_quote_atoms_per_base_unit as int, edge_bps as int),
        r matches Some(b) ==> b == bid_of(fair_ticks_of(fair as int, raw_base_units_per_base_unit as int, tick_size_in_quote_atoms_per_base_unit as int), edge_bps as int),
{
    let ft = match fair_price_in_ticks(fair, raw_base_units_per_base_unit, tick_size_in_quote_atoms_per_base_unit) {
        Some(t) => t,
        None => return None,
    };
    let edge = match edge_in_ticks(ft, edge_bps) {
        Some(e) => e,
        None => return None,
    };
    if edge > ft {
        None
    } else {
        Some(ft - edge)
    }
}

/// The ask price in ticks: the fair price plus the edge.
pub fn get_ask_price(fair: u64, raw_base_units_per_base_unit: u32, tick_size_in_quote_atoms_per_base_unit: u64, edge_bps: u64) -> (r: Option<u64>)
    ensures
        r is Some <==> ask_price_defined(fair as int, raw_base_units_per_base_unit as int, tick_size_in_quote_atoms_per_base_unit as int, edge_bps as int),
        r matches Some(a) ==> a == ask_of(fair_ticks_of(fair as int, raw_base_units_per_base_unit as int, tick_size_in_quote_atoms_per_base_unit as int), edge_bps as int),
{
    let ft = match fair_price_in_ticks(fair, raw_base_units_per_base_unit, tick_size_in_quote_atoms_per_base_unit) {
        Some(t) => t,
        None => return None,
    };
    let edge = match edge_in_ticks(ft, edge_bps) {
        Some(e) => e,
        None => return None,
    };
    ft.checked_add(edge)
}

/// Both unimproved prices `(bid, ask)` in ticks, or `None` when either is undefined.
pub fn quote_prices(fair: u64, raw_base_units_per_base_unit: u32, tick_size_in_quote_atoms_per_base_unit: u64, edge_bps: u64) -> (r: Option<(u64, u64)>)
    ensures
        r is Some <==> quote_prices_defined(fair as int, raw_base_units_per_base_unit as int, tick_size_in_quote_atoms_per_base_unit as int, edge_bps as int),
        r matches Some(p) ==> {
            let ft = fair_ticks_of(fair as int, raw_base_units_per_base_unit as int, tick_size_in_quote_atoms_per_base_unit as int);
            p.0 == bid_of(ft, edge_bps as int) && p.1 == ask_of(ft, edge_bps as int)
        },
{
    let bid = match get_bid_price(fair, raw_base_units_per_base_unit, tick_size_in_quote_atoms_per_base_unit, edge_bps) {
        Some(b) => b,
        None => return None,
    };
    match get_ask_price(fair, raw_base_units_per_base_unit, tick_size_in_quote_atoms_per_base_unit, edge_bps) {
        Some(a) => Some((bid, a)),
        None => None,
    }
}

/// The size in base lots that `size_in_quote_lots` buys at `price_in_ticks`.
pub fn order_size_in_base_lots(size_in_quote_lots: u64, price_in_ticks: u64, tick_size_in_quote_lots: u64) -> (r: Option<u64>)
    ensures
        r is Some <==> order_size_defined(size_in_quote_lots as int, price_in_ticks as int, tick_size_in_quote_lots as int),
        r matches Some(s) ==> s == order_size_of(size_in_quote_lots as int, price_in_ticks as int, tick_size_in_quote_lots as int),
{
    match price_in_ticks.checked_mul(tick_size_in_quote_lots) {
        Some(d) => {
            if d == 0 {
                None
            } else {
                Some(size_in_quote_lots / d)
            }
        },
        None => None,
    }
}

} // verus!

use vstd::prelude::*;

use crate::network::str_equals;

verus! {

/// How the quoted prices relate to the best opposing prices of other traders.
#[derive(Debug, Clone, Copy, PartialEq, Eq, Structural)]
pub enum PriceImprovementBehavior {
    /// Never quote better than the best price of others: join it.
    Join,
    /// Improve on the best price of others by at most one tick.
    Dime,
    /// Quote the edge-derived prices as they are.
    Ignore,
}

pub open spec fn behavior_code(b: PriceImprovementBehavior) -> u8 {
    match b {
        PriceImprovementBehavior::Join => 0,
        PriceImprovementBehavior::Dime => 1,
        PriceImprovementBehavior::Ignore => 2,
    }
}

pub open spec fn behavior_of_code(byte: u8) -> PriceImprovementBehavior
    recommends
        byte < 3,
{
    if byte == 0 {
        PriceImprovementBehavior::Join
    } else if byte == 1 {
        PriceImprovementBehavior::Dime
    } else {
        PriceImprovementBehavior::Ignore
    }
}

impl PriceImprovementBehavior {
    pub fn to_u8(&self) -> (r: u8)
        ensures
            r == behavior_code(*self),
            r < 3,
    {
        match self {
            PriceImprovementBehavior::Join => 0,
            PriceImprovementBehavior::Dime => 1,
            PriceImprovementBehavior::Ignore => 2,
        }
    }

    pub fn from_u8(byte: u8) -> (r: Self)
        requires
            byte < 3,
        ensures
            r == behavior_of_code(byte),
            behavior_code(r) == byte,
    {
        if byte == 0 {
            PriceImprovementBehavior::Join
        } else if byte == 1 {
            PriceImprovementBehavior::Dime
        } else {
            PriceImprovementBehavior::Ignore
        }
    }
}

pub open spec fn min_int(a: int, b: int) -> int {
    if a <= b { a } else { b }
}

pub open spec fn max_int(a: int, b: int) -> int {
    if a >= b { a } else { b }
}

/// The bid after the price-improvement rule, given the best bid of other
/// traders; with no other bid there is no constraint.
pub open spec fn improved_bid(behavior: PriceImprovementBehavior, bid: int, best_bid: Option<u64>) -> int {
    match best_bid {
        None => bid,
        Some(b) => match behavior {
            PriceImprovementBehavior::Join => min_int(bid, b as int),
            PriceImprovementBehavior::Dime => min_int(bid, b + 1),
            PriceImprovementBehavior::Ignore => bid,
        },
    }
}

/// The ask after the price-improvement rule, given the best ask of other
/// traders; with no other ask there is no constraint.
pub open spec fn improved_ask(behavior: PriceImprovementBehavior, ask: int, best_ask: Option<u64>) -> int {
    match best_ask {
        None => ask,
        Some(a) => match behavior {
            PriceImprovementBehavior::Join => max_int(ask, a as int),
            PriceImprovementBehavior::Dime => max_int(ask, a - 1),
            PriceImprovementBehavior::Ignore => ask,
        },
    }
}

/// The `(bid, ask)` after the price-improvement rule.
pub open spec fn improved_prices(
    behavior: PriceImprovementBehavior,
    bid: int,
    ask: int,
    best_bid: Option<u64>,
    best_ask: Option<u64>,
) -> (int, int) {
    (improved_bid(behavior, bid, best_bid), improved_ask(behavior, ask, best_ask))
}

/// Applies the price-improvement rule to a computed bid and ask, given the best
/// bid and best ask of other traders, `None` where a side has none.
pub fn apply_price_improvement(
    behavior: PriceImprovementBehavior,
    bid: u64,
    ask: u64,
    best_bid: Option<u64>,
    best_ask: Option<u64>,
) -> (r: (u64, u64))
    ensures
        (r.0 as int, r.1 as int) == improved_prices(behavior, bid as int, ask as int, best_bid, best_ask),
{
    let b = match (behavior, best_bid) {
        (PriceImprovementBehavior::Join, Some(best)) => if bid <= best { bid } else { best },
        (PriceImprovementBehavior::Dime, Some(best)) => {
            if best == u64::MAX || bid <= best + 1 { bid } else { best + 1 }
        },
        _ => bid,
    };
    let a = match (behavior, best_ask) {
        (PriceImprovementBehavior::Join, Some(best)) => if ask >= best { ask } else { best },
        (PriceImprovementBehavior::Dime, Some(best)) => {
            if best == 0 || ask >= best - 1 { ask } else { best - 1 }
        },
        _ => ask,
    };
    (b, a)
}

/// Under `Join`, the quotes are never better than the best prices of others,
/// and a side that no other trader quotes is left as it is.
pub proof fn lemma_join_never_improves(bid: int, ask: int, best_bid: Option<u64>, best_ask: Option<u64>)
    ensures
        ({
            let (b, a) = improved_prices(PriceImprovementBehavior::Join, bid, ask, best_bid, best_ask);
            &&& best_ask matches Some(p) ==> a >= p
            &&& best_bid matches Some(p) ==> b <= p
            &&& best_ask is None ==> a == ask
            &&& best_bid is None ==> b == bid
        }),
{
}

/// Under `Dime`, the quotes improve on the best prices of others by at most one
/// tick, and a side that no other trader quotes is left as it is.
pub proof fn lemma_dime_improves_by_at_most_one_tick(bid: int, ask: int, best_bid: Option<u64>, best_ask: Option<u64>)
    ensures
        ({
            let (b, a) = improved_prices(PriceImprovementBehavior::Dime, bid, ask, best_bid, best_ask);
            &&& best_ask matches Some(p) ==> a >= p - 1
            &&& best_bid matches Some(p) ==> b <= p + 1
            &&& best_ask is None ==> a == ask
            &&& best_bid is None ==> b == bid
        }),
{
}

/// The behavior that a configuration name selects: `join`, `dime` or `ignore`,
/// in lower case or capitalized; any other name selects `Join`.
pub open spec fn behavior_named(name: Seq<char>) -> PriceImprovementBehavior {
    if name == "Dime"@ || name == "dime"@ {
        PriceImprovementBehavior::Dime
    } else if name == "Ignore"@ || name == "ignore"@ {
        PriceImprovementBehavior::Ignore
    } else {
        PriceImprovementBehavior::Join
    }
}

pub fn parse_price_improvement_behavior(name: &str) -> (r: PriceImprovementBehavior)
    ensures
        r == behavior_named(name@),
{
    if str_equals(name, "Dime") || str_equals(name, "dime") {
        PriceImprovementBehavior::Dime
    } else if str_equals(name, "Ignore") || str_equals(name, "ignore") {
        PriceImprovementBehavior::Ignore
    } else {
        PriceImprovementBehavior::Join
    }
}

} // verus!

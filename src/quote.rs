//! Derivation of a target sell quote from a depth snapshot.
//!
//! Prices arrive as fixed-point integers in units of 10^-8 of the quote
//! currency. The target price is the mean of the best (at most ten) ask
//! prices, scaled by 1.2 and rounded to three decimal places; the target size
//! is the order's notional divided by that price, rounded to whole units.
//! Both roundings go to the nearest value, with ties rounded away from zero.
//! Every step is exact integer arithmetic: no binary floating point is used.
use vstd::prelude::*;

verus! {

/// Fixed-point price units per whole unit of the quote currency.
pub const PRICE_UNITS_PER_WHOLE: u64 = 100_000_000;

/// The number of best levels that the mean is taken over.
pub const DEPTH_LEVELS: usize = 10;

/// One price level of an order book: price and quantity in units of 10^-8.
#[derive(Clone, Copy, Debug, PartialEq, Eq, Structural)]
pub struct Level {
    pub price: u64,
    pub qty: u64,
}

/// A point-in-time view of the book, each side sorted best to worst.
#[derive(Clone, Debug)]
pub struct OrderBookSnapshot {
    pub asks: Vec<Level>,
    pub bids: Vec<Level>,
}

/// A quote to place: the price in thousandths of the quote currency, and the
/// size in whole units of the base asset.
#[derive(Clone, Copy, Debug, PartialEq, Eq, Structural)]
pub struct TargetQuote {
    pub price_milli: u128,
    pub size: u128,
}

/// Why no quote could be derived from a snapshot.
#[derive(Clone, Copy, Debug, PartialEq, Eq, Structural)]
pub enum QuoteError {
    /// The snapshot holds no ask level.
    InsufficientDepth,
    /// The target price rounds to zero at three decimal places, so no size
    /// can be derived from it.
    PriceRoundsToZero,
}

/// The number of levels that the mean is taken over: at most ten.
pub open spec fn top_count(levels: Seq<Level>) -> nat {
    if levels.len() < DEPTH_LEVELS as nat { levels.len() } else { DEPTH_LEVELS as nat }
}

/// The sum of the prices of the first `n` levels.
pub open spec fn price_sum(levels: Seq<Level>, n: nat) -> nat
    decreases n,
{
    if n == 0 || n > levels.len() {
        0
    } else {
        price_sum(levels, (n - 1) as nat) + levels[n - 1].price as nat
    }
}

/// The sum of the prices of the levels that the mean is taken over.
pub open spec fn top_sum(levels: Seq<Level>) -> nat {
    price_sum(levels, top_count(levels))
}

/// `num / den` rounded to the nearest integer, ties away from zero.
pub open spec fn round_nearest(num: nat, den: nat) -> nat
    recommends
        den > 0,
{
    ((2 * num + den) / (2 * den)) as nat
}

/// The target price in thousandths: mean of the best asks times 1.2, rounded.
/// In thousandths, `sum / (n * 10^8) * 1.2 * 1000 == 6 * sum / (5 * 10^5 * n)`.
pub open spec fn target_price_milli(asks: Seq<Level>) -> nat {
    round_nearest(6 * top_sum(asks), 500_000 * top_count(asks))
}

/// The target size in whole units: the notional over the price, rounded.
pub open spec fn target_size(order_size_usd: nat, price_milli: nat) -> nat {
    round_nearest(1000 * order_size_usd, price_milli)
}

/// What deriving a quote from a snapshot's asks gives.
pub open spec fn quote_of(asks: Seq<Level>, order_size_usd: nat) -> Result<TargetQuote, QuoteError> {
    if asks.len() == 0 {
        Err(QuoteError::InsufficientDepth)
    } else if target_price_milli(asks) == 0 {
        Err(QuoteError::PriceRoundsToZero)
    } else {
        Ok(
            TargetQuote {
                price_milli: target_price_milli(asks) as u128,
                size: target_size(order_size_usd, target_price_milli(asks)) as u128,
            },
        )
    }
}

proof fn lemma_price_sum_bound(levels: Seq<Level>, n: nat)
    ensures
        price_sum(levels, n) <= n * (u64::MAX as nat),
    decreases n,
{
    if n > 0 && n <= levels.len() {
        lemma_price_sum_bound(levels, (n - 1) as nat);
    }
}

/// `num / den` rounded to the nearest integer, ties away from zero.
fn round_nearest_exec(num: u128, den: u128) -> (r: u128)
    requires
        0 < den <= 0x1_0000_0000_0000_0000_0000,
        num <= 0x1_0000_0000_0000_0000_0000,
    ensures
        r as nat == round_nearest(num as nat, den as nat),
        r <= num,
{
    let r = (2 * num + den) / (2 * den);
    assert(r <= num) by (nonlinear_arith)
        requires
            r == (2 * num + den) / (2 * den),
            den > 0,
    {
        if num == 0 {
            assert((den as int) / (2 * den as int) == 0);
        } else {
            assert(2 * num + den <= 2 * den * num + 2 * den * num);
        }
    }
    r
}

/// Sums the prices of the first `min(10, len)` levels.
fn top_levels_sum(levels: &Vec<Level>) -> (r: (u128, usize))
    ensures
        r.0 as nat == top_sum(levels@),
        r.1 as nat == top_count(levels@),
        r.0 <= 10 * (u64::MAX as u128),
{
    let n: usize = if levels.len() < DEPTH_LEVELS { levels.len() } else { DEPTH_LEVELS };
    let mut sum: u128 = 0;
    let mut i: usize = 0;
    while i < n
        invariant
            n == top_count(levels@),
            n <= levels@.len(),
            n <= 10,
            i <= n,
            sum as nat == price_sum(levels@, i as nat),
        decreases n - i,
    {
        proof {
            lemma_price_sum_bound(levels@, i as nat);
            assert(i * (u64::MAX as nat) <= 10 * (u64::MAX as nat)) by (nonlinear_arith)
                requires i <= 10;
        }
        sum = sum + levels[i].price as u128;
        i = i + 1;
    }
    proof {
        lemma_price_sum_bound(levels@, n as nat);
        assert(n * (u64::MAX as nat) <= 10 * (u64::MAX as nat)) by (nonlinear_arith)
            requires n <= 10;
    }
    (sum, n)
}

/// Derives the target quote from the snapshot's asks and the order notional.
/// Fails with `InsufficientDepth` when there is no ask level, and with
/// `PriceRoundsToZero` when the scaled mean is below half a thousandth.
pub fn derive_quote(snapshot: &OrderBookSnapshot, order_size_usd: u64) -> (r: Result<TargetQuote, QuoteError>)
    ensures
        r == quote_of(snapshot.asks@, order_size_usd as nat),
{
    if snapshot.asks.len() == 0 {
        return Err(QuoteError::InsufficientDepth);
    }
    let (sum, n) = top_levels_sum(&snapshot.asks);
    let price_milli = round_nearest_exec(6 * sum, 500_000 * (n as u128));
    if price_milli == 0 {
        return Err(QuoteError::PriceRoundsToZero);
    }
    let size = round_nearest_exec(1000 * (order_size_usd as u128), price_milli);
    Ok(TargetQuote { price_milli, size })
}

/// For every snapshot with at least one ask level whose scaled mean reaches
/// half a thousandth, a quote is derived and its price is positive; and the
/// quote is a function of the asks and the notional alone, so two snapshots
/// with the same asks give the same quote.
pub proof fn lemma_quote_price_positive(a: OrderBookSnapshot, b: OrderBookSnapshot, order_size_usd: u64)
    requires
        a.asks@.len() >= 1,
        12 * top_sum(a.asks@) >= 500_000 * top_count(a.asks@),
        b.asks@ == a.asks@,
    ensures
        quote_of(a.asks@, order_size_usd as nat) is Ok,
        quote_of(a.asks@, order_size_usd as nat)->Ok_0.price_milli > 0,
        quote_of(b.asks@, order_size_usd as nat) == quote_of(a.asks@, order_size_usd as nat),
{
    let s = top_sum(a.asks@);
    let d = 500_000 * top_count(a.asks@);
    assert(d > 0);
    assert((2 * (6 * s) + d) / (2 * d) >= 1) by (nonlinear_arith)
        requires
            12 * s >= d,
            d > 0,
    {
        assert(2 * (6 * s) + d >= 2 * d);
    }
    assert((2 * (6 * s) + d) / (2 * d) <= 6 * s + 1) by (nonlinear_arith)
        requires
            d > 0,
    {
        assert(2 * (6 * s) + d <= (2 * d) * (6 * s + 1));
    }
    lemma_price_sum_bound(a.asks@, top_count(a.asks@));
    assert(top_count(a.asks@) * (u64::MAX as nat) <= 10 * (u64::MAX as nat)) by (nonlinear_arith)
        requires
            top_count(a.asks@) <= 10,
    ;
}

} // verus!

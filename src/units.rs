use vstd::prelude::*;

verus! {

/// Units of money in one currency unit: what one lot with a multiplier of
/// one gains when the price rises by one price unit.
pub const MONEY_SCALE: i128 = 1_000_000_000;

/// Half of `MONEY_SCALE`: the money value of half a price unit. Reference
/// prices are kept doubled so that a mid price stays an integer.
pub const HALF_MONEY: i128 = 500_000_000;

/// Commission rates are given in units of `1 / RATE_SCALE`.
pub const RATE_SCALE: i128 = 100_000_000;

/// Money units per rate unit: `MONEY_SCALE / RATE_SCALE`.
pub const RATE_TO_MONEY: i128 = 10;

/// Fractions (target positions, signals of equity share, leverage) are given
/// in units of `1 / FRACTION_SCALE`.
pub const FRACTION_SCALE: i128 = 10_000;

/// The scale of cash times leverage times target position:
/// `MONEY_SCALE * FRACTION_SCALE * FRACTION_SCALE`.
pub const SIZING_SCALE: i128 = 100_000_000_000_000_000;

/// Largest accepted price.
pub const MAX_PRICE: i64 = 4_294_967_296;

/// Largest accepted contract multiplier.
pub const MAX_MULTIPLIER: i64 = 65_536;

/// Largest accepted commission rate, in rate units.
pub const MAX_RATE: i64 = 68_719_476_736;

/// Largest position, in lots, that an account may hold.
pub const MAX_LOTS: i64 = 4_294_967_296;

/// Largest accepted absolute fraction (signal or target position).
pub const MAX_FRACTION: i64 = 65_536;

/// Largest accepted leverage, in fraction units.
pub const MAX_LEVERAGE: i64 = 1_048_576;

/// Largest accepted slippage (in ticks) and tick size (in price units).
pub const MAX_TICKS: i64 = 65_536;

/// Largest accepted initial cash, in currency units.
pub const MAX_INIT_CASH: u64 = 1_000_000_000_000_000_000;

/// Largest absolute cash or realized profit an account may reach, in money
/// units.
pub const MAX_CASH: i128 = 1_237_940_039_285_380_274_899_124_224;

/// Bound on the cost of trading one lot, in money units.
pub const MAX_LOT_COST: i128 = 618_970_019_642_690_137_449_562_112;

/// How commission is charged.
#[derive(Clone, Copy, Debug, PartialEq, Eq, Structural)]
pub enum CommissionType {
    /// The rate applies to the notional traded (price times rate).
    Percent,
    /// The rate is a fixed amount per lot.
    Absolute,
}

/// How a tick signal is read.
#[derive(Clone, Copy, Debug, PartialEq, Eq, Structural)]
pub enum SignalType {
    /// The signal is the target share of current equity.
    Percent,
    /// The signal is the target number of lots.
    Absolute,
}

/// How the open price follows an increase of the position.
#[derive(Clone, Copy, Debug, PartialEq, Eq, Structural)]
pub enum OpenPriceMethod {
    /// The size-weighted average of the old basis and the new fill.
    Average,
    /// The first fill is kept.
    First,
    /// The latest fill replaces the basis.
    Last,
}

/// Why a run stopped.
#[derive(Clone, Copy, Debug, PartialEq, Eq, Structural)]
pub enum EngineError {
    /// The account left the range of values it can hold (`MAX_CASH`,
    /// `MAX_LOTS`).
    Overflow,
    /// Percent signals are not defined for the full attribution engine.
    Unsupported,
}

pub open spec fn sign(x: int) -> int {
    if x > 0 {
        1
    } else if x < 0 {
        -1
    } else {
        0
    }
}

pub open spec fn magnitude(x: int) -> int {
    if x < 0 {
        -x
    } else {
        x
    }
}

pub open spec fn cash_ok(x: int) -> bool {
    -MAX_CASH <= x <= MAX_CASH
}

pub open spec fn lots_ok(x: int) -> bool {
    -MAX_LOTS <= x <= MAX_LOTS
}

pub open spec fn price_ok(p: int) -> bool {
    0 < p <= MAX_PRICE
}

/// Initial cash in money units.
pub open spec fn init_money(init_cash: u64) -> int {
    init_cash as int * MONEY_SCALE
}

/// Magnitude bound of a product from bounds of its factors.
pub proof fn lemma_mul_bound(a: int, b: int, x: int, y: int)
    requires
        -x <= a <= x,
        -y <= b <= y,
    ensures
        -(x * y) <= a * b <= x * y,
{
    assert(-(x * y) <= a * b <= x * y) by (nonlinear_arith)
        requires
            -x <= a <= x,
            -y <= b <= y,
    ;
}

/// A product of positive factors is positive.
pub proof fn lemma_mul_pos(a: int, b: int)
    requires
        a > 0,
        b > 0,
    ensures
        a * b > 0,
{
    assert(a * b > 0) by (nonlinear_arith)
        requires
            a > 0,
            b > 0,
    ;
}

/// `k * m * p` for positive factors within bounds.
pub(crate) fn positive_product(k: i128, m: i64, p: i128) -> (r: i128)
    requires
        0 < k <= SIZING_SCALE,
        0 < m <= MAX_MULTIPLIER,
        0 < p <= 2 * MAX_PRICE,
    ensures
        r == k * m * p,
        r > 0,
{
    proof {
        lemma_mul_pos(k as int, m as int);
        lemma_mul_pos(k * m, p as int);
        lemma_mul_bound(k as int, m as int, SIZING_SCALE as int, MAX_MULTIPLIER as int);
        lemma_mul_bound(k * m, p as int, SIZING_SCALE * MAX_MULTIPLIER, 2 * MAX_PRICE);
    }
    k * (m as i128) * p
}

pub(crate) fn sign_of(x: i128) -> (r: i128)
    ensures
        r == sign(x as int),
{
    if x > 0 {
        1
    } else if x < 0 {
        -1
    } else {
        0
    }
}

pub(crate) fn magnitude_of(x: i128) -> (r: i128)
    requires
        x > i128::MIN,
    ensures
        r == magnitude(x as int),
{
    if x < 0 {
        -x
    } else {
        x
    }
}

/// Division rounded towards negative infinity.
pub(crate) fn floor_div(a: i128, b: i128) -> (r: i128)
    requires
        b > 0,
    ensures
        r == a as int / b as int,
{
    assert(i128::MIN <= a as int / b as int <= i128::MAX) by (nonlinear_arith)
        requires
            b > 0,
            i128::MIN <= a <= i128::MAX,
    ;
    match a.checked_div_euclid(b) {
        Some(q) => q,
        None => 0,
    }
}

/// Money value of `lots` lots moving by `delta2` half price units.
pub open spec fn move_value(lots: int, delta2: int, multiplier: int) -> int {
    lots * delta2 * multiplier * HALF_MONEY
}

pub(crate) fn move_value_of(lots: i128, delta2: i128, multiplier: i64) -> (r: i128)
    requires
        lots_ok(lots as int),
        -2 * MAX_PRICE <= delta2 <= 2 * MAX_PRICE,
        0 < multiplier <= MAX_MULTIPLIER,
    ensures
        r == move_value(lots as int, delta2 as int, multiplier as int),
        -(MAX_LOTS * (2 * MAX_PRICE) * MAX_MULTIPLIER * HALF_MONEY) <= r <= MAX_LOTS * (2
            * MAX_PRICE) * MAX_MULTIPLIER * HALF_MONEY,
{
    proof {
        lemma_mul_bound(lots as int, delta2 as int, MAX_LOTS as int, 2 * MAX_PRICE);
        lemma_mul_bound(
            lots * delta2,
            multiplier as int,
            MAX_LOTS * (2 * MAX_PRICE),
            MAX_MULTIPLIER as int,
        );
        lemma_mul_bound(
            lots * delta2 * multiplier,
            HALF_MONEY as int,
            MAX_LOTS * (2 * MAX_PRICE) * MAX_MULTIPLIER,
            HALF_MONEY as int,
        );
    }
    lots * delta2 * (multiplier as i128) * HALF_MONEY
}

/// The charge for trading `lots` lots at `cost` per lot.
pub(crate) fn charge_of(lots: i128, cost: i128) -> (r: i128)
    requires
        -2 * MAX_LOTS <= lots <= 2 * MAX_LOTS,
        -MAX_LOT_COST <= cost <= MAX_LOT_COST,
    ensures
        r == lots * cost,
        -(2 * MAX_LOTS * MAX_LOT_COST) <= r <= 2 * MAX_LOTS * MAX_LOT_COST,
{
    proof {
        lemma_mul_bound(lots as int, cost as int, 2 * MAX_LOTS, MAX_LOT_COST as int);
    }
    lots * cost
}

} // verus!

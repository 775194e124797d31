use vstd::prelude::*;

use crate::account::{account_ok, initial_account, lot_cost, lot_cost_of, Account, PositionState};
use crate::tick_future_ret::{lemma_take_last, opt_int, read_flag, ticks_of, tick_inputs_ok, Tick};
use crate::units::{
    cash_ok, charge_of, init_money, lemma_mul_bound, lots_ok, magnitude, magnitude_of,
    move_value, move_value_of, price_ok, sign, CommissionType, EngineError, OpenPriceMethod,
    SignalType, MAX_CASH, MAX_INIT_CASH, MAX_LOTS, MAX_LOT_COST, MAX_MULTIPLIER, MAX_PRICE,
    MAX_RATE, MONEY_SCALE, RATE_TO_MONEY,
};

verus! {

/// Configuration of the full attribution engine.
#[derive(Clone, Copy, Debug)]
pub struct TickFutureRetFullKwargs {
    /// Initial cash, in currency units.
    pub init_cash: u64,
    /// Contract multiplier.
    pub multiplier: i64,
    /// Commission rate, in rate units (`1 / RATE_SCALE`).
    pub c_rate: i64,
    /// Whether unrealized profit is held at zero once cash is exhausted.
    pub blowup: bool,
    pub commission_type: CommissionType,
    pub signal_type: SignalType,
    pub open_price_method: OpenPriceMethod,
}

impl TickFutureRetFullKwargs {
    pub open spec fn wf(self) -> bool {
        &&& self.init_cash <= MAX_INIT_CASH
        &&& 0 < self.multiplier <= MAX_MULTIPLIER
        &&& -MAX_RATE <= self.c_rate <= MAX_RATE
    }
}

impl TickFutureRetFullKwargs {
    /// Whether the configuration is within the ranges the engine accepts.
    pub fn is_valid(&self) -> (r: bool)
        ensures
            r == self.wf(),
    {
        self.init_cash <= MAX_INIT_CASH && 0 < self.multiplier && self.multiplier <= MAX_MULTIPLIER
            && -MAX_RATE <= self.c_rate && self.c_rate <= MAX_RATE
    }
}

impl Default for TickFutureRetFullKwargs {
    /// No initial cash, a multiplier of one, a commission of 0.03% of
    /// notional, no blowup, lot-count signals and the average open price.
    fn default() -> (r: Self)
        ensures
            r == (TickFutureRetFullKwargs {
                init_cash: 0,
                multiplier: 1,
                c_rate: 30_000,
                blowup: false,
                commission_type: CommissionType::Percent,
                signal_type: SignalType::Absolute,
                open_price_method: OpenPriceMethod::Average,
            }),
    {
        TickFutureRetFullKwargs {
            init_cash: 0,
            multiplier: 1,
            c_rate: 30_000,
            blowup: false,
            commission_type: CommissionType::Percent,
            signal_type: SignalType::Absolute,
            open_price_method: OpenPriceMethod::Average,
        }
    }
}

/// Profit attribution of one step, in money units; the open price is in
/// money units per lot (price times `MONEY_SCALE`), `None` when flat.
#[derive(Clone, Copy, Debug, PartialEq, Eq, Structural)]
pub struct Profit {
    pub unrealized: i128,
    pub realized: i128,
    pub open_price: Option<i128>,
}

impl From<(i128, i128, Option<i128>)> for Profit {
    /// A record from `(unrealized, realized, open_price)`.
    fn from(v: (i128, i128, Option<i128>)) -> (r: Profit)
        ensures
            r == (Profit { unrealized: v.0, realized: v.1, open_price: v.2 }),
    {
        Profit { unrealized: v.0, realized: v.1, open_price: v.2 }
    }
}

impl vstd::std_specs::convert::FromSpecImpl<(i128, i128, Option<i128>)> for Profit {
    open spec fn obeys_from_spec() -> bool {
        true
    }

    open spec fn from_spec(v: (i128, i128, Option<i128>)) -> Profit {
        Profit { unrealized: v.0, realized: v.1, open_price: v.2 }
    }
}

/// A `Profit` as mathematical values.
pub struct ProfitView {
    pub unrealized: int,
    pub realized: int,
    pub open_price: Option<int>,
}

impl View for Profit {
    type V = ProfitView;

    open spec fn view(&self) -> ProfitView {
        ProfitView {
            unrealized: self.unrealized as int,
            realized: self.realized as int,
            open_price: match self.open_price {
                Some(p) => Some(p as int),
                None => None,
            },
        }
    }
}

/// Commission booked against realized profit for one lot filled at `price`.
pub open spec fn lot_fee(commission: CommissionType, multiplier: int, rate: int, price: int) -> int {
    match commission {
        CommissionType::Percent => price * rate * RATE_TO_MONEY * multiplier,
        CommissionType::Absolute => rate * RATE_TO_MONEY,
    }
}

/// Profit of closing `lots` (signed as the position they close) at `price`
/// against the open price `basis`.
pub open spec fn realize(basis: Option<int>, price: int, lots: int, multiplier: int) -> int {
    match basis {
        Some(b) => (price * MONEY_SCALE - b) * lots * multiplier,
        None => 0,
    }
}

/// The open price after increasing a position of `last` lots to `next` lots
/// with a fill at `price`.
pub open spec fn increased_basis(
    method: OpenPriceMethod,
    basis: Option<int>,
    last: int,
    next: int,
    price: int,
) -> Option<int> {
    match method {
        OpenPriceMethod::First => basis,
        OpenPriceMethod::Last => Some(price * MONEY_SCALE),
        OpenPriceMethod::Average => match basis {
            Some(b) => Some(
                (b * magnitude(last) + price * MONEY_SCALE * (magnitude(next) - magnitude(last)))
                    / magnitude(next),
            ),
            None => None,
        },
    }
}

/// How a trade from `last` lots to `next` lots (`next != last`) at `price`
/// changes realized profit and the open price.
pub open spec fn attribute(
    method: OpenPriceMethod,
    basis: Option<int>,
    last: int,
    next: int,
    price: int,
    multiplier: int,
) -> (int, Option<int>) {
    if last == 0 {
        (0, Some(price * MONEY_SCALE))
    } else if next == 0 {
        (realize(basis, price, last, multiplier), None)
    } else if sign(next) != sign(last) {
        (realize(basis, price, last, multiplier), Some(price * MONEY_SCALE))
    } else if magnitude(last) > magnitude(next) {
        (realize(basis, price, magnitude(last) - magnitude(next), multiplier), basis)
    } else {
        (0, increased_basis(method, basis, last, next, price))
    }
}

/// One tick of the full attribution engine with a lot-count signal `s`.
pub open spec fn full_tick(
    kw: TickFutureRetFullKwargs,
    st: Account,
    s: int,
    bid: int,
    ask: int,
    rollover: bool,
) -> Option<(Account, ProfitView)> {
    let m = kw.multiplier as int;
    let cost = |price2: int| lot_cost(kw.commission_type, m, kw.c_rate as int, price2, ask - bid);
    let fee = |price: int| lot_fee(kw.commission_type, m, kw.c_rate as int, price);
    let mid2 = bid + ask;
    let reopen = st.rollover && st.lot != 0;
    let reopen_price = if st.lot > 0 {
        ask
    } else {
        bid
    };
    let basis = if reopen {
        Some(reopen_price * MONEY_SCALE)
    } else {
        st.open_price
    };
    let cash1 = if reopen {
        st.cash - magnitude(st.lot) * cost(mid2)
    } else {
        st.cash
    };
    let real1 = if reopen {
        st.realized - magnitude(st.lot) * fee(reopen_price)
    } else {
        st.realized
    };
    let cash2 = if st.lot != 0 && st.ref2 != 0 && !st.rollover {
        cash1 + move_value(st.lot, mid2 - st.ref2, m)
    } else {
        cash1
    };
    let out = ProfitView {
        unrealized: cash2 - init_money(kw.init_cash),
        realized: real1,
        open_price: basis,
    };
    if !cash_ok(cash2) {
        None
    } else if s != st.lot || rollover {
        let delta = s - st.lot;
        let price = if rollover {
            if st.lot > 0 {
                bid
            } else {
                ask
            }
        } else if delta > 0 {
            ask
        } else {
            bid
        };
        let traded = if rollover {
            magnitude(st.lot)
        } else {
            magnitude(delta)
        };
        let (gain, next_basis) = if rollover {
            (realize(basis, price, st.lot, m), None)
        } else {
            attribute(kw.open_price_method, basis, st.lot, s, price, m)
        };
        let cash3 = cash2 - traded * cost(
            if rollover {
                mid2
            } else {
                2 * price
            },
        );
        let real3 = real1 + gain - traded * fee(price);
        if !cash_ok(cash3) || !cash_ok(real3) {
            None
        } else {
            Some(
                (
                    Account {
                        cash: cash3,
                        lot: s,
                        ref2: mid2,
                        open_price: next_basis,
                        realized: real3,
                        rollover,
                        ..st
                    },
                    out,
                ),
            )
        }
    } else if !cash_ok(real1) {
        None
    } else {
        Some(
            (
                Account { cash: cash2, ref2: mid2, open_price: basis, realized: real1, rollover, ..st },
                out,
            ),
        )
    }
}

/// One step of the full attribution engine.
pub open spec fn full_step(kw: TickFutureRetFullKwargs, st: Account, x: Tick) -> Option<
    (Account, ProfitView),
> {
    if x.signal is None || x.bid is None || x.ask is None {
        Some(
            (
                st,
                ProfitView {
                    unrealized: st.cash - init_money(kw.init_cash),
                    realized: st.realized,
                    open_price: st.open_price,
                },
            ),
        )
    } else if kw.blowup && st.cash <= 0 {
        Some((st, ProfitView { unrealized: 0, realized: st.realized, open_price: st.open_price }))
    } else {
        full_tick(kw, st, x.signal.unwrap(), x.bid.unwrap(), x.ask.unwrap(), x.rollover)
    }
}

/// The account after the ticks `xs` and the profit records so far.
pub open spec fn full_run(kw: TickFutureRetFullKwargs, xs: Seq<Tick>) -> Option<
    (Account, Seq<ProfitView>),
>
    decreases xs.len(),
{
    if xs.len() == 0 {
        Some((initial_account(kw.init_cash), seq![]))
    } else {
        match full_run(kw, xs.drop_last()) {
            Some((st, outs)) => match full_step(kw, st, xs.last()) {
                Some((next, out)) => Some((next, outs.push(out))),
                None => None,
            },
            None => None,
        }
    }
}

pub open spec fn full_outputs(kw: TickFutureRetFullKwargs, xs: Seq<Tick>) -> Option<Seq<ProfitView>> {
    match full_run(kw, xs) {
        Some((_, outs)) => Some(outs),
        None => None,
    }
}

pub open spec fn profit_views(v: Seq<Profit>) -> Seq<ProfitView> {
    v.map_values(|p: Profit| p@)
}

/// A size-weighted blend of two prices lies between any bounds of both.
pub proof fn lemma_blend_between(b: int, p: int, x: int, y: int, lo: int, hi: int)
    requires
        x > 0,
        y > 0,
        lo <= b <= hi,
        lo <= p <= hi,
    ensures
        lo <= (b * x + p * y) / (x + y) <= hi,
{
    assert(lo * (x + y) <= b * x + p * y <= hi * (x + y)) by (nonlinear_arith)
        requires
            x > 0,
            y > 0,
            lo <= b <= hi,
            lo <= p <= hi,
    ;
    let n = b * x + p * y;
    let d = x + y;
    assert(lo <= n / d <= hi) by (nonlinear_arith)
        requires
            d > 0,
            lo * d <= n <= hi * d,
    ;
}

pub open spec fn basis_ok(basis: Option<int>) -> bool {
    match basis {
        Some(b) => 0 <= b <= MAX_PRICE * MONEY_SCALE,
        None => true,
    }
}

fn lot_fee_of(commission: CommissionType, multiplier: i64, rate: i64, price: i64) -> (r: i128)
    requires
        0 < multiplier <= MAX_MULTIPLIER,
        -MAX_RATE <= rate <= MAX_RATE,
        price_ok(price as int),
    ensures
        r == lot_fee(commission, multiplier as int, rate as int, price as int),
        -MAX_LOT_COST <= r <= MAX_LOT_COST,
{
    proof {
        lemma_mul_bound(price as int, rate as int, MAX_PRICE as int, MAX_RATE as int);
        lemma_mul_bound(
            price * rate * RATE_TO_MONEY,
            multiplier as int,
            MAX_PRICE * MAX_RATE * RATE_TO_MONEY,
            MAX_MULTIPLIER as int,
        );
    }
    match commission {
        CommissionType::Percent => (price as i128) * (rate as i128) * RATE_TO_MONEY * (
        multiplier as i128),
        CommissionType::Absolute => (rate as i128) * RATE_TO_MONEY,
    }
}

fn realize_of(basis: Option<i128>, price: i64, lots: i128, multiplier: i64) -> (r: i128)
    requires
        basis_ok(opt_wide(basis)),
        price_ok(price as int),
        lots_ok(lots as int),
        0 < multiplier <= MAX_MULTIPLIER,
    ensures
        r == realize(opt_wide(basis), price as int, lots as int, multiplier as int),
        -MAX_GAIN <= r <= MAX_GAIN,
{
    match basis {
        Some(b) => {
            let diff: i128 = (price as i128) * MONEY_SCALE - b;
            proof {
                lemma_mul_bound(diff as int, lots as int, MAX_PRICE * MONEY_SCALE, MAX_LOTS as int);
                lemma_mul_bound(
                    diff * lots,
                    multiplier as int,
                    MAX_PRICE * MONEY_SCALE * MAX_LOTS,
                    MAX_MULTIPLIER as int,
                );
            }
            diff * lots * (multiplier as i128)
        },
        None => 0,
    }
}

/// Bound on the profit of closing one position at once.
pub const MAX_GAIN: i128 = 1_298_074_214_633_706_907_132_624_082_305_024;

pub open spec fn opt_wide(x: Option<i128>) -> Option<int> {
    match x {
        Some(v) => Some(v as int),
        None => None,
    }
}

fn attribute_of(
    method: OpenPriceMethod,
    basis: Option<i128>,
    last: i128,
    next: i128,
    price: i64,
    multiplier: i64,
) -> (r: (i128, Option<i128>))
    requires
        basis_ok(opt_wide(basis)),
        price_ok(price as int),
        lots_ok(last as int),
        lots_ok(next as int),
        last != next,
        0 < multiplier <= MAX_MULTIPLIER,
    ensures
        (r.0 as int, opt_wide(r.1)) == attribute(
            method,
            opt_wide(basis),
            last as int,
            next as int,
            price as int,
            multiplier as int,
        ),
        -MAX_GAIN <= r.0 <= MAX_GAIN,
        basis_ok(opt_wide(r.1)),
{
    let fill: i128 = (price as i128) * MONEY_SCALE;
    let last_size = magnitude_of(last);
    let next_size = magnitude_of(next);
    if last == 0 {
        (0, Some(fill))
    } else if next == 0 {
        (realize_of(basis, price, last, multiplier), None)
    } else if (next > 0) != (last > 0) {
        (realize_of(basis, price, last, multiplier), Some(fill))
    } else if last_size > next_size {
        (realize_of(basis, price, last_size - next_size, multiplier), basis)
    } else {
        let b = match method {
            OpenPriceMethod::First => basis,
            OpenPriceMethod::Last => Some(fill),
            OpenPriceMethod::Average => match basis {
                Some(b) => {
                    let added = next_size - last_size;
                    proof {
                        lemma_blend_between(
                            b as int,
                            fill as int,
                            last_size as int,
                            added as int,
                            0,
                            MAX_PRICE * MONEY_SCALE,
                        );
                        lemma_mul_bound(b as int, last_size as int, MAX_PRICE * MONEY_SCALE, MAX_LOTS as int);
                        lemma_mul_bound(fill as int, added as int, MAX_PRICE * MONEY_SCALE, 2 * MAX_LOTS);
                    }
                    Some(crate::units::floor_div(b * last_size + fill * added, next_size))
                },
                None => None,
            },
        };
        (0, b)
    }
}

fn full_tick_exec(
    kw: &TickFutureRetFullKwargs,
    st: &mut PositionState,
    s: i64,
    bid: i64,
    ask: i64,
    rollover: bool,
) -> (r: Option<Profit>)
    requires
        kw.wf(),
        account_ok(old(st)@),
        price_ok(bid as int),
        price_ok(ask as int),
        lots_ok(s as int),
    ensures
        match full_tick(*kw, old(st)@, s as int, bid as int, ask as int, rollover) {
            Some((next, out)) => r is Some && r.unwrap()@ == out && final(st)@ == next && account_ok(
                next,
            ),
            None => r is None,
        },
{
    let m = kw.multiplier;
    let rate = kw.c_rate;
    let ct = kw.commission_type;
    let mid2: i128 = bid as i128 + ask as i128;
    let gap: i128 = ask as i128 - bid as i128;
    let last = st.last_lot;
    let reopen = st.last_rollover && last != 0;
    let reopen_price: i64 = if last > 0 {
        ask
    } else {
        bid
    };
    let mut basis = st.open_price;
    let mut cash: i128 = st.cash;
    let mut realized: i128 = st.realized;
    if reopen {
        basis = Some((reopen_price as i128) * MONEY_SCALE);
        cash = cash - charge_of(magnitude_of(last), lot_cost_of(ct, m, rate, mid2, gap));
        realized = realized - charge_of(magnitude_of(last), lot_fee_of(ct, m, rate, reopen_price));
    }
    if last != 0 && st.last_ref2 != 0 && !st.last_rollover {
        cash = cash + move_value_of(last, mid2 - st.last_ref2, m);
    }
    if cash < -MAX_CASH || cash > MAX_CASH {
        return None;
    }
    let init: i128 = (kw.init_cash as i128) * MONEY_SCALE;
    let out = Profit { unrealized: cash - init, realized, open_price: basis };
    if s as i128 != last || rollover {
        let delta: i128 = s as i128 - last;
        let price: i64 = if rollover {
            if last > 0 {
                bid
            } else {
                ask
            }
        } else if delta > 0 {
            ask
        } else {
            bid
        };
        let traded: i128 = if rollover {
            magnitude_of(last)
        } else {
            magnitude_of(delta)
        };
        let (gain, next_basis) = if rollover {
            (realize_of(basis, price, last, m), None)
        } else {
            attribute_of(kw.open_price_method, basis, last, s as i128, price, m)
        };
        let price2: i128 = if rollover {
            mid2
        } else {
            2 * price as i128
        };
        let cash3 = cash - charge_of(traded, lot_cost_of(ct, m, rate, price2, gap));
        let real3 = realized + gain - charge_of(traded, lot_fee_of(ct, m, rate, price));
        if cash3 < -MAX_CASH || cash3 > MAX_CASH || real3 < -MAX_CASH || real3 > MAX_CASH {
            return None;
        }
        st.cash = cash3;
        st.last_lot = s as i128;
        st.open_price = next_basis;
        st.realized = real3;
    } else {
        if realized < -MAX_CASH || realized > MAX_CASH {
            return None;
        }
        st.cash = cash;
        st.open_price = basis;
        st.realized = realized;
    }
    st.last_ref2 = mid2;
    st.last_rollover = rollover;
    Some(out)
}

/// The outcome of a whole run: one profit record per tick, the overflow
/// error exactly when the account leaves its range, and the unsupported
/// error for percent signals.
pub open spec fn full_run_matches(
    r: Result<Vec<Profit>, EngineError>,
    kw: TickFutureRetFullKwargs,
    xs: Seq<Tick>,
) -> bool {
    match kw.signal_type {
        SignalType::Percent => r == Err::<Vec<Profit>, EngineError>(EngineError::Unsupported),
        SignalType::Absolute => match (r, full_outputs(kw, xs)) {
            (Ok(v), Some(o)) => profit_views(v@) == o,
            (Err(e), None) => e == EngineError::Overflow,
            _ => false,
        },
    }
}

fn full_step_exec(
    kw: &TickFutureRetFullKwargs,
    st: &mut PositionState,
    signal: Option<i64>,
    bid: Option<i64>,
    ask: Option<i64>,
    rollover: bool,
) -> (r: Option<Profit>)
    requires
        kw.wf(),
        account_ok(old(st)@),
        bid is Some ==> price_ok(bid.unwrap() as int),
        ask is Some ==> price_ok(ask.unwrap() as int),
        signal is Some ==> lots_ok(signal.unwrap() as int),
    ensures
        match full_step(
            *kw,
            old(st)@,
            Tick { signal: opt_int(signal), bid: opt_int(bid), ask: opt_int(ask), rollover },
        ) {
            Some((next, out)) => r is Some && r.unwrap()@ == out && final(st)@ == next && account_ok(
                next,
            ),
            None => r is None,
        },
{
    match (signal, bid, ask) {
        (Some(s), Some(b), Some(a)) => {
            if kw.blowup && st.cash <= 0 {
                Some(Profit { unrealized: 0, realized: st.realized, open_price: st.open_price })
            } else {
                full_tick_exec(kw, st, s, b, a, rollover)
            }
        },
        _ => Some(
            Profit {
                unrealized: st.cash - (kw.init_cash as i128) * MONEY_SCALE,
                realized: st.realized,
                open_price: st.open_price,
            },
        ),
    }
}

/// Once a run overflows, every longer run over the same ticks does too.
proof fn lemma_full_overflow_stays(kw: TickFutureRetFullKwargs, xs: Seq<Tick>, k: int)
    requires
        0 <= k <= xs.len(),
        full_run(kw, xs.take(k)) is None,
    ensures
        full_run(kw, xs) is None,
    decreases xs.len() - k,
{
    if k < xs.len() {
        lemma_take_last(xs, k);
        lemma_full_overflow_stays(kw, xs, k + 1);
    } else {
        assert(xs.take(k) =~= xs);
    }
}

/// Profit attribution per tick of an account driven by a target lot count
/// and bid/ask quotes: unrealized profit (cash against initial cash),
/// realized profit net of fees, and the open price of the position. Percent
/// signals are refused.
pub fn calc_tick_future_ret_full(
    signal_vec: &Vec<Option<i64>>,
    bid_vec: &Vec<Option<i64>>,
    ask_vec: &Vec<Option<i64>>,
    contract_chg_signal_vec: Option<&Vec<Option<bool>>>,
    kwargs: &TickFutureRetFullKwargs,
) -> (r: Result<Vec<Profit>, EngineError>)
    requires
        kwargs.wf(),
        tick_inputs_ok(
            SignalType::Absolute,
            signal_vec@,
            bid_vec@,
            ask_vec@,
            contract_chg_signal_vec,
        ),
    ensures
        full_run_matches(
            r,
            *kwargs,
            ticks_of(signal_vec@, bid_vec@, ask_vec@, contract_chg_signal_vec),
        ),
{
    if let SignalType::Percent = kwargs.signal_type {
        return Err(EngineError::Unsupported);
    }
    let ghost xs = ticks_of(signal_vec@, bid_vec@, ask_vec@, contract_chg_signal_vec);
    let n = signal_vec.len();
    let mut st = PositionState::new(kwargs.init_cash);
    let mut out: Vec<Profit> = Vec::new();
    let mut i: usize = 0;
    proof {
        assert(xs.take(0) =~= Seq::<Tick>::empty());
        assert(profit_views(out@) =~= Seq::<ProfitView>::empty());
    }
    while i < n
        invariant
            n == signal_vec@.len(),
            xs == ticks_of(signal_vec@, bid_vec@, ask_vec@, contract_chg_signal_vec),
            kwargs.wf(),
            kwargs.signal_type == SignalType::Absolute,
            tick_inputs_ok(
                SignalType::Absolute,
                signal_vec@,
                bid_vec@,
                ask_vec@,
                contract_chg_signal_vec,
            ),
            0 <= i <= n,
            account_ok(st@),
            full_run(*kwargs, xs.take(i as int)) == Some((st@, profit_views(out@))),
        decreases n - i,
    {
        let rollover = read_flag(contract_chg_signal_vec, i);
        let signal = signal_vec[i];
        let bid = bid_vec[i];
        let ask = ask_vec[i];
        proof {
            lemma_take_last(xs, i as int);
            assert(xs[i as int] == Tick {
                signal: opt_int(signal),
                bid: opt_int(bid),
                ask: opt_int(ask),
                rollover,
            });
        }
        match full_step_exec(kwargs, &mut st, signal, bid, ask, rollover) {
            Some(o) => {
                proof {
                    assert(profit_views(out@.push(o)) =~= profit_views(out@).push(o@));
                }
                out.push(o);
            },
            None => {
                proof {
                    lemma_full_overflow_stays(*kwargs, xs, i as int + 1);
                }
                return Err(EngineError::Overflow);
            },
        }
        i = i + 1;
    }
    proof {
        assert(xs.take(n as int) =~= xs);
    }
    Ok(out)
}

} // verus!

use vstd::prelude::*;

use crate::account::{account_ok, initial_account, Account, PositionState};
use crate::tick_future_ret::{as_ints, lemma_take_last, opt_int, read_flag, rollover_at, run_matches};
use crate::units::{
    cash_ok, charge_of, floor_div, lemma_mul_bound, lots_ok, magnitude,
    magnitude_of, move_value, move_value_of, price_ok, sign, sign_of, CommissionType, EngineError,
    SIZING_SCALE, positive_product, MAX_CASH, MAX_FRACTION, MAX_INIT_CASH, MAX_LEVERAGE, MAX_LOTS, MAX_LOT_COST,
    MAX_MULTIPLIER, MAX_PRICE, MAX_RATE, MAX_TICKS, MONEY_SCALE, RATE_TO_MONEY,
};

verus! {

/// Configuration of the bar-level engine.
#[derive(Clone, Copy, Debug)]
pub struct FutureRetKwargs {
    /// Initial cash, in currency units.
    pub init_cash: u64,
    /// Contract multiplier.
    pub multiplier: i64,
    /// Leverage, in fraction units; constant over a run.
    pub leverage: i64,
    /// Slippage, in ticks.
    pub slippage: i64,
    /// Tick size, in price units.
    pub ticksize: i64,
    /// Commission rate, in rate units (`1 / RATE_SCALE`).
    pub c_rate: i64,
    /// Whether output is held at zero once cash is exhausted.
    pub blowup: bool,
    pub commission_type: CommissionType,
}

/// Configuration of the bar-level engine with an explicit spread per bar.
#[derive(Clone, Copy, Debug)]
pub struct FutureRetSpreadKwargs {
    /// Initial cash, in currency units.
    pub init_cash: u64,
    /// Contract multiplier.
    pub multiplier: i64,
    /// Leverage, in fraction units; constant over a run.
    pub leverage: i64,
    /// Commission rate, in rate units (`1 / RATE_SCALE`).
    pub c_rate: i64,
    /// Whether output is held at zero once cash is exhausted.
    pub blowup: bool,
    pub commission_type: CommissionType,
}

/// Where the trading cost beyond commission comes from.
#[derive(Clone, Copy, Debug)]
pub enum BarCostModel {
    /// A fixed slippage of `slippage` ticks of `ticksize` price units.
    Slippage { slippage: i64, ticksize: i64 },
    /// The spread given with each bar, or the commission again where absent.
    Spread,
}

/// The parameters that both bar engines share.
#[derive(Clone, Copy, Debug)]
pub struct BarParams {
    pub init_cash: u64,
    pub multiplier: i64,
    pub leverage: i64,
    pub c_rate: i64,
    pub blowup: bool,
    pub commission_type: CommissionType,
    pub model: BarCostModel,
}

impl BarParams {
    pub open spec fn wf(self) -> bool {
        &&& self.init_cash <= MAX_INIT_CASH
        &&& 0 < self.multiplier <= MAX_MULTIPLIER
        &&& -MAX_LEVERAGE <= self.leverage <= MAX_LEVERAGE
        &&& -MAX_RATE <= self.c_rate <= MAX_RATE
        &&& match self.model {
            BarCostModel::Slippage { slippage, ticksize } => -MAX_TICKS <= slippage <= MAX_TICKS && -MAX_TICKS
                <= ticksize <= MAX_TICKS,
            BarCostModel::Spread => true,
        }
    }
}

impl BarParams {
    /// Whether the parameters are within the ranges the engine accepts.
    pub fn is_valid(&self) -> (r: bool)
        ensures
            r == self.wf(),
    {
        let costs_ok = match self.model {
            BarCostModel::Slippage { slippage, ticksize } => -MAX_TICKS <= slippage && slippage
                <= MAX_TICKS && -MAX_TICKS <= ticksize && ticksize <= MAX_TICKS,
            BarCostModel::Spread => true,
        };
        self.init_cash <= MAX_INIT_CASH && 0 < self.multiplier && self.multiplier <= MAX_MULTIPLIER
            && -MAX_LEVERAGE <= self.leverage && self.leverage <= MAX_LEVERAGE && -MAX_RATE
            <= self.c_rate && self.c_rate <= MAX_RATE && costs_ok
    }
}

impl FutureRetKwargs {
    /// Whether the configuration is within the ranges the engine accepts.
    pub fn is_valid(&self) -> (r: bool)
        ensures
            r == self.params().wf(),
    {
        self.to_params().is_valid()
    }

    /// The parameters of the shared bar engine.
    pub fn to_params(&self) -> (r: BarParams)
        ensures
            r == self.params(),
    {
        BarParams {
            init_cash: self.init_cash,
            multiplier: self.multiplier,
            leverage: self.leverage,
            c_rate: self.c_rate,
            blowup: self.blowup,
            commission_type: self.commission_type,
            model: BarCostModel::Slippage { slippage: self.slippage, ticksize: self.ticksize },
        }
    }

    pub open spec fn params(self) -> BarParams {
        BarParams {
            init_cash: self.init_cash,
            multiplier: self.multiplier,
            leverage: self.leverage,
            c_rate: self.c_rate,
            blowup: self.blowup,
            commission_type: self.commission_type,
            model: BarCostModel::Slippage { slippage: self.slippage, ticksize: self.ticksize },
        }
    }
}

impl FutureRetSpreadKwargs {
    /// Whether the configuration is within the ranges the engine accepts.
    pub fn is_valid(&self) -> (r: bool)
        ensures
            r == self.params().wf(),
    {
        self.to_params().is_valid()
    }

    /// The parameters of the shared bar engine.
    pub fn to_params(&self) -> (r: BarParams)
        ensures
            r == self.params(),
    {
        BarParams {
            init_cash: self.init_cash,
            multiplier: self.multiplier,
            leverage: self.leverage,
            c_rate: self.c_rate,
            blowup: self.blowup,
            commission_type: self.commission_type,
            model: BarCostModel::Spread,
        }
    }

    pub open spec fn params(self) -> BarParams {
        BarParams {
            init_cash: self.init_cash,
            multiplier: self.multiplier,
            leverage: self.leverage,
            c_rate: self.c_rate,
            blowup: self.blowup,
            commission_type: self.commission_type,
            model: BarCostModel::Spread,
        }
    }
}

/// One bar of input: target position (fraction units), open and close
/// prices, the spread (price units) and whether the contract rolls over.
pub struct Bar {
    pub pos: Option<int>,
    pub open: Option<int>,
    pub close: Option<int>,
    pub spread: Option<int>,
    pub rollover: bool,
}

pub open spec fn spread_at(spread: Option<&Vec<Option<i64>>>, i: int) -> Option<int> {
    match spread {
        Some(v) => opt_int(v@[i]),
        None => None,
    }
}

pub open spec fn bars_of(
    pos: Seq<Option<i64>>,
    open: Seq<Option<i64>>,
    close: Seq<Option<i64>>,
    spread: Option<&Vec<Option<i64>>>,
    flags: Option<&Vec<Option<bool>>>,
) -> Seq<Bar> {
    Seq::new(
        pos.len(),
        |i: int|
            Bar {
                pos: opt_int(pos[i]),
                open: opt_int(open[i]),
                close: opt_int(close[i]),
                spread: spread_at(spread, i),
                rollover: rollover_at(flags, i),
            },
    )
}

/// Whether the inputs are aligned, prices are positive and targets, spreads
/// within range.
pub open spec fn bar_inputs_ok(
    pos: Seq<Option<i64>>,
    open: Seq<Option<i64>>,
    close: Seq<Option<i64>>,
    spread: Option<&Vec<Option<i64>>>,
    flags: Option<&Vec<Option<bool>>>,
) -> bool {
    &&& open.len() == pos.len()
    &&& close.len() == pos.len()
    &&& match flags {
        Some(v) => v@.len() == pos.len(),
        None => true,
    }
    &&& match spread {
        Some(v) => v@.len() == pos.len() && forall|i: int|
            0 <= i < pos.len() && #[trigger] v@[i] is Some ==> -MAX_PRICE <= v@[i].unwrap()
                <= MAX_PRICE,
        None => true,
    }
    &&& forall|i: int| 0 <= i < open.len() && #[trigger] open[i] is Some ==> price_ok(open[i].unwrap() as int)
    &&& forall|i: int| 0 <= i < close.len() && #[trigger] close[i] is Some ==> price_ok(close[i].unwrap() as int)
    &&& forall|i: int|
        0 <= i < pos.len() && #[trigger] pos[i] is Some ==> -MAX_FRACTION <= pos[i].unwrap()
            <= MAX_FRACTION
}

/// Cost of trading one lot at `open`, in money units.
pub open spec fn bar_lot_cost(p: BarParams, open: int, spread: Option<int>) -> int {
    let m = p.multiplier as int;
    let fee = open * p.c_rate * RATE_TO_MONEY;
    match (p.commission_type, p.model) {
        (CommissionType::Percent, BarCostModel::Slippage { slippage, ticksize }) => m * (fee
            + slippage * ticksize * MONEY_SCALE),
        (CommissionType::Absolute, BarCostModel::Slippage { slippage, ticksize }) => p.c_rate
            * RATE_TO_MONEY + m * slippage * ticksize * MONEY_SCALE,
        (CommissionType::Percent, BarCostModel::Spread) => m * (fee + match spread {
            Some(s) => s * MONEY_SCALE,
            None => fee,
        }),
        (CommissionType::Absolute, BarCostModel::Spread) => p.c_rate * RATE_TO_MONEY + match spread {
            Some(s) => s * m * MONEY_SCALE,
            None => p.c_rate * RATE_TO_MONEY,
        },
    }
}

/// Lots that a target position `pos` buys with `cash` at leverage `leverage`
/// and price `open`, rounded down.
pub open spec fn bar_lots(cash: int, leverage: int, pos: int, multiplier: int, open: int) -> int {
    cash * leverage * magnitude(pos) / (SIZING_SCALE * multiplier * open)
}

/// One bar with target `pos`, prices `open`, `close`, and a per-lot cost.
pub open spec fn bar_trade(
    p: BarParams,
    st: Account,
    pos: int,
    open: int,
    close: int,
    rollover: bool,
    cost: int,
) -> Option<(Account, int)> {
    let m = p.multiplier as int;
    let ref2 = if st.ref2 == 0 {
        2 * open
    } else {
        st.ref2
    };
    let cash1 = if st.lot != 0 && !rollover {
        st.cash + move_value(st.lot * sign(st.signal), 2 * open - ref2, m)
    } else {
        st.cash
    };
    let changed = pos != st.signal || rollover;
    let lot = if changed {
        bar_lots(cash1, p.leverage as int, pos, m, open)
    } else {
        st.lot
    };
    let signal = if changed {
        pos
    } else {
        st.signal
    };
    let traded = if rollover {
        2 * magnitude(st.lot)
    } else {
        magnitude(lot * sign(pos) - st.lot * sign(st.signal))
    };
    let cash2 = if changed {
        cash1 - traded * cost
    } else {
        cash1
    };
    let cash3 = if lot != 0 {
        cash2 + move_value(lot * sign(signal), 2 * close - 2 * open, m)
    } else {
        cash2
    };
    if !cash_ok(cash1) || !lots_ok(lot) || !cash_ok(cash3) {
        None
    } else {
        Some((Account { cash: cash3, lot, signal, ref2: 2 * close, ..st }, cash3))
    }
}

/// One bar of the engine: a bar with a missing value leaves the account as
/// it is and repeats its cash; with `blowup`, an exhausted account gives
/// zero and stays as it is.
pub open spec fn bar_step(p: BarParams, st: Account, x: Bar) -> Option<(Account, int)> {
    if x.pos is None || x.open is None || x.close is None {
        Some((st, st.cash))
    } else if p.blowup && st.cash <= 0 {
        Some((st, 0))
    } else {
        let open = x.open.unwrap();
        bar_trade(
            p,
            st,
            x.pos.unwrap(),
            open,
            x.close.unwrap(),
            x.rollover,
            bar_lot_cost(p, open, x.spread),
        )
    }
}

pub open spec fn bar_run(p: BarParams, xs: Seq<Bar>) -> Option<(Account, Seq<int>)>
    decreases xs.len(),
{
    if xs.len() == 0 {
        Some((initial_account(p.init_cash), seq![]))
    } else {
        match bar_run(p, xs.drop_last()) {
            Some((st, outs)) => match bar_step(p, st, xs.last()) {
                Some((next, out)) => Some((next, outs.push(out))),
                None => None,
            },
            None => None,
        }
    }
}

pub open spec fn bar_outputs(p: BarParams, xs: Seq<Bar>) -> Option<Seq<int>> {
    match bar_run(p, xs) {
        Some((_, outs)) => Some(outs),
        None => None,
    }
}

fn slippage_cost_of(
    commission: CommissionType,
    m: i64,
    rate: i64,
    open: i64,
    slippage: i64,
    ticksize: i64,
) -> (r: i128)
    requires
        0 < m <= MAX_MULTIPLIER,
        -MAX_RATE <= rate <= MAX_RATE,
        price_ok(open as int),
        -MAX_TICKS <= slippage <= MAX_TICKS,
        -MAX_TICKS <= ticksize <= MAX_TICKS,
    ensures
        r == bar_lot_cost(
            BarParams {
                init_cash: 0,
                multiplier: m,
                leverage: 0,
                c_rate: rate,
                blowup: false,
                commission_type: commission,
                model: BarCostModel::Slippage { slippage, ticksize },
            },
            open as int,
            None,
        ),
        -MAX_LOT_COST <= r <= MAX_LOT_COST,
{
    proof {
        lemma_mul_bound(open as int, rate as int, MAX_PRICE as int, MAX_RATE as int);
        lemma_mul_bound(slippage as int, ticksize as int, MAX_TICKS as int, MAX_TICKS as int);
        lemma_mul_bound(m as int, slippage as int, MAX_MULTIPLIER as int, MAX_TICKS as int);
        lemma_mul_bound(m * slippage, ticksize as int, MAX_MULTIPLIER * MAX_TICKS, MAX_TICKS as int);
    }
    let fee: i128 = (open as i128) * (rate as i128) * RATE_TO_MONEY;
    let slip: i128 = (slippage as i128) * (ticksize as i128) * MONEY_SCALE;
    match commission {
        CommissionType::Percent => {
            let unit: i128 = fee + slip;
            proof {
                lemma_mul_bound(
                    m as int,
                    unit as int,
                    MAX_MULTIPLIER as int,
                    MAX_PRICE * MAX_RATE * RATE_TO_MONEY + MAX_TICKS * MAX_TICKS * MONEY_SCALE,
                );
            }
            (m as i128) * unit
        },
        CommissionType::Absolute => {
            let per_lot: i128 = (m as i128) * (slippage as i128) * (ticksize as i128);
            (rate as i128) * RATE_TO_MONEY + per_lot * MONEY_SCALE
        },
    }
}

fn spread_cost_of(commission: CommissionType, m: i64, rate: i64, open: i64, spread: Option<i64>) -> (r: i128)
    requires
        0 < m <= MAX_MULTIPLIER,
        -MAX_RATE <= rate <= MAX_RATE,
        price_ok(open as int),
        spread is Some ==> -MAX_PRICE <= spread.unwrap() <= MAX_PRICE,
    ensures
        r == bar_lot_cost(
            BarParams {
                init_cash: 0,
                multiplier: m,
                leverage: 0,
                c_rate: rate,
                blowup: false,
                commission_type: commission,
                model: BarCostModel::Spread,
            },
            open as int,
            opt_int(spread),
        ),
        -MAX_LOT_COST <= r <= MAX_LOT_COST,
{
    proof {
        lemma_mul_bound(open as int, rate as int, MAX_PRICE as int, MAX_RATE as int);
    }
    let fee: i128 = (open as i128) * (rate as i128) * RATE_TO_MONEY;
    let fixed: i128 = (rate as i128) * RATE_TO_MONEY;
    match commission {
        CommissionType::Percent => {
            let extra: i128 = match spread {
                Some(s) => (s as i128) * MONEY_SCALE,
                None => fee,
            };
            let unit: i128 = fee + extra;
            proof {
                lemma_mul_bound(
                    m as int,
                    unit as int,
                    MAX_MULTIPLIER as int,
                    2 * MAX_PRICE * MAX_RATE * RATE_TO_MONEY,
                );
            }
            (m as i128) * unit
        },
        CommissionType::Absolute => {
            let extra: i128 = match spread {
                Some(s) => {
                    proof {
                        lemma_mul_bound(s as int, m as int, MAX_PRICE as int, MAX_MULTIPLIER as int);
                    }
                    (s as i128) * (m as i128) * MONEY_SCALE
                },
                None => fixed,
            };
            fixed + extra
        },
    }
}

fn bar_lot_cost_of(p: &BarParams, open: i64, spread: Option<i64>) -> (r: i128)
    requires
        p.wf(),
        price_ok(open as int),
        spread is Some ==> -MAX_PRICE <= spread.unwrap() <= MAX_PRICE,
    ensures
        r == bar_lot_cost(*p, open as int, opt_int(spread)),
        -MAX_LOT_COST <= r <= MAX_LOT_COST,
{
    match p.model {
        BarCostModel::Slippage { slippage, ticksize } => slippage_cost_of(
            p.commission_type,
            p.multiplier,
            p.c_rate,
            open,
            slippage,
            ticksize,
        ),
        BarCostModel::Spread => spread_cost_of(p.commission_type, p.multiplier, p.c_rate, open, spread),
    }
}

fn bar_trade_exec(
    p: &BarParams,
    st: &mut PositionState,
    pos: i64,
    open: i64,
    close: i64,
    rollover: bool,
    cost: i128,
) -> (r: Option<i128>)
    requires
        p.wf(),
        account_ok(old(st)@),
        price_ok(open as int),
        price_ok(close as int),
        -MAX_FRACTION <= pos <= MAX_FRACTION,
        -MAX_LOT_COST <= cost <= MAX_LOT_COST,
    ensures
        match bar_trade(*p, old(st)@, pos as int, open as int, close as int, rollover, cost as int) {
            Some((next, out)) => r == Some(out as i128) && final(st)@ == next && account_ok(next),
            None => r is None,
        },
{
    let m = p.multiplier;
    let open2: i128 = 2 * open as i128;
    let ref2: i128 = if st.last_ref2 == 0 {
        open2
    } else {
        st.last_ref2
    };
    let last_sign = sign_of(st.last_signal as i128);
    proof {
        lemma_mul_bound(st.last_lot as int, last_sign as int, MAX_LOTS as int, 1);
    }
    let mut cash: i128 = st.cash;
    if st.last_lot != 0 && !rollover {
        cash = cash + move_value_of(st.last_lot * last_sign, open2 - ref2, m);
    }
    if cash < -MAX_CASH || cash > MAX_CASH {
        return None;
    }
    let changed = pos != st.last_signal || rollover;
    let mut lot: i128 = st.last_lot;
    let mut signal: i64 = st.last_signal;
    if changed {
        proof {
            lemma_mul_bound(cash as int, p.leverage as int, MAX_CASH as int, MAX_LEVERAGE as int);
            lemma_mul_bound(
                cash * p.leverage,
                magnitude(pos as int),
                MAX_CASH * MAX_LEVERAGE,
                MAX_FRACTION as int,
            );
        }
        lot = floor_div(
            cash * (p.leverage as i128) * magnitude_of(pos as i128),
            positive_product(SIZING_SCALE, m, open as i128),
        );
        if lot < -(MAX_LOTS as i128) || lot > MAX_LOTS as i128 {
            return None;
        }
        let pos_sign = sign_of(pos as i128);
        proof {
            lemma_mul_bound(lot as int, pos_sign as int, MAX_LOTS as int, 1);
        }
        let traded: i128 = if rollover {
            2 * magnitude_of(st.last_lot)
        } else {
            magnitude_of(lot * pos_sign - st.last_lot * last_sign)
        };
        cash = cash - charge_of(traded, cost);
        signal = pos;
    }
    if lot != 0 {
        let s = sign_of(signal as i128);
        proof {
            lemma_mul_bound(lot as int, s as int, MAX_LOTS as int, 1);
        }
        cash = cash + move_value_of(lot * s, 2 * close as i128 - open2, m);
    }
    if cash < -MAX_CASH || cash > MAX_CASH {
        return None;
    }
    st.cash = cash;
    st.last_lot = lot;
    st.last_signal = signal;
    st.last_ref2 = 2 * close as i128;
    Some(cash)
}

fn bar_step_exec(
    p: &BarParams,
    st: &mut PositionState,
    pos: Option<i64>,
    open: Option<i64>,
    close: Option<i64>,
    spread: Option<i64>,
    rollover: bool,
) -> (r: Option<i128>)
    requires
        p.wf(),
        account_ok(old(st)@),
        open is Some ==> price_ok(open.unwrap() as int),
        close is Some ==> price_ok(close.unwrap() as int),
        pos is Some ==> -MAX_FRACTION <= pos.unwrap() <= MAX_FRACTION,
        spread is Some ==> -MAX_PRICE <= spread.unwrap() <= MAX_PRICE,
    ensures
        match bar_step(
            *p,
            old(st)@,
            Bar {
                pos: opt_int(pos),
                open: opt_int(open),
                close: opt_int(close),
                spread: opt_int(spread),
                rollover,
            },
        ) {
            Some((next, out)) => r == Some(out as i128) && final(st)@ == next && account_ok(next),
            None => r is None,
        },
{
    match (pos, open, close) {
        (Some(x), Some(o), Some(c)) => {
            if p.blowup && st.cash <= 0 {
                Some(0)
            } else {
                let cost = bar_lot_cost_of(p, o, spread);
                bar_trade_exec(p, st, x, o, c, rollover, cost)
            }
        },
        _ => Some(st.cash),
    }
}

/// Once a run overflows, every longer run over the same bars does too.
proof fn lemma_bar_overflow_stays(p: BarParams, xs: Seq<Bar>, k: int)
    requires
        0 <= k <= xs.len(),
        bar_run(p, xs.take(k)) is None,
    ensures
        bar_run(p, xs) is None,
    decreases xs.len() - k,
{
    if k < xs.len() {
        lemma_take_last(xs, k);
        lemma_bar_overflow_stays(p, xs, k + 1);
    } else {
        assert(xs.take(k) =~= xs);
    }
}

fn read_spread(spread: Option<&Vec<Option<i64>>>, i: usize) -> (r: Option<i64>)
    requires
        spread is Some ==> i < spread.unwrap()@.len(),
    ensures
        opt_int(r) == spread_at(spread, i as int),
        spread is Some ==> r == spread.unwrap()@[i as int],
        spread is None ==> r is None,
{
    match spread {
        Some(v) => v[i],
        None => None,
    }
}

/// Cash per bar under either cost model.
pub fn run_bars(
    pos_vec: &Vec<Option<i64>>,
    open_vec: &Vec<Option<i64>>,
    close_vec: &Vec<Option<i64>>,
    spread_vec: Option<&Vec<Option<i64>>>,
    contract_chg_signal_vec: Option<&Vec<Option<bool>>>,
    params: &BarParams,
) -> (r: Result<Vec<i128>, EngineError>)
    requires
        params.wf(),
        bar_inputs_ok(pos_vec@, open_vec@, close_vec@, spread_vec, contract_chg_signal_vec),
    ensures
        run_matches(
            r,
            bar_outputs(
                *params,
                bars_of(pos_vec@, open_vec@, close_vec@, spread_vec, contract_chg_signal_vec),
            ),
        ),
{
    let ghost xs = bars_of(pos_vec@, open_vec@, close_vec@, spread_vec, contract_chg_signal_vec);
    let n = pos_vec.len();
    let mut st = PositionState::new(params.init_cash);
    let mut out: Vec<i128> = Vec::new();
    let mut i: usize = 0;
    proof {
        assert(xs.take(0) =~= Seq::<Bar>::empty());
        assert(as_ints(out@) =~= Seq::<int>::empty());
    }
    while i < n
        invariant
            n == pos_vec@.len(),
            xs == bars_of(pos_vec@, open_vec@, close_vec@, spread_vec, contract_chg_signal_vec),
            params.wf(),
            bar_inputs_ok(pos_vec@, open_vec@, close_vec@, spread_vec, contract_chg_signal_vec),
            0 <= i <= n,
            account_ok(st@),
            bar_run(*params, xs.take(i as int)) == Some((st@, as_ints(out@))),
        decreases n - i,
    {
        let rollover = read_flag(contract_chg_signal_vec, i);
        let spread = read_spread(spread_vec, i);
        let pos = pos_vec[i];
        let open = open_vec[i];
        let close = close_vec[i];
        proof {
            lemma_take_last(xs, i as int);
            assert(xs[i as int] == Bar {
                pos: opt_int(pos),
                open: opt_int(open),
                close: opt_int(close),
                spread: opt_int(spread),
                rollover,
            });
        }
        match bar_step_exec(params, &mut st, pos, open, close, spread, rollover) {
            Some(o) => {
                proof {
                    assert(as_ints(out@.push(o)) =~= as_ints(out@).push(o as int));
                }
                out.push(o);
            },
            None => {
                proof {
                    lemma_bar_overflow_stays(*params, xs, i as int + 1);
                }
                return Err(EngineError::Overflow);
            },
        }
        i = i + 1;
    }
    proof {
        assert(xs.take(n as int) =~= xs);
    }
    Ok(out)
}

/// Cash per bar of an account driven by a target position and open/close
/// prices, with a fixed slippage cost. A missing value repeats the last cash;
/// with `blowup`, an exhausted account gives zero from then on.
pub fn calc_future_ret(
    pos_vec: &Vec<Option<i64>>,
    open_vec: &Vec<Option<i64>>,
    close_vec: &Vec<Option<i64>>,
    contract_chg_signal_vec: Option<&Vec<Option<bool>>>,
    kwargs: &FutureRetKwargs,
) -> (r: Result<Vec<i128>, EngineError>)
    requires
        kwargs.params().wf(),
        bar_inputs_ok(pos_vec@, open_vec@, close_vec@, None, contract_chg_signal_vec),
    ensures
        run_matches(
            r,
            bar_outputs(
                kwargs.params(),
                bars_of(pos_vec@, open_vec@, close_vec@, None, contract_chg_signal_vec),
            ),
        ),
{
    let params = kwargs.to_params();
    run_bars(pos_vec, open_vec, close_vec, None, contract_chg_signal_vec, &params)
}

/// Cash per bar as `calc_future_ret`, with the spread of each bar standing
/// in for slippage; where a bar has no spread the commission is charged
/// again in its place.
pub fn calc_future_ret_with_spread(
    pos_vec: &Vec<Option<i64>>,
    open_vec: &Vec<Option<i64>>,
    close_vec: &Vec<Option<i64>>,
    spread_vec: &Vec<Option<i64>>,
    contract_chg_signal_vec: Option<&Vec<Option<bool>>>,
    kwargs: &FutureRetSpreadKwargs,
) -> (r: Result<Vec<i128>, EngineError>)
    requires
        kwargs.params().wf(),
        bar_inputs_ok(pos_vec@, open_vec@, close_vec@, Some(spread_vec), contract_chg_signal_vec),
    ensures
        run_matches(
            r,
            bar_outputs(
                kwargs.params(),
                bars_of(pos_vec@, open_vec@, close_vec@, Some(spread_vec), contract_chg_signal_vec),
            ),
        ),
{
    let params = kwargs.to_params();
    run_bars(pos_vec, open_vec, close_vec, Some(spread_vec), contract_chg_signal_vec, &params)
}

fn opt_in(x: Option<i64>, lo: i64, hi: i64) -> (r: bool)
    ensures
        r == (x is Some ==> lo <= x.unwrap() <= hi),
{
    match x {
        Some(v) => lo <= v && v <= hi,
        None => true,
    }
}

fn price_in(x: Option<i64>) -> (r: bool)
    ensures
        r == (x is Some ==> price_ok(x.unwrap() as int)),
{
    match x {
        Some(v) => 0 < v && v <= MAX_PRICE,
        None => true,
    }
}

/// Whether bar inputs meet what the bar engines require: aligned lengths,
/// positive prices, and targets and spreads within range.
pub fn check_bar_inputs(
    pos_vec: &Vec<Option<i64>>,
    open_vec: &Vec<Option<i64>>,
    close_vec: &Vec<Option<i64>>,
    spread_vec: Option<&Vec<Option<i64>>>,
    contract_chg_signal_vec: Option<&Vec<Option<bool>>>,
) -> (r: bool)
    ensures
        r == bar_inputs_ok(pos_vec@, open_vec@, close_vec@, spread_vec, contract_chg_signal_vec),
{
    let n = pos_vec.len();
    if open_vec.len() != n || close_vec.len() != n {
        return false;
    }
    match contract_chg_signal_vec {
        Some(v) => {
            if v.len() != n {
                return false;
            }
        },
        None => {},
    }
    match spread_vec {
        Some(v) => {
            if v.len() != n {
                return false;
            }
        },
        None => {},
    }
    let mut i: usize = 0;
    while i < n
        invariant
            n == pos_vec@.len(),
            n == open_vec@.len(),
            n == close_vec@.len(),
            spread_vec is Some ==> spread_vec.unwrap()@.len() == n,
            0 <= i <= n,
            forall|j: int| 0 <= j < i && #[trigger] open_vec@[j] is Some ==> price_ok(open_vec@[j].unwrap() as int),
            forall|j: int| 0 <= j < i && #[trigger] close_vec@[j] is Some ==> price_ok(close_vec@[j].unwrap() as int),
            forall|j: int|
                0 <= j < i && #[trigger] pos_vec@[j] is Some ==> -MAX_FRACTION <= pos_vec@[j].unwrap()
                    <= MAX_FRACTION,
            spread_vec is Some ==> forall|j: int|
                0 <= j < i && #[trigger] spread_vec.unwrap()@[j] is Some ==> -MAX_PRICE
                    <= spread_vec.unwrap()@[j].unwrap() <= MAX_PRICE,
        decreases n - i,
    {
        if !price_in(open_vec[i]) || !price_in(close_vec[i]) || !opt_in(pos_vec[i], -MAX_FRACTION, MAX_FRACTION) {
            return false;
        }
        match spread_vec {
            Some(v) => {
                if !opt_in(v[i], -MAX_PRICE, MAX_PRICE) {
                    return false;
                }
            },
            None => {},
        }
        i = i + 1;
    }
    true
}

} // verus!

use vstd::prelude::*;

use crate::account::{
    account_ok, initial_account, lot_cost, lot_cost_of, Account, PositionState,
};
use crate::units::{
    lemma_mul_bound, lemma_mul_pos, cash_ok, charge_of, floor_div, lots_ok, magnitude, magnitude_of, move_value, move_value_of,
    price_ok, sign, sign_of, CommissionType, EngineError, SignalType, FRACTION_SCALE, MAX_CASH,
    MAX_FRACTION, MAX_INIT_CASH, MAX_LOTS, MAX_MULTIPLIER, MAX_PRICE, MAX_RATE, MONEY_SCALE,
};

verus! {

/// Configuration of the tick-level engine.
#[derive(Clone, Copy, Debug)]
pub struct TickFutureRetKwargs {
    /// Initial cash, in currency units.
    pub init_cash: u64,
    /// Contract multiplier.
    pub multiplier: i64,
    /// Commission rate, in rate units (`1 / RATE_SCALE`).
    pub c_rate: i64,
    /// Whether output is held at zero once cash is exhausted.
    pub blowup: bool,
    pub commission_type: CommissionType,
    pub signal_type: SignalType,
}

impl TickFutureRetKwargs {
    pub open spec fn wf(self) -> bool {
        &&& self.init_cash <= MAX_INIT_CASH
        &&& 0 < self.multiplier <= MAX_MULTIPLIER
        &&& -MAX_RATE <= self.c_rate <= MAX_RATE
    }
}

impl TickFutureRetKwargs {
    /// Whether the configuration is within the ranges the engine accepts.
    pub fn is_valid(&self) -> (r: bool)
        ensures
            r == self.wf(),
    {
        self.init_cash <= MAX_INIT_CASH && 0 < self.multiplier && self.multiplier <= MAX_MULTIPLIER
            && -MAX_RATE <= self.c_rate && self.c_rate <= MAX_RATE
    }
}

impl Default for TickFutureRetKwargs {
    /// No initial cash, a multiplier of one, a commission of 0.03% of
    /// notional, no blowup, percent signals.
    fn default() -> (r: Self)
        ensures
            r == (TickFutureRetKwargs {
                init_cash: 0,
                multiplier: 1,
                c_rate: 30_000,
                blowup: false,
                commission_type: CommissionType::Percent,
                signal_type: SignalType::Percent,
            }),
    {
        TickFutureRetKwargs {
            init_cash: 0,
            multiplier: 1,
            c_rate: 30_000,
            blowup: false,
            commission_type: CommissionType::Percent,
            signal_type: SignalType::Percent,
        }
    }
}

/// One tick of input.
pub struct Tick {
    pub signal: Option<int>,
    pub bid: Option<int>,
    pub ask: Option<int>,
    pub rollover: bool,
}

/// The rollover flag of step `i`; an absent flag reads as no rollover.
pub open spec fn rollover_at(flags: Option<&Vec<Option<bool>>>, i: int) -> bool {
    match flags {
        Some(v) => match v@[i] {
            Some(b) => b,
            None => false,
        },
        None => false,
    }
}

pub open spec fn opt_int(x: Option<i64>) -> Option<int> {
    match x {
        Some(v) => Some(v as int),
        None => None,
    }
}

/// The ticks of a run, from its aligned input vectors.
pub open spec fn ticks_of(
    signal: Seq<Option<i64>>,
    bid: Seq<Option<i64>>,
    ask: Seq<Option<i64>>,
    flags: Option<&Vec<Option<bool>>>,
) -> Seq<Tick> {
    Seq::new(
        signal.len(),
        |i: int|
            Tick {
                signal: opt_int(signal[i]),
                bid: opt_int(bid[i]),
                ask: opt_int(ask[i]),
                rollover: rollover_at(flags, i),
            },
    )
}

/// Whether every quote is a positive price and every signal is within range.
pub open spec fn tick_inputs_ok(
    signal_type: SignalType,
    signal: Seq<Option<i64>>,
    bid: Seq<Option<i64>>,
    ask: Seq<Option<i64>>,
    flags: Option<&Vec<Option<bool>>>,
) -> bool {
    &&& bid.len() == signal.len()
    &&& ask.len() == signal.len()
    &&& match flags {
        Some(v) => v@.len() == signal.len(),
        None => true,
    }
    &&& forall|i: int| 0 <= i < bid.len() && #[trigger] bid[i] is Some ==> price_ok(bid[i].unwrap() as int)
    &&& forall|i: int| 0 <= i < ask.len() && #[trigger] ask[i] is Some ==> price_ok(ask[i].unwrap() as int)
    &&& forall|i: int|
        0 <= i < signal.len() && #[trigger] signal[i] is Some ==> signal_ok(
            signal_type,
            signal[i].unwrap() as int,
        )
}

pub open spec fn signal_ok(signal_type: SignalType, s: int) -> bool {
    match signal_type {
        SignalType::Percent => -MAX_FRACTION <= s <= MAX_FRACTION,
        SignalType::Absolute => lots_ok(s),
    }
}

/// Lots that a share `s` (fraction units) of `cash` buys at twice-mid `mid2`,
/// rounded down.
pub open spec fn percent_lots(cash: int, s: int, multiplier: int, mid2: int) -> int {
    cash * magnitude(s) * 2 / (MONEY_SCALE * FRACTION_SCALE * multiplier * mid2)
}

/// One tick with a percent-of-equity signal `s` and quotes `bid`, `ask`:
/// the new account and the output, or `None` when the account leaves its
/// range.
pub open spec fn percent_tick(
    kw: TickFutureRetKwargs,
    st: Account,
    s: int,
    bid: int,
    ask: int,
    rollover: bool,
) -> Option<(Account, int)> {
    let m = kw.multiplier as int;
    let cost = |price2: int| lot_cost(kw.commission_type, m, kw.c_rate as int, price2, ask - bid);
    let mid2 = bid + ask;
    let revalue = st.rollover && st.lot != 0;
    let lot1 = if revalue {
        st.lot * st.ref2 / mid2
    } else {
        st.lot
    };
    let cash1 = if revalue {
        st.cash - magnitude(lot1) * cost(mid2)
    } else {
        st.cash
    };
    let cash2 = if lot1 != 0 && st.ref2 != 0 && !st.rollover {
        cash1 + move_value(lot1 * sign(st.signal), mid2 - st.ref2, m)
    } else {
        cash1
    };
    if !lots_ok(lot1) || !cash_ok(cash2) {
        None
    } else if s != st.signal || rollover {
        let lot = percent_lots(cash2, s, m, mid2);
        let delta = lot * sign(s) - lot1 * sign(st.signal);
        let fee = if rollover {
            magnitude(lot1) * cost(mid2)
        } else {
            magnitude(delta) * cost(
                if delta > 0 {
                    2 * ask
                } else {
                    2 * bid
                },
            )
        };
        let cash3 = cash2 - fee;
        if !lots_ok(lot) || !cash_ok(cash3) {
            None
        } else {
            Some((Account { cash: cash3, lot, signal: s, ref2: mid2, rollover, ..st }, cash2))
        }
    } else {
        Some((Account { cash: cash2, lot: lot1, ref2: mid2, rollover, ..st }, cash2))
    }
}

/// One tick with an absolute lot-count signal `s`.
pub open spec fn absolute_tick(
    kw: TickFutureRetKwargs,
    st: Account,
    s: int,
    bid: int,
    ask: int,
    rollover: bool,
) -> Option<(Account, int)> {
    let m = kw.multiplier as int;
    let cost = |price2: int| lot_cost(kw.commission_type, m, kw.c_rate as int, price2, ask - bid);
    let mid2 = bid + ask;
    let cash1 = if st.rollover && st.lot != 0 {
        st.cash - magnitude(st.lot) * cost(mid2)
    } else {
        st.cash
    };
    let cash2 = if st.lot != 0 && st.ref2 != 0 && !st.rollover {
        cash1 + move_value(st.lot, mid2 - st.ref2, m)
    } else {
        cash1
    };
    if !cash_ok(cash2) {
        None
    } else if s != st.lot || rollover {
        let delta = s - st.lot;
        let fee = if rollover {
            magnitude(st.lot) * cost(mid2)
        } else {
            magnitude(delta) * cost(
                if delta > 0 {
                    2 * ask
                } else {
                    2 * bid
                },
            )
        };
        let cash3 = cash2 - fee;
        if !cash_ok(cash3) {
            None
        } else {
            Some((Account { cash: cash3, lot: s, ref2: mid2, rollover, ..st }, cash2))
        }
    } else {
        Some((Account { cash: cash2, ref2: mid2, rollover, ..st }, cash2))
    }
}

/// One tick of the engine: a step with a missing value leaves the account
/// as it is and repeats its cash; with `blowup`, an exhausted account gives
/// zero and stays as it is.
pub open spec fn tick_step(kw: TickFutureRetKwargs, st: Account, x: Tick) -> Option<(Account, int)> {
    if x.signal is None || x.bid is None || x.ask is None {
        Some((st, st.cash))
    } else if kw.blowup && st.cash <= 0 {
        Some((st, 0))
    } else {
        match kw.signal_type {
            SignalType::Percent => percent_tick(
                kw,
                st,
                x.signal.unwrap(),
                x.bid.unwrap(),
                x.ask.unwrap(),
                x.rollover,
            ),
            SignalType::Absolute => absolute_tick(
                kw,
                st,
                x.signal.unwrap(),
                x.bid.unwrap(),
                x.ask.unwrap(),
                x.rollover,
            ),
        }
    }
}

/// The account after the ticks `xs` and the outputs so far.
pub open spec fn tick_run(kw: TickFutureRetKwargs, xs: Seq<Tick>) -> Option<(Account, Seq<int>)>
    decreases xs.len(),
{
    if xs.len() == 0 {
        Some((initial_account(kw.init_cash), seq![]))
    } else {
        match tick_run(kw, xs.drop_last()) {
            Some((st, outs)) => match tick_step(kw, st, xs.last()) {
                Some((next, out)) => Some((next, outs.push(out))),
                None => None,
            },
            None => None,
        }
    }
}

/// The cash values, one for each tick, or `None` when the account leaves its
/// range.
pub open spec fn tick_outputs(kw: TickFutureRetKwargs, xs: Seq<Tick>) -> Option<Seq<int>> {
    match tick_run(kw, xs) {
        Some((_, outs)) => Some(outs),
        None => None,
    }
}

pub open spec fn as_ints(v: Seq<i128>) -> Seq<int> {
    v.map_values(|x: i128| x as int)
}

fn percent_tick_exec(
    kw: &TickFutureRetKwargs,
    st: &mut PositionState,
    s: i64,
    bid: i64,
    ask: i64,
    rollover: bool,
) -> (r: Option<i128>)
    requires
        kw.wf(),
        account_ok(old(st)@),
        price_ok(bid as int),
        price_ok(ask as int),
        -MAX_FRACTION <= s <= MAX_FRACTION,
    ensures
        match percent_tick(*kw, old(st)@, s as int, bid as int, ask as int, rollover) {
            Some((next, out)) => r == Some(out as i128) && final(st)@ == next && account_ok(next),
            None => r is None,
        },
{
    let ghost st0 = st@;
    let m = kw.multiplier;
    let mid2: i128 = bid as i128 + ask as i128;
    let gap: i128 = ask as i128 - bid as i128;
    let revalue = st.last_rollover && st.last_lot != 0;
    proof {
        lemma_mul_bound(st0.lot, st0.ref2, MAX_LOTS as int, 2 * MAX_PRICE);
    }
    let lot1: i128 = if revalue {
        floor_div(st.last_lot * st.last_ref2, mid2)
    } else {
        st.last_lot
    };
    if lot1 < -(MAX_LOTS as i128) || lot1 > MAX_LOTS as i128 {
        return None;
    }
    let mut cash: i128 = st.cash;
    if revalue {
        let c = lot_cost_of(kw.commission_type, m, kw.c_rate, mid2, gap);
        cash = cash - charge_of(magnitude_of(lot1), c);
    }
    let last_sign = sign_of(st.last_signal as i128);
    proof {
        lemma_mul_bound(lot1 as int, last_sign as int, MAX_LOTS as int, 1);
    }
    if lot1 != 0 && st.last_ref2 != 0 && !st.last_rollover {
        cash = cash + move_value_of(lot1 * last_sign, mid2 - st.last_ref2, m);
    }
    if cash < -MAX_CASH || cash > MAX_CASH {
        return None;
    }
    let out = cash;
    if s as i128 != st.last_signal as i128 || rollover {
        proof {
            lemma_mul_bound(cash as int, magnitude(s as int), MAX_CASH as int, MAX_FRACTION as int);
            lemma_mul_bound(
                MONEY_SCALE * FRACTION_SCALE * m,
                mid2 as int,
                MONEY_SCALE * FRACTION_SCALE * MAX_MULTIPLIER,
                2 * MAX_PRICE,
            );
            lemma_mul_pos(MONEY_SCALE * FRACTION_SCALE * m, mid2 as int);
        }
        let lot = floor_div(
            cash * magnitude_of(s as i128) * 2,
            MONEY_SCALE * FRACTION_SCALE * (m as i128) * mid2,
        );
        if lot < -(MAX_LOTS as i128) || lot > MAX_LOTS as i128 {
            return None;
        }
        let fee: i128 = if rollover {
            charge_of(magnitude_of(lot1), lot_cost_of(kw.commission_type, m, kw.c_rate, mid2, gap))
        } else {
            let s_sign = sign_of(s as i128);
            proof {
                lemma_mul_bound(lot as int, s_sign as int, MAX_LOTS as int, 1);
            }
            let delta = lot * s_sign - lot1 * last_sign;
            let price2: i128 = if delta > 0 {
                2 * ask as i128
            } else {
                2 * bid as i128
            };
            charge_of(magnitude_of(delta), lot_cost_of(kw.commission_type, m, kw.c_rate, price2, gap))
        };
        let cash3 = cash - fee;
        if cash3 < -MAX_CASH || cash3 > MAX_CASH {
            return None;
        }
        st.cash = cash3;
        st.last_lot = lot;
        st.last_signal = s;
    } else {
        st.cash = cash;
        st.last_lot = lot1;
    }
    st.last_ref2 = mid2;
    st.last_rollover = rollover;
    Some(out)
}

fn absolute_tick_exec(
    kw: &TickFutureRetKwargs,
    st: &mut PositionState,
    s: i64,
    bid: i64,
    ask: i64,
    rollover: bool,
) -> (r: Option<i128>)
    requires
        kw.wf(),
        account_ok(old(st)@),
        price_ok(bid as int),
        price_ok(ask as int),
        lots_ok(s as int),
    ensures
        match absolute_tick(*kw, old(st)@, s as int, bid as int, ask as int, rollover) {
            Some((next, out)) => r == Some(out as i128) && final(st)@ == next && account_ok(next),
            None => r is None,
        },
{
    let m = kw.multiplier;
    let mid2: i128 = bid as i128 + ask as i128;
    let gap: i128 = ask as i128 - bid as i128;
    let mut cash: i128 = st.cash;
    if st.last_rollover && st.last_lot != 0 {
        let c = lot_cost_of(kw.commission_type, m, kw.c_rate, mid2, gap);
        cash = cash - charge_of(magnitude_of(st.last_lot), c);
    }
    if st.last_lot != 0 && st.last_ref2 != 0 && !st.last_rollover {
        cash = cash + move_value_of(st.last_lot, mid2 - st.last_ref2, m);
    }
    if cash < -MAX_CASH || cash > MAX_CASH {
        return None;
    }
    let out = cash;
    if s as i128 != st.last_lot || rollover {
        let fee: i128 = if rollover {
            charge_of(
                magnitude_of(st.last_lot),
                lot_cost_of(kw.commission_type, m, kw.c_rate, mid2, gap),
            )
        } else {
            let delta = s as i128 - st.last_lot;
            let price2: i128 = if delta > 0 {
                2 * ask as i128
            } else {
                2 * bid as i128
            };
            charge_of(magnitude_of(delta), lot_cost_of(kw.commission_type, m, kw.c_rate, price2, gap))
        };
        let cash3 = cash - fee;
        if cash3 < -MAX_CASH || cash3 > MAX_CASH {
            return None;
        }
        st.cash = cash3;
        st.last_lot = s as i128;
    } else {
        st.cash = cash;
    }
    st.last_ref2 = mid2;
    st.last_rollover = rollover;
    Some(out)
}

/// The outcome of a whole run: the cash values, one per tick, or the
/// overflow error exactly when the account leaves its range.
pub open spec fn run_matches(r: Result<Vec<i128>, EngineError>, outs: Option<Seq<int>>) -> bool {
    match (r, outs) {
        (Ok(v), Some(o)) => as_ints(v@) == o,
        (Err(e), None) => e == EngineError::Overflow,
        _ => false,
    }
}

pub(crate) fn read_flag(flags: Option<&Vec<Option<bool>>>, i: usize) -> (r: bool)
    requires
        flags is Some ==> i < flags.unwrap()@.len(),
    ensures
        r == rollover_at(flags, i as int),
{
    match flags {
        Some(v) => match v[i] {
            Some(b) => b,
            None => false,
        },
        None => false,
    }
}

fn tick_step_exec(
    kw: &TickFutureRetKwargs,
    st: &mut PositionState,
    signal: Option<i64>,
    bid: Option<i64>,
    ask: Option<i64>,
    rollover: bool,
) -> (r: Option<i128>)
    requires
        kw.wf(),
        account_ok(old(st)@),
        bid is Some ==> price_ok(bid.unwrap() as int),
        ask is Some ==> price_ok(ask.unwrap() as int),
        signal is Some ==> signal_ok(kw.signal_type, signal.unwrap() as int),
    ensures
        match tick_step(
            *kw,
            old(st)@,
            Tick { signal: opt_int(signal), bid: opt_int(bid), ask: opt_int(ask), rollover },
        ) {
            Some((next, out)) => r == Some(out as i128) && final(st)@ == next && account_ok(next),
            None => r is None,
        },
{
    match (signal, bid, ask) {
        (Some(s), Some(b), Some(a)) => {
            if kw.blowup && st.cash <= 0 {
                Some(0)
            } else {
                match kw.signal_type {
                    SignalType::Percent => percent_tick_exec(kw, st, s, b, a, rollover),
                    SignalType::Absolute => absolute_tick_exec(kw, st, s, b, a, rollover),
                }
            }
        },
        _ => Some(st.cash),
    }
}

pub(crate) proof fn lemma_take_last<T>(xs: Seq<T>, i: int)
    requires
        0 <= i < xs.len(),
    ensures
        xs.take(i + 1).drop_last() == xs.take(i),
        xs.take(i + 1).last() == xs[i],
        xs.take(i + 1).len() == i + 1,
{
    assert(xs.take(i + 1).drop_last() =~= xs.take(i));
}

/// Cash per tick of an account driven by a target signal and bid/ask
/// quotes. A missing signal or quote repeats the last cash; with `blowup`,
/// an exhausted account gives zero from then on. Rollover flags, when given,
/// mark the ticks where the contract changes.
pub fn calc_tick_future_ret(
    signal_vec: &Vec<Option<i64>>,
    bid_vec: &Vec<Option<i64>>,
    ask_vec: &Vec<Option<i64>>,
    contract_chg_signal_vec: Option<&Vec<Option<bool>>>,
    kwargs: &TickFutureRetKwargs,
) -> (r: Result<Vec<i128>, EngineError>)
    requires
        kwargs.wf(),
        tick_inputs_ok(
            kwargs.signal_type,
            signal_vec@,
            bid_vec@,
            ask_vec@,
            contract_chg_signal_vec,
        ),
    ensures
        run_matches(
            r,
            tick_outputs(
                *kwargs,
                ticks_of(signal_vec@, bid_vec@, ask_vec@, contract_chg_signal_vec),
            ),
        ),
{
    let ghost xs = ticks_of(signal_vec@, bid_vec@, ask_vec@, contract_chg_signal_vec);
    let n = signal_vec.len();
    let mut st = PositionState::new(kwargs.init_cash);
    let mut out: Vec<i128> = Vec::new();
    let mut i: usize = 0;
    proof {
        assert(xs.take(0) =~= Seq::<Tick>::empty());
        assert(as_ints(out@) =~= Seq::<int>::empty());
    }
    while i < n
        invariant
            n == signal_vec@.len(),
            xs == ticks_of(signal_vec@, bid_vec@, ask_vec@, contract_chg_signal_vec),
            kwargs.wf(),
            tick_inputs_ok(
                kwargs.signal_type,
                signal_vec@,
                bid_vec@,
                ask_vec@,
                contract_chg_signal_vec,
            ),
            0 <= i <= n,
            account_ok(st@),
            tick_run(*kwargs, xs.take(i as int)) == Some((st@, as_ints(out@))),
        decreases n - i,
    {
        let rollover = read_flag(contract_chg_signal_vec, i);
        let signal = signal_vec[i];
        let bid = bid_vec[i];
        let ask = ask_vec[i];
        proof {
            lemma_take_last(xs, i as int);
            assert(xs[i as int] == Tick {
                signal: opt_int(signal),
                bid: opt_int(bid),
                ask: opt_int(ask),
                rollover,
            });
        }
        match tick_step_exec(kwargs, &mut st, signal, bid, ask, rollover) {
            Some(o) => {
                proof {
                    assert(as_ints(out@.push(o)) =~= as_ints(out@).push(o as int));
                }
                out.push(o);
            },
            None => {
                proof {
                    lemma_overflow_stays(*kwargs, xs, i as int + 1);
                }
                return Err(EngineError::Overflow);
            },
        }
        i = i + 1;
    }
    proof {
        assert(xs.take(n as int) =~= xs);
    }
    Ok(out)
}

/// Once a run overflows, every longer run over the same ticks does too.
proof fn lemma_overflow_stays(kw: TickFutureRetKwargs, xs: Seq<Tick>, k: int)
    requires
        0 <= k <= xs.len(),
        tick_run(kw, xs.take(k)) is None,
    ensures
        tick_run(kw, xs) is None,
    decreases xs.len() - k,
{
    if k < xs.len() {
        lemma_take_last(xs, k);
        lemma_overflow_stays(kw, xs, k + 1);
    } else {
        assert(xs.take(k) =~= xs);
    }
}

fn price_valid(p: Option<i64>) -> (r: bool)
    ensures
        r == (p is Some ==> price_ok(p.unwrap() as int)),
{
    match p {
        Some(v) => 0 < v && v <= MAX_PRICE,
        None => true,
    }
}

fn signal_valid(signal_type: SignalType, s: Option<i64>) -> (r: bool)
    ensures
        r == (s is Some ==> signal_ok(signal_type, s.unwrap() as int)),
{
    match s {
        Some(v) => match signal_type {
            SignalType::Percent => -MAX_FRACTION <= v && v <= MAX_FRACTION,
            SignalType::Absolute => -MAX_LOTS <= v && v <= MAX_LOTS,
        },
        None => true,
    }
}

/// Whether tick inputs meet what the tick engines require: aligned lengths,
/// positive prices and signals within range.
pub fn check_tick_inputs(
    signal_type: SignalType,
    signal_vec: &Vec<Option<i64>>,
    bid_vec: &Vec<Option<i64>>,
    ask_vec: &Vec<Option<i64>>,
    contract_chg_signal_vec: Option<&Vec<Option<bool>>>,
) -> (r: bool)
    ensures
        r == tick_inputs_ok(signal_type, signal_vec@, bid_vec@, ask_vec@, contract_chg_signal_vec),
{
    let n = signal_vec.len();
    if bid_vec.len() != n || ask_vec.len() != n {
        return false;
    }
    match contract_chg_signal_vec {
        Some(v) => {
            if v.len() != n {
                return false;
            }
        },
        None => {},
    }
    let mut i: usize = 0;
    while i < n
        invariant
            n == signal_vec@.len(),
            n == bid_vec@.len(),
            n == ask_vec@.len(),
            0 <= i <= n,
            forall|j: int| 0 <= j < i && #[trigger] bid_vec@[j] is Some ==> price_ok(bid_vec@[j].unwrap() as int),
            forall|j: int| 0 <= j < i && #[trigger] ask_vec@[j] is Some ==> price_ok(ask_vec@[j].unwrap() as int),
            forall|j: int|
                0 <= j < i && #[trigger] signal_vec@[j] is Some ==> signal_ok(
                    signal_type,
                    signal_vec@[j].unwrap() as int,
                ),
        decreases n - i,
    {
        if !price_valid(bid_vec[i]) || !price_valid(ask_vec[i]) || !signal_valid(signal_type, signal_vec[i]) {
            return false;
        }
        i = i + 1;
    }
    true
}

} // verus!

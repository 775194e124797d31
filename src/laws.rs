//! Properties of whole runs and of single steps, proved over the engines'
//! specifications.
use vstd::arithmetic::div_mod::lemma_div_basics;
use vstd::arithmetic::mul::lemma_mul_basics;
use vstd::prelude::*;

use crate::account::{account_ok, lot_cost, Account};
use crate::future_ret::{bar_lot_cost, bar_lots, bar_outputs, bar_run, bar_step, Bar, BarParams};
use crate::tick_future_ret::{
    lemma_take_last, percent_lots, signal_ok, tick_outputs, tick_run, tick_step, Tick,
    TickFutureRetKwargs,
};
use crate::tick_future_ret_full::{
    full_outputs, full_run, full_step, full_tick, lemma_blend_between, lot_fee,
    TickFutureRetFullKwargs,
};
use crate::units::{
    lemma_mul_pos, lots_ok, magnitude, move_value, price_ok, sign, OpenPriceMethod, SignalType,
    FRACTION_SCALE, HALF_MONEY, MAX_FRACTION, MONEY_SCALE, SIZING_SCALE,
};

verus! {

pub open spec fn all_present(x: Tick) -> bool {
    x.signal is Some && x.bid is Some && x.ask is Some
}

pub open spec fn bar_present(x: Bar) -> bool {
    x.pos is Some && x.open is Some && x.close is Some
}

proof fn lemma_tick_blowup_prefix(kw: TickFutureRetKwargs, xs: Seq<Tick>, k: int, j: int)
    requires
        kw.blowup,
        0 <= k <= j <= xs.len(),
        tick_run(kw, xs.take(k)) is Some,
        tick_run(kw, xs.take(k)).unwrap().0.cash <= 0,
        forall|i: int| k <= i < xs.len() ==> all_present(#[trigger] xs[i]),
    ensures
        tick_run(kw, xs.take(j)) is Some,
        tick_run(kw, xs.take(j)).unwrap().0 == tick_run(kw, xs.take(k)).unwrap().0,
        tick_run(kw, xs.take(j)).unwrap().1.len() == j,
        forall|i: int| k <= i < j ==> tick_run(kw, xs.take(j)).unwrap().1[i] == 0,
    decreases j - k,
{
    lemma_tick_run_len(kw, xs.take(k));
    if j > k {
        lemma_tick_blowup_prefix(kw, xs, k, j - 1);
        lemma_take_last(xs, j - 1);
        assert(all_present(xs[j - 1]));
    }
}

proof fn lemma_tick_run_len(kw: TickFutureRetKwargs, xs: Seq<Tick>)
    ensures
        tick_run(kw, xs) is Some ==> tick_run(kw, xs).unwrap().1.len() == xs.len(),
    decreases xs.len(),
{
    if xs.len() > 0 {
        lemma_tick_run_len(kw, xs.drop_last());
    }
}

/// With `blowup`, once the cash of the account is at or below zero, every
/// later tick that has all its values gives exactly zero.
pub proof fn lemma_tick_blowup_holds_zero(kw: TickFutureRetKwargs, xs: Seq<Tick>, k: int)
    requires
        kw.blowup,
        0 <= k <= xs.len(),
        tick_run(kw, xs.take(k)) is Some,
        tick_run(kw, xs.take(k)).unwrap().0.cash <= 0,
        forall|i: int| k <= i < xs.len() ==> all_present(#[trigger] xs[i]),
    ensures
        tick_outputs(kw, xs) is Some,
        forall|i: int| k <= i < xs.len() ==> tick_outputs(kw, xs).unwrap()[i] == 0,
{
    lemma_tick_blowup_prefix(kw, xs, k, xs.len() as int);
    assert(xs.take(xs.len() as int) =~= xs);
}

proof fn lemma_bar_blowup_prefix(p: BarParams, xs: Seq<Bar>, k: int, j: int)
    requires
        p.blowup,
        0 <= k <= j <= xs.len(),
        bar_run(p, xs.take(k)) is Some,
        bar_run(p, xs.take(k)).unwrap().0.cash <= 0,
        forall|i: int| k <= i < xs.len() ==> bar_present(#[trigger] xs[i]),
    ensures
        bar_run(p, xs.take(j)) is Some,
        bar_run(p, xs.take(j)).unwrap().0 == bar_run(p, xs.take(k)).unwrap().0,
        bar_run(p, xs.take(j)).unwrap().1.len() == j,
        forall|i: int| k <= i < j ==> bar_run(p, xs.take(j)).unwrap().1[i] == 0,
    decreases j - k,
{
    lemma_bar_run_len(p, xs.take(k));
    if j > k {
        lemma_bar_blowup_prefix(p, xs, k, j - 1);
        lemma_take_last(xs, j - 1);
        assert(bar_present(xs[j - 1]));
    }
}

proof fn lemma_bar_run_len(p: BarParams, xs: Seq<Bar>)
    ensures
        bar_run(p, xs) is Some ==> bar_run(p, xs).unwrap().1.len() == xs.len(),
    decreases xs.len(),
{
    if xs.len() > 0 {
        lemma_bar_run_len(p, xs.drop_last());
    }
}

/// With `blowup`, once the cash of the account is at or below zero, every
/// later bar that has all its values gives exactly zero.
pub proof fn lemma_bar_blowup_holds_zero(p: BarParams, xs: Seq<Bar>, k: int)
    requires
        p.blowup,
        0 <= k <= xs.len(),
        bar_run(p, xs.take(k)) is Some,
        bar_run(p, xs.take(k)).unwrap().0.cash <= 0,
        forall|i: int| k <= i < xs.len() ==> bar_present(#[trigger] xs[i]),
    ensures
        bar_outputs(p, xs) is Some,
        forall|i: int| k <= i < xs.len() ==> bar_outputs(p, xs).unwrap()[i] == 0,
{
    lemma_bar_blowup_prefix(p, xs, k, xs.len() as int);
    assert(xs.take(xs.len() as int) =~= xs);
}

proof fn lemma_full_blowup_prefix(kw: TickFutureRetFullKwargs, xs: Seq<Tick>, k: int, j: int)
    requires
        kw.blowup,
        0 <= k <= j <= xs.len(),
        full_run(kw, xs.take(k)) is Some,
        full_run(kw, xs.take(k)).unwrap().0.cash <= 0,
        forall|i: int| k <= i < xs.len() ==> all_present(#[trigger] xs[i]),
    ensures
        full_run(kw, xs.take(j)) is Some,
        full_run(kw, xs.take(j)).unwrap().0 == full_run(kw, xs.take(k)).unwrap().0,
        full_run(kw, xs.take(j)).unwrap().1.len() == j,
        forall|i: int| k <= i < j ==> (#[trigger] full_run(kw, xs.take(j)).unwrap().1[i]).unrealized == 0,
    decreases j - k,
{
    lemma_full_run_len(kw, xs.take(k));
    if j > k {
        lemma_full_blowup_prefix(kw, xs, k, j - 1);
        lemma_take_last(xs, j - 1);
        assert(all_present(xs[j - 1]));
    }
}

proof fn lemma_full_run_len(kw: TickFutureRetFullKwargs, xs: Seq<Tick>)
    ensures
        full_run(kw, xs) is Some ==> full_run(kw, xs).unwrap().1.len() == xs.len(),
    decreases xs.len(),
{
    if xs.len() > 0 {
        lemma_full_run_len(kw, xs.drop_last());
    }
}

/// With `blowup`, once the cash of the account is at or below zero, every
/// later tick that has all its values reports exactly zero unrealized profit.
pub proof fn lemma_full_blowup_holds_zero(kw: TickFutureRetFullKwargs, xs: Seq<Tick>, k: int)
    requires
        kw.blowup,
        0 <= k <= xs.len(),
        full_run(kw, xs.take(k)) is Some,
        full_run(kw, xs.take(k)).unwrap().0.cash <= 0,
        forall|i: int| k <= i < xs.len() ==> all_present(#[trigger] xs[i]),
    ensures
        full_outputs(kw, xs) is Some,
        forall|i: int| k <= i < xs.len() ==> (#[trigger] full_outputs(kw, xs).unwrap()[i]).unrealized == 0,
{
    lemma_full_blowup_prefix(kw, xs, k, xs.len() as int);
    assert(xs.take(xs.len() as int) =~= xs);
}

/// A run is a function of its configuration and inputs: running the tick
/// engine again on the same inputs gives the same outputs.
pub proof fn lemma_tick_rerun_same(
    kw1: TickFutureRetKwargs,
    xs1: Seq<Tick>,
    kw2: TickFutureRetKwargs,
    xs2: Seq<Tick>,
)
    requires
        kw1 == kw2,
        xs1 == xs2,
    ensures
        tick_outputs(kw1, xs1) == tick_outputs(kw2, xs2),
{
}

/// Running the bar engine again on the same inputs gives the same outputs.
pub proof fn lemma_bar_rerun_same(first: BarParams, xs1: Seq<Bar>, second: BarParams, xs2: Seq<Bar>)
    requires
        first == second,
        xs1 == xs2,
    ensures
        bar_outputs(first, xs1) == bar_outputs(second, xs2),
{
}

/// Running the full attribution engine again on the same inputs gives the
/// same outputs.
pub proof fn lemma_full_rerun_same(
    kw1: TickFutureRetFullKwargs,
    xs1: Seq<Tick>,
    kw2: TickFutureRetFullKwargs,
    xs2: Seq<Tick>,
)
    requires
        kw1 == kw2,
        xs1 == xs2,
    ensures
        full_outputs(kw1, xs1) == full_outputs(kw2, xs2),
{
}

/// Opening a position from a flat account and closing it again at an
/// unchanged price with no commission and no spread returns the cash to its
/// value before the trade. With lot-count signals both steps always succeed.
pub proof fn lemma_tick_round_trip(kw: TickFutureRetKwargs, st: Account, s: int, price: int)
    requires
        kw.wf(),
        kw.c_rate == 0,
        account_ok(st),
        st.lot == 0,
        st.signal == 0,
        !st.rollover,
        s != 0,
        signal_ok(kw.signal_type, s),
        price_ok(price),
        !kw.blowup || st.cash > 0,
    ensures
        ({
            let open = Tick { signal: Some(s), bid: Some(price), ask: Some(price), rollover: false };
            let close = Tick {
                signal: Some(0),
                bid: Some(price),
                ask: Some(price),
                rollover: false,
            };
            &&& kw.signal_type == SignalType::Absolute ==> tick_step(kw, st, open) is Some
            &&& tick_step(kw, st, open) is Some ==> {
                let held = tick_step(kw, st, open).unwrap().0;
                &&& tick_step(kw, held, close) is Some
                &&& tick_step(kw, held, close).unwrap().0.cash == st.cash
                &&& tick_step(kw, held, close).unwrap().0.lot == 0
            }
        }),
{
    let m = kw.multiplier as int;
    let c = lot_cost(kw.commission_type, m, 0, 2 * price, 0);
    assert(c == 0);
    assert forall|x: int| #[trigger] (x * c) == 0 by {
        lemma_mul_basics(x);
    }
    assert forall|x: int, y: int| #[trigger] move_value(x, 0, y) == 0 by {
        assert(x * 0 * y * HALF_MONEY == 0) by (nonlinear_arith);
    }
    assert forall|x: int| #[trigger] (x * magnitude(0)) == 0 by {
        lemma_mul_basics(x);
    }
    let open = Tick { signal: Some(s), bid: Some(price), ask: Some(price), rollover: false };
    let close = Tick { signal: Some(0), bid: Some(price), ask: Some(price), rollover: false };
    if kw.signal_type == SignalType::Absolute {
        assert(tick_step(kw, st, open) is Some);
        let held = tick_step(kw, st, open).unwrap().0;
        assert(held.cash == st.cash);
        assert(held.lot == s);
        assert(held.ref2 == 2 * price);
        assert(tick_step(kw, held, close) is Some);
        assert(tick_step(kw, held, close).unwrap().0.cash == st.cash);
    } else if tick_step(kw, st, open) is Some {
        let held = tick_step(kw, st, open).unwrap().0;
        assert(held.cash == st.cash);
        assert(held.ref2 == 2 * price);
        assert(held.signal == s);
        assert(MONEY_SCALE * FRACTION_SCALE == 10_000_000_000_000);
        let d = MONEY_SCALE * FRACTION_SCALE * m * (2 * price);
        lemma_mul_pos(MONEY_SCALE * FRACTION_SCALE, m);
        lemma_mul_pos(
            MONEY_SCALE * FRACTION_SCALE * m,
            2 * price,
        );
        lemma_div_basics(d);
        assert(held.cash * magnitude(0) * 2 == 0);
        assert(percent_lots(held.cash, 0, m, 2 * price) == 0);
        assert(tick_step(kw, held, close) is Some);
        assert(tick_step(kw, held, close).unwrap().0.cash == st.cash);
    }
}

/// A closed leg books into realized profit exactly its price move times
/// size and multiplier, less the commission of its entry and of its exit:
/// from a flat account, entering `lots` lots and then closing them leaves
/// realized profit changed by `(exit - entry) * lots * multiplier` (in
/// money units) minus both fees, and the account flat again.
pub proof fn lemma_full_closed_leg(
    kw: TickFutureRetFullKwargs,
    st: Account,
    lots: int,
    bid1: int,
    ask1: int,
    bid2: int,
    ask2: int,
)
    requires
        kw.wf(),
        !kw.blowup,
        account_ok(st),
        st.lot == 0,
        !st.rollover,
        lots != 0,
        lots_ok(lots),
        price_ok(bid1),
        price_ok(ask1),
        price_ok(bid2),
        price_ok(ask2),
    ensures
        ({
            let enter = Tick { signal: Some(lots), bid: Some(bid1), ask: Some(ask1), rollover: false };
            let exit = Tick { signal: Some(0), bid: Some(bid2), ask: Some(ask2), rollover: false };
            let entry_price = if lots > 0 {
                ask1
            } else {
                bid1
            };
            let exit_price = if lots > 0 {
                bid2
            } else {
                ask2
            };
            let m = kw.multiplier as int;
            let fee = |p: int| lot_fee(kw.commission_type, m, kw.c_rate as int, p);
            full_step(kw, st, enter) is Some ==> {
                let held = full_step(kw, st, enter).unwrap().0;
                full_step(kw, held, exit) is Some ==> {
                    let after = full_step(kw, held, exit).unwrap().0;
                    &&& after.realized == st.realized + (exit_price - entry_price) * MONEY_SCALE
                        * lots * m - magnitude(lots) * fee(entry_price) - magnitude(lots) * fee(
                        exit_price,
                    )
                    &&& after.lot == 0
                    &&& after.open_price is None
                    &&& !after.rollover
                }
            }
        }),
{
    let enter = Tick { signal: Some(lots), bid: Some(bid1), ask: Some(ask1), rollover: false };
    let exit = Tick { signal: Some(0), bid: Some(bid2), ask: Some(ask2), rollover: false };
    let entry_price = if lots > 0 {
        ask1
    } else {
        bid1
    };
    let exit_price = if lots > 0 {
        bid2
    } else {
        ask2
    };
    let m = kw.multiplier as int;
    if full_step(kw, st, enter) is Some {
        let held = full_step(kw, st, enter).unwrap().0;
        assert(held.open_price == Some(entry_price * MONEY_SCALE));
        assert(held.lot == lots);
        assert((exit_price * MONEY_SCALE - entry_price * MONEY_SCALE) * lots * m == (exit_price
            - entry_price) * MONEY_SCALE * lots * m) by (nonlinear_arith);
    }
}

/// Under the average method, an increase of a position keeps the open price
/// within any range that holds both the open price before and the new fill.
/// Since opening sets the open price to the first fill, the open price after
/// any run of same-direction increases lies between the lowest and highest
/// fill of that run.
pub proof fn lemma_average_open_price_within_fills(
    kw: TickFutureRetFullKwargs,
    st: Account,
    s: int,
    bid: int,
    ask: int,
    lo: int,
    hi: int,
)
    requires
        kw.wf(),
        kw.open_price_method == OpenPriceMethod::Average,
        account_ok(st),
        !st.rollover,
        st.lot != 0,
        lots_ok(s),
        sign(s) == sign(st.lot),
        magnitude(s) > magnitude(st.lot),
        price_ok(bid),
        price_ok(ask),
        st.open_price is Some,
        lo <= st.open_price.unwrap() <= hi,
        lo <= (if s > st.lot {
            ask
        } else {
            bid
        }) * MONEY_SCALE <= hi,
    ensures
        full_tick(kw, st, s, bid, ask, false) is Some ==> {
            let next = full_tick(kw, st, s, bid, ask, false).unwrap().0.open_price;
            next is Some && lo <= next.unwrap() <= hi
        },
{
    let b = st.open_price.unwrap();
    let fill = (if s > st.lot {
        ask
    } else {
        bid
    }) * MONEY_SCALE;
    lemma_blend_between(b, fill, magnitude(st.lot), magnitude(s) - magnitude(st.lot), lo, hi);
    assert(magnitude(st.lot) + (magnitude(s) - magnitude(st.lot)) == magnitude(s));
}

/// Opening a position from flat sets the open price to the fill.
pub proof fn lemma_open_price_is_first_fill(
    kw: TickFutureRetFullKwargs,
    st: Account,
    s: int,
    bid: int,
    ask: int,
)
    requires
        kw.wf(),
        account_ok(st),
        !st.rollover,
        st.lot == 0,
        s != 0,
        lots_ok(s),
        price_ok(bid),
        price_ok(ask),
    ensures
        full_tick(kw, st, s, bid, ask, false) is Some ==> full_tick(
            kw,
            st,
            s,
            bid,
            ask,
            false,
        ).unwrap().0.open_price == Some(
            (if s > 0 {
                ask
            } else {
                bid
            }) * MONEY_SCALE,
        ),
{
}

/// Opening a position from a flat account and closing it on the next bar,
/// with every price unchanged and no trading cost, returns the cash to its
/// value before the trade.
pub proof fn lemma_bar_round_trip(
    p: BarParams,
    st: Account,
    pos: int,
    price: int,
    spread: Option<int>,
)
    requires
        p.wf(),
        account_ok(st),
        st.lot == 0,
        st.signal == 0,
        pos != 0,
        -MAX_FRACTION <= pos <= MAX_FRACTION,
        price_ok(price),
        bar_lot_cost(p, price, spread) == 0,
        !p.blowup || st.cash > 0,
    ensures
        ({
            let open = Bar {
                pos: Some(pos),
                open: Some(price),
                close: Some(price),
                spread,
                rollover: false,
            };
            let close = Bar {
                pos: Some(0),
                open: Some(price),
                close: Some(price),
                spread,
                rollover: false,
            };
            bar_step(p, st, open) is Some ==> {
                let held = bar_step(p, st, open).unwrap().0;
                &&& bar_step(p, held, close) is Some
                &&& bar_step(p, held, close).unwrap().0.cash == st.cash
                &&& bar_step(p, held, close).unwrap().0.lot == 0
            }
        }),
{
    let m = p.multiplier as int;
    let c = bar_lot_cost(p, price, spread);
    assert forall|x: int| #[trigger] (x * c) == 0 by {
        lemma_mul_basics(x);
    }
    assert forall|x: int, y: int| #[trigger] move_value(x, 0, y) == 0 by {
        assert(x * 0 * y * HALF_MONEY == 0) by (nonlinear_arith);
    }
    let open = Bar { pos: Some(pos), open: Some(price), close: Some(price), spread, rollover: false };
    let close = Bar { pos: Some(0), open: Some(price), close: Some(price), spread, rollover: false };
    if bar_step(p, st, open) is Some {
        let held = bar_step(p, st, open).unwrap().0;
        assert(held.cash == st.cash);
        assert(held.signal == pos);
        assert(held.ref2 == 2 * price);
        let d = SIZING_SCALE * m * price;
        lemma_mul_pos(SIZING_SCALE as int, m);
        lemma_mul_pos(SIZING_SCALE * m, price);
        lemma_div_basics(d);
        assert(held.cash * p.leverage * magnitude(0) == 0) by (nonlinear_arith);
        assert(bar_lots(held.cash, p.leverage as int, 0, m, price) == 0);
    }
}

} // verus!

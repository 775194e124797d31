use tea_strategy::{
    calc_future_ret, calc_future_ret_with_spread, CommissionType, FutureRetKwargs,
    FutureRetSpreadKwargs, FRACTION_SCALE, MONEY_SCALE,
};

fn some(v: &[i64]) -> Vec<Option<i64>> {
    v.iter().map(|x| Some(*x)).collect()
}

fn money(v: &[i128]) -> Vec<f64> {
    v.iter().map(|x| *x as f64 / MONEY_SCALE as f64).collect()
}

fn assert_close(got: &[f64], expect: &[f64]) {
    assert_eq!(got.len(), expect.len());
    for (g, e) in got.iter().zip(expect) {
        assert!((g - e).abs() < 1e-7, "{} != {}", g, e);
    }
}

fn kwargs(c_rate: i64, commission_type: CommissionType) -> FutureRetKwargs {
    FutureRetKwargs {
        init_cash: 1000,
        multiplier: 1,
        leverage: FRACTION_SCALE as i64,
        slippage: 0,
        ticksize: 1,
        c_rate,
        blowup: false,
        commission_type,
    }
}

#[test]
fn bar_engine_marks_to_market() {
    let full = FRACTION_SCALE as i64;
    let pos = some(&[0, full, full, 0]);
    let open = some(&[10, 10, 11, 12]);
    let close = some(&[10, 11, 12, 12]);
    let res = calc_future_ret(&pos, &open, &close, None, &kwargs(0, CommissionType::Percent));
    assert_close(&money(&res.unwrap()), &[1000., 1100., 1200., 1200.]);
}

#[test]
fn bar_engine_percent_commission() {
    let full = FRACTION_SCALE as i64;
    let pos = some(&[0, full, full, 0]);
    let open = some(&[10, 10, 11, 12]);
    let close = some(&[10, 11, 12, 12]);
    // 0.1% of notional: 100 lots at 10 cost 1, at 12 cost 1.2
    let res = calc_future_ret(&pos, &open, &close, None, &kwargs(100_000, CommissionType::Percent));
    assert_close(&money(&res.unwrap()), &[1000., 1099., 1199., 1197.8]);
}

#[test]
fn bar_engine_slippage() {
    let full = FRACTION_SCALE as i64;
    let pos = some(&[full, 0]);
    let open = some(&[10, 10]);
    let close = some(&[10, 10]);
    let mut k = kwargs(0, CommissionType::Absolute);
    k.slippage = 2;
    // 100 lots, 2 ticks of 1 each way
    let res = calc_future_ret(&pos, &open, &close, None, &k);
    assert_close(&money(&res.unwrap()), &[800., 600.]);
}

#[test]
fn bar_rollover_skips_gap_and_charges_round_trip() {
    let full = FRACTION_SCALE as i64;
    let pos = some(&[full, full]);
    let open = some(&[10, 20]);
    let close = some(&[10, 20]);
    let chg = vec![Some(false), Some(true)];
    // 0.01 per lot: 100 lots bought, then a round trip on those 100 lots
    let res = calc_future_ret(&pos, &open, &close, Some(&chg), &kwargs(1_000_000, CommissionType::Absolute));
    assert_close(&money(&res.unwrap()), &[999., 997.]);
}

#[test]
fn bar_missing_values_and_blowup() {
    let pos = vec![Some(FRACTION_SCALE as i64), None, Some(FRACTION_SCALE as i64)];
    let open = some(&[10, 10, 1]);
    let close = some(&[10, 10, 1]);
    let mut k = kwargs(0, CommissionType::Percent);
    k.leverage = 2 * FRACTION_SCALE as i64;
    k.blowup = true;
    // 200 lots at 10, then the price falls to 1: 1000 - 1800 < 0
    let res = calc_future_ret(&pos, &open, &close, None, &k).unwrap();
    assert_close(&money(&res), &[1000., 1000., -800.]);
    let more = calc_future_ret(
        &some(&[FRACTION_SCALE as i64; 4]),
        &some(&[10, 1, 5, 5]),
        &some(&[10, 1, 5, 5]),
        None,
        &k,
    )
    .unwrap();
    assert_close(&money(&more), &[1000., -800., 0., 0.]);
}

#[test]
fn spread_engine_uses_given_spread() {
    let full = FRACTION_SCALE as i64;
    let pos = some(&[0, full, full, 0]);
    let open = some(&[10, 10, 11, 12]);
    let close = some(&[10, 11, 12, 12]);
    let spread = vec![None, Some(1), Some(1), None];
    let k = FutureRetSpreadKwargs {
        init_cash: 1000,
        multiplier: 1,
        leverage: FRACTION_SCALE as i64,
        c_rate: 50_000_000,
        blowup: false,
        commission_type: CommissionType::Absolute,
    };
    // 100 lots at 0.5 + 1 each, then closed at 0.5 + 0.5 each
    let res = calc_future_ret_with_spread(&pos, &open, &close, &spread, None, &k);
    assert_close(&money(&res.unwrap()), &[1000., 950., 1050., 950.]);
}

#[test]
fn spread_engine_percent() {
    let full = FRACTION_SCALE as i64;
    let pos = some(&[full, 0]);
    let open = some(&[10, 10]);
    let close = some(&[10, 10]);
    let spread = vec![Some(0), None];
    let k = FutureRetSpreadKwargs {
        init_cash: 1000,
        multiplier: 1,
        leverage: FRACTION_SCALE as i64,
        c_rate: 100_000,
        blowup: false,
        commission_type: CommissionType::Percent,
    };
    // 100 lots: 0.01 each to open; commission twice (0.02 each) to close
    let res = calc_future_ret_with_spread(&pos, &open, &close, &spread, None, &k);
    assert_close(&money(&res.unwrap()), &[999., 997.]);
}

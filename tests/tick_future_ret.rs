use tea_strategy::{
    calc_tick_future_ret, CommissionType, EngineError, SignalType, TickFutureRetKwargs,
    FRACTION_SCALE, MONEY_SCALE,
};

fn money(v: &[i128]) -> Vec<f64> {
    v.iter().map(|x| *x as f64 / MONEY_SCALE as f64).collect()
}

fn assert_close(got: &[f64], expect: &[f64]) {
    assert_eq!(got.len(), expect.len());
    for (g, e) in got.iter().zip(expect) {
        assert!((g - e).abs() < 1e-7, "{} != {}", g, e);
    }
}

fn some(v: &[i64]) -> Vec<Option<i64>> {
    v.iter().map(|x| Some(*x)).collect()
}

fn quotes() -> (Vec<Option<i64>>, Vec<Option<i64>>, Vec<Option<bool>>) {
    let bid = some(&[101, 102, 103, 104, 103, 101, 206, 204, 208, 204, 202, 201]);
    let ask = some(&[102, 103, 104, 105, 104, 102, 207, 205, 209, 205, 203, 202]);
    let chg = vec![
        false, false, false, false, false, true, false, false, false, false, false, false,
    ]
    .into_iter()
    .map(Some)
    .collect();
    (bid, ask, chg)
}

#[test]
fn test_tick_future_ret_percent_signal() {
    let (bid, ask, chg) = quotes();
    let signal: Vec<Option<i64>> = [0i64, 1, 1, 1, 1, 1, 1, 0, -1, -1, 1, 1]
        .iter()
        .map(|s| Some(s * FRACTION_SCALE as i64))
        .collect();
    let kwargs = TickFutureRetKwargs {
        init_cash: 10000,
        multiplier: 1,
        c_rate: 10_000,
        blowup: true,
        commission_type: CommissionType::Percent,
        signal_type: SignalType::Percent,
    };
    let res = calc_tick_future_ret(&signal, &bid, &ask, Some(&chg), &kwargs).unwrap();
    let expect = vec![
        10000.0, 10000.0, 10047.5009, 10144.5009, 10047.5009, 9853.5009, 9779.5458, 9685.5458,
        9661.087, 9821.1302, 9913.1302, 9816.222,
    ];
    assert_close(&money(&res), &expect);
}

#[test]
fn test_tick_future_ret_absolute_signal() {
    let (bid, ask, chg) = quotes();
    let signal = some(&[0, 1, 1, 2, 2, 1, 1, 0, -1, -1, 2, 2]);
    let kwargs = TickFutureRetKwargs {
        init_cash: 10000,
        multiplier: 1,
        c_rate: 10_000,
        blowup: true,
        commission_type: CommissionType::Percent,
        signal_type: SignalType::Absolute,
    };
    let res = calc_tick_future_ret(&signal, &bid, &ask, Some(&chg), &kwargs).unwrap();
    let expect = vec![
        10000.0, 10000.0, 10000.4897, 10001.4897, 9998.9792, 9994.9792, 9993.43825, 9991.43825,
        9990.91785, 9994.39705, 9996.39705, 9992.83615,
    ];
    assert_close(&money(&res), &expect);
}

#[test]
fn absolute_commission_per_lot() {
    // buy 2 lots at ask 11 (mid 10.5): spread 0.5 per lot and 1.0 fixed commission
    let signal = some(&[0, 2, 2]);
    let bid = some(&[10, 10, 12]);
    let ask = some(&[11, 11, 13]);
    let kwargs = TickFutureRetKwargs {
        init_cash: 100,
        multiplier: 1,
        c_rate: 100_000_000,
        blowup: false,
        commission_type: CommissionType::Absolute,
        signal_type: SignalType::Absolute,
    };
    let res = calc_tick_future_ret(&signal, &bid, &ask, None, &kwargs).unwrap();
    // cash after the trade: 100 - 2 * (1 + 0.5) = 97; then 2 lots gain 2 * 2 = 4
    assert_close(&money(&res), &[100., 100., 101.]);
}

#[test]
fn missing_value_repeats_cash() {
    let signal = vec![Some(0), Some(1), None, Some(1)];
    let bid = some(&[10, 10, 10, 12]);
    let ask = vec![Some(10), Some(10), Some(10), None];
    let kwargs = TickFutureRetKwargs {
        init_cash: 100,
        multiplier: 1,
        c_rate: 0,
        blowup: false,
        commission_type: CommissionType::Percent,
        signal_type: SignalType::Absolute,
    };
    let res = calc_tick_future_ret(&signal, &bid, &ask, None, &kwargs).unwrap();
    assert_close(&money(&res), &[100., 100., 100., 100.]);
}

#[test]
fn blowup_holds_output_at_zero() {
    // 1 lot bought at 10 then the price falls to 1: cash 5 - 9 = -4
    let signal = some(&[1, 1, 1, 1]);
    let bid = some(&[10, 1, 20, 20]);
    let ask = some(&[10, 1, 20, 20]);
    let kwargs = TickFutureRetKwargs {
        init_cash: 5,
        multiplier: 1,
        c_rate: 0,
        blowup: true,
        commission_type: CommissionType::Percent,
        signal_type: SignalType::Absolute,
    };
    let res = calc_tick_future_ret(&signal, &bid, &ask, None, &kwargs).unwrap();
    assert_close(&money(&res), &[5., -4., 0., 0.]);
    let again = calc_tick_future_ret(&signal, &bid, &ask, None, &kwargs).unwrap();
    assert_eq!(res, again);
}

#[test]
fn round_trip_without_cost_restores_cash() {
    let signal: Vec<Option<i64>> = vec![Some(0), Some(FRACTION_SCALE as i64 / 2), Some(0)];
    let bid = some(&[50, 50, 50]);
    let ask = some(&[50, 50, 50]);
    let kwargs = TickFutureRetKwargs {
        init_cash: 1000,
        multiplier: 2,
        c_rate: 0,
        blowup: false,
        commission_type: CommissionType::Percent,
        signal_type: SignalType::Percent,
    };
    let res = calc_tick_future_ret(&signal, &bid, &ask, None, &kwargs).unwrap();
    assert_eq!(res, vec![1000 * MONEY_SCALE; 3]);
}

#[test]
fn huge_position_overflows() {
    let signal = some(&[0, 4_294_967_296, -4_294_967_296]);
    let bid = some(&[1, 4_294_967_296, 1]);
    let ask = some(&[1, 4_294_967_296, 1]);
    let kwargs = TickFutureRetKwargs {
        init_cash: 0,
        multiplier: 65_536,
        c_rate: 68_719_476_736,
        blowup: false,
        commission_type: CommissionType::Percent,
        signal_type: SignalType::Absolute,
    };
    let res = calc_tick_future_ret(&signal, &bid, &ask, None, &kwargs);
    assert_eq!(res, Err(EngineError::Overflow));
}

#[test]
fn default_tick_kwargs() {
    let k = TickFutureRetKwargs::default();
    assert_eq!(k.c_rate, 30_000);
    assert_eq!(k.multiplier, 1);
    assert_eq!(k.signal_type, SignalType::Percent);
}

#[test]
fn missing_value_after_blowup_repeats_cash() {
    let signal = vec![Some(1), Some(1), Some(1), None];
    let bid = some(&[10, 1, 20, 20]);
    let ask = some(&[10, 1, 20, 20]);
    let kwargs = TickFutureRetKwargs {
        init_cash: 5,
        multiplier: 1,
        c_rate: 0,
        blowup: true,
        commission_type: CommissionType::Percent,
        signal_type: SignalType::Absolute,
    };
    let res = calc_tick_future_ret(&signal, &bid, &ask, None, &kwargs).unwrap();
    assert_close(&money(&res), &[5., -4., 0., -4.]);
}

use tea_strategy::{
    calc_tick_future_ret_full, EngineError, OpenPriceMethod, Profit, SignalType,
    TickFutureRetFullKwargs, MONEY_SCALE,
};

fn to_f64(x: i128) -> f64 {
    x as f64 / MONEY_SCALE as f64
}

fn assert_close(got: &[f64], expect: &[f64]) {
    assert_eq!(got.len(), expect.len());
    for (g, e) in got.iter().zip(expect) {
        if e.is_nan() {
            assert!(g.is_nan(), "{} is not NaN", g);
        } else {
            assert!((g - e).abs() < 1e-7, "{} != {}", g, e);
        }
    }
}

fn some(v: &[i64]) -> Vec<Option<i64>> {
    v.iter().map(|x| Some(*x)).collect()
}

fn fixture(kwargs: &TickFutureRetFullKwargs) -> Result<Vec<Profit>, EngineError> {
    let bid = some(&[101, 102, 103, 104, 103, 101, 206, 204, 208, 204, 202, 201]);
    let ask = some(&[102, 103, 104, 105, 104, 102, 207, 205, 209, 205, 203, 202]);
    let signal = some(&[0, 1, 1, 2, 2, 1, 1, 0, -1, -1, 2, 2]);
    let chg: Vec<Option<bool>> = vec![
        false, false, false, false, false, true, false, false, false, false, false, false,
    ]
    .into_iter()
    .map(Some)
    .collect();
    calc_tick_future_ret_full(&signal, &bid, &ask, Some(&chg), kwargs)
}

fn open_prices(res: &[Profit]) -> Vec<f64> {
    res.iter().map(|p| p.open_price.map(to_f64).unwrap_or(f64::NAN)).collect()
}

#[test]
fn test_tick_future_ret_full_absolute_signal() {
    let kwargs = TickFutureRetFullKwargs { c_rate: 10_000, ..Default::default() };
    let res = fixture(&kwargs).unwrap();
    let nan = f64::NAN;
    let expect_open_price =
        vec![nan, nan, 103., 103., 104., 104., 207., 207., nan, 208., 208., 203.];
    assert_close(&open_prices(&res), &expect_open_price);
    let expect_realize_profit = vec![
        0., 0., -0.0103, -0.0103, -0.0208, -0.0208, -6.0617, -6.0617, -9.0821, -9.1029, -9.1029,
        -4.1638,
    ];
    assert_close(
        &res.iter().map(|p| to_f64(p.realized)).collect::<Vec<_>>(),
        &expect_realize_profit,
    );
    let expect_unrealize_profit: Vec<f64> = vec![
        10000.0, 10000.0, 10000.4897, 10001.4897, 9998.9792, 9994.9792, 9993.43825, 9991.43825,
        9990.91785, 9994.39705, 9996.39705, 9992.83615,
    ]
    .into_iter()
    .map(|v| v - 10000.)
    .collect();
    assert_close(
        &res.iter().map(|p| to_f64(p.unrealized)).collect::<Vec<_>>(),
        &expect_unrealize_profit,
    );
}

#[test]
fn first_and_last_open_price_methods() {
    let first = TickFutureRetFullKwargs {
        c_rate: 10_000,
        open_price_method: OpenPriceMethod::First,
        ..Default::default()
    };
    let res = fixture(&first).unwrap();
    assert_eq!(res[4].open_price, Some(103 * MONEY_SCALE));
    let last = TickFutureRetFullKwargs {
        c_rate: 10_000,
        open_price_method: OpenPriceMethod::Last,
        ..Default::default()
    };
    let res = fixture(&last).unwrap();
    assert_eq!(res[4].open_price, Some(105 * MONEY_SCALE));
}

#[test]
fn percent_signal_is_unsupported() {
    let kwargs = TickFutureRetFullKwargs {
        signal_type: SignalType::Percent,
        ..Default::default()
    };
    assert_eq!(fixture(&kwargs), Err(EngineError::Unsupported));
}

#[test]
fn closed_leg_books_price_move_less_fees() {
    // buy 3 at ask 11, sell 3 at bid 14: (14 - 11) * 3 = 9, fees 3 * 0.011 + 3 * 0.014
    let signal = some(&[3, 0, 0]);
    let bid = some(&[10, 14, 14]);
    let ask = some(&[11, 15, 15]);
    let kwargs = TickFutureRetFullKwargs { c_rate: 100_000, ..Default::default() };
    let res = calc_tick_future_ret_full(&signal, &bid, &ask, None, &kwargs).unwrap();
    assert_close(&[to_f64(res[2].realized)], &[9. - 0.033 - 0.042]);
    assert_eq!(res[2].open_price, None);
}

#[test]
fn average_open_price_stays_between_fills() {
    let signal = some(&[1, 2, 4, 4]);
    let bid = some(&[9, 11, 12, 12]);
    let ask = some(&[10, 12, 13, 13]);
    let kwargs = TickFutureRetFullKwargs { c_rate: 0, ..Default::default() };
    let res = calc_tick_future_ret_full(&signal, &bid, &ask, None, &kwargs).unwrap();
    // fills 10, 12, then 2 more at 13: average (11 * 2 + 13 * 2) / 4 = 12
    assert_eq!(res[1].open_price, Some(10 * MONEY_SCALE));
    assert_eq!(res[2].open_price, Some(11 * MONEY_SCALE));
    assert_eq!(res[3].open_price, Some(12 * MONEY_SCALE));
}

#[test]
fn full_blowup_zeroes_unrealized() {
    let signal = some(&[1, 1, 1]);
    let bid = some(&[10, 1, 30]);
    let ask = some(&[10, 1, 30]);
    let kwargs = TickFutureRetFullKwargs {
        init_cash: 5,
        c_rate: 0,
        blowup: true,
        ..Default::default()
    };
    let res = calc_tick_future_ret_full(&signal, &bid, &ask, None, &kwargs).unwrap();
    assert_eq!(res[1].unrealized, -9 * MONEY_SCALE);
    assert_eq!(res[2].unrealized, 0);
}

use tea_strategy::future_ret::check_bar_inputs;
use tea_strategy::tick_future_ret::check_tick_inputs;
use tea_strategy::{
    CommissionType, FutureRetKwargs, FutureRetSpreadKwargs, SignalType, TickFutureRetFullKwargs,
    TickFutureRetKwargs,
};

#[test]
fn configuration_ranges() {
    assert!(TickFutureRetKwargs::default().is_valid());
    assert!(TickFutureRetFullKwargs::default().is_valid());
    let zero_multiplier = TickFutureRetKwargs { multiplier: 0, ..Default::default() };
    assert!(!zero_multiplier.is_valid());
    let bar = FutureRetKwargs {
        init_cash: 1000,
        multiplier: 10,
        leverage: 20_000,
        slippage: 1,
        ticksize: 2,
        c_rate: 30_000,
        blowup: true,
        commission_type: CommissionType::Percent,
    };
    assert!(bar.is_valid());
    assert!(!FutureRetKwargs { slippage: 1 << 20, ..bar }.is_valid());
    let spread = FutureRetSpreadKwargs {
        init_cash: 1000,
        multiplier: 10,
        leverage: 20_000,
        c_rate: 30_000,
        blowup: true,
        commission_type: CommissionType::Absolute,
    };
    assert!(spread.is_valid());
    assert!(!FutureRetSpreadKwargs { leverage: 1 << 40, ..spread }.is_valid());
}

#[test]
fn tick_input_checks() {
    let signal = vec![Some(1), None];
    let good = vec![Some(10), None];
    let bad = vec![Some(10), Some(0)];
    assert!(check_tick_inputs(SignalType::Absolute, &signal, &good, &good, None));
    assert!(!check_tick_inputs(SignalType::Absolute, &signal, &bad, &good, None));
    assert!(!check_tick_inputs(SignalType::Absolute, &signal, &good, &vec![Some(10)], None));
    let flags = vec![Some(true)];
    assert!(!check_tick_inputs(SignalType::Absolute, &signal, &good, &good, Some(&flags)));
    let big = vec![Some(1_000_000), None];
    assert!(!check_tick_inputs(SignalType::Percent, &big, &good, &good, None));
    assert!(check_tick_inputs(SignalType::Absolute, &big, &good, &good, None));
}

#[test]
fn bar_input_checks() {
    let pos = vec![Some(10_000), Some(-10_000)];
    let price = vec![Some(10), Some(11)];
    assert!(check_bar_inputs(&pos, &price, &price, None, None));
    assert!(!check_bar_inputs(&pos, &price, &vec![Some(10), Some(-1)], None, None));
    let spread = vec![None, Some(1 << 40)];
    assert!(!check_bar_inputs(&pos, &price, &price, Some(&spread), None));
}

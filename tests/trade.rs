use tea_strategy::{signal_to_trades, PriceVec, Trade, TradeSide, FRACTION_SCALE};

const MINUTE: i64 = 60_000_000_000;
// 2021-01-01 00:00:00 in nanoseconds since the epoch
const START: i64 = 1_609_459_200_000_000_000;

fn fraction(x: f64) -> Option<i64> {
    Some((x * FRACTION_SCALE as f64).round() as i64)
}

#[test]
fn test_signal_to_trade() {
    let signal: Vec<Option<i64>> = [0., 0., 0.5, 0.5, 1., 0.2].iter().map(|x| fraction(*x)).collect();
    let time: Vec<i64> = (0..6).map(|k| START + k * MINUTE).collect();
    let price: Vec<Option<i64>> = vec![10, 11, 12, 13, 14, 15].into_iter().map(Some).collect();
    let trades = signal_to_trades(&signal, &PriceVec::Single(price.clone()), &time);
    let expect = vec![
        Trade::new(time[2], TradeSide::Buy, price[2], 5_000),
        Trade::new(time[4], TradeSide::Buy, price[4], 5_000),
        Trade::new(time[5], TradeSide::Sell, price[5], 8_000),
    ];
    assert_eq!(trades, expect)
}

#[test]
fn bid_ask_trades_cross_the_spread() {
    let signal = vec![Some(0), None, Some(2), Some(-1)];
    let time = vec![1, 2, 3, 4];
    let bid = vec![Some(9), Some(9), Some(10), None];
    let ask = vec![Some(10), Some(10), Some(11), Some(12)];
    let trades = signal_to_trades(&signal, &PriceVec::BidAsk(bid, ask), &time);
    assert_eq!(
        trades,
        vec![Trade::new(3, TradeSide::Buy, Some(11), 2), Trade::new(4, TradeSide::Sell, None, 3)]
    );
}

#[test]
fn trade_side_names() {
    assert_eq!(TradeSide::Buy.as_str(), "buy");
    assert_eq!(TradeSide::Sell.as_str(), "sell");
    assert_eq!("sell".parse::<TradeSide>(), Ok(TradeSide::Sell));
    assert!("Buy".parse::<TradeSide>().is_err());
}

#[test]
fn price_vec_from_vectors() {
    let single = PriceVec::from(vec![Some(1)]);
    assert!(matches!(single, PriceVec::Single(ref p) if p == &vec![Some(1)]));
    let pair = PriceVec::from((vec![Some(1)], vec![Some(2)]));
    assert!(matches!(pair, PriceVec::BidAsk(ref b, ref a) if b == &vec![Some(1)] && a == &vec![Some(2)]));
}

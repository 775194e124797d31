use tea_strategy::{OrderBook, OrderBookLevel, Price};

fn book() -> OrderBook {
    OrderBook::new(
        OrderBookLevel::new(10, 9, 2, 1),
        OrderBookLevel::new(11, 8, 3, 2),
        OrderBookLevel::new(12, 7, 1, 1),
        OrderBookLevel::new(14, 6, 2, 2),
        OrderBookLevel::new(15, 3, 1, 1),
    )
}

fn value(p: Price) -> f64 {
    p.num as f64 / p.den as f64
}

#[test]
fn buy_price_walks_ask_levels() {
    let b = book();
    assert_eq!(b.get_buy_price(1).map(value), Ok(10.));
    assert_eq!(b.get_buy_price(4).map(value), Ok(10.5));
    assert_eq!(b.get_buy_price(8).map(value), Ok(93. / 8.));
    let (avg, available) = b.get_buy_price(10).unwrap_err();
    assert_eq!(value(avg), 108. / 9.);
    assert_eq!(available, 9);
}

#[test]
fn sell_price_walks_bid_levels() {
    let b = book();
    assert_eq!(b.get_sell_price(2).map(value), Ok(8.5));
    assert_eq!(b.get_sell_price(4).map(value), Ok(8.));
    assert_eq!(b.get_sell_price(7).map(value), Ok(47. / 7.));
    let (avg, available) = b.get_sell_price(10).unwrap_err();
    assert_eq!(value(avg), 47. / 7.);
    assert_eq!(available, 7);
}

#[test]
fn exact_fill_prices() {
    let b = book();
    assert_eq!(b.get_buy_price(8), Ok(Price { num: 93, den: 8 }));
    assert_eq!(b.get_buy_price(10), Err((Price { num: 108, den: 9 }, 9)));
    assert_eq!(b.get_sell_price(10), Err((Price { num: 47, den: 7 }, 7)));
}

#[test]
fn top_of_book_covers_small_volume() {
    let b = book();
    assert_eq!(b.get_buy_price(0), Ok(Price { num: 10, den: 1 }));
    assert_eq!(b.get_buy_price(2), Ok(Price { num: 10, den: 1 }));
    assert_eq!(b.get_sell_price(1), Ok(Price { num: 9, den: 1 }));
}

#[test]
fn fill_exactly_at_level_boundary() {
    let b = book();
    // 2 at 10 and 3 at 11
    assert_eq!(b.get_buy_price(5), Ok(Price { num: 53, den: 5 }));
}

#[test]
fn empty_levels_contribute_nothing() {
    let one = OrderBook::new(
        OrderBookLevel::new(10, 9, 2, 1),
        OrderBookLevel::default(),
        OrderBookLevel::new(12, 7, 1, 1),
        OrderBookLevel::default(),
        OrderBookLevel::default(),
    );
    assert_eq!(one.get_buy_price(3), Ok(Price { num: 32, den: 3 }));
    assert_eq!(one.get_buy_price(4), Err((Price { num: 32, den: 3 }, 3)));
    let empty = OrderBook::default();
    assert_eq!(empty.get_buy_price(1), Err((Price { num: 0, den: 0 }, 0)));
}

#[test]
fn level_amounts() {
    let l = OrderBookLevel::new(10, 9, 2, 3);
    assert_eq!(l.ask_amt(), 20);
    assert_eq!(l.bid_amt(), 27);
}

use tea_strategy::{
    CommissionType, FilterElement, OpenPriceMethod, OrderBook, OrderBookLevel, ParseError, Profit,
    SignalType, StrategyFilter,
};

#[test]
fn commission_type_names() {
    assert_eq!(CommissionType::parse("Percent"), Ok(CommissionType::Percent));
    assert_eq!(CommissionType::parse("PCT"), Ok(CommissionType::Percent));
    assert_eq!(CommissionType::parse("fixed"), Ok(CommissionType::Absolute));
    assert_eq!(CommissionType::parse("Absolute"), Ok(CommissionType::Absolute));
    assert_eq!(CommissionType::parse("fix"), Ok(CommissionType::Absolute));
    assert_eq!(CommissionType::parse("ratio"), Err(ParseError::InvalidCommissionType));
}

#[test]
fn signal_type_names() {
    assert_eq!(SignalType::parse("pct"), Ok(SignalType::Percent));
    assert_eq!(SignalType::parse("ABSOLUTE"), Ok(SignalType::Absolute));
    assert_eq!(SignalType::parse(""), Err(ParseError::InvalidSignalType));
}

#[test]
fn open_price_method_names() {
    assert_eq!("First".parse::<OpenPriceMethod>(), Ok(OpenPriceMethod::First));
    assert_eq!(OpenPriceMethod::parse("average"), Ok(OpenPriceMethod::Average));
    assert_eq!(OpenPriceMethod::parse("LAST"), Ok(OpenPriceMethod::Last));
    assert_eq!(OpenPriceMethod::parse("mean"), Err(ParseError::InvalidOpenPriceMethod));
}

#[test]
fn filter_elements_align() {
    let f = StrategyFilter {
        long_open: vec![Some(true), None, Some(false)],
        long_stop: vec![None, Some(true), Some(false)],
        short_open: vec![Some(false), Some(false), None],
        short_stop: vec![Some(true), None],
    };
    let expect: Vec<FilterElement> = vec![
        (Some(true), None, Some(false), Some(true)),
        (None, Some(true), Some(false), None),
    ];
    assert_eq!(f.titer(), expect);
    assert_eq!(f.to_iter(), expect);
}

#[test]
fn conversions() {
    let p = Profit::from((1, -2, None));
    assert_eq!(p, Profit { unrealized: 1, realized: -2, open_price: None });
    let l = OrderBookLevel::from((10, 9, 2, 1));
    assert_eq!(l, OrderBookLevel::new(10, 9, 2, 1));
    assert_eq!(OrderBookLevel::from((10, 9)), OrderBookLevel::new(10, 9, 0, 0));
    let b = OrderBook::from(l);
    assert_eq!(b.level1, l);
    assert_eq!(b.level2, OrderBookLevel::default());
    let five = OrderBook::from((l, l, l, l, l));
    assert_eq!(five, OrderBook::new(l, l, l, l, l));
}

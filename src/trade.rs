//! Trades implied by the changes of a target signal.
use vstd::prelude::*;

use crate::names::ParseError;

verus! {

/// The direction of a trade.
#[derive(Clone, Copy, Debug, PartialEq, Eq, Structural)]
pub enum TradeSide {
    Buy,
    Sell,
}

impl TradeSide {
    pub open spec fn name(self) -> Seq<char> {
        match self {
            TradeSide::Buy => "buy"@,
            TradeSide::Sell => "sell"@,
        }
    }

    /// The side's name: `buy` or `sell`.
    pub fn as_str(&self) -> (r: &'static str)
        ensures
            r@ == self.name(),
    {
        match self {
            TradeSide::Buy => "buy",
            TradeSide::Sell => "sell",
        }
    }

    /// The side named exactly `buy` or `sell`.
    pub fn parse(s: &str) -> (r: Result<TradeSide, ParseError>)
        ensures
            r == (if s@ == "buy"@ {
                Ok(TradeSide::Buy)
            } else if s@ == "sell"@ {
                Ok(TradeSide::Sell)
            } else {
                Err(ParseError::InvalidTradeSide)
            }),
    {
        let name = s.to_owned();
        let buy = "buy".to_owned();
        let sell = "sell".to_owned();
        if name == buy {
            Ok(TradeSide::Buy)
        } else if name == sell {
            Ok(TradeSide::Sell)
        } else {
            Err(ParseError::InvalidTradeSide)
        }
    }
}

impl std::str::FromStr for TradeSide {
    type Err = ParseError;

    fn from_str(s: &str) -> Result<TradeSide, ParseError> {
        TradeSide::parse(s)
    }
}

/// A trade: when (nanoseconds since the epoch), which side, at what price
/// (`None` where no price was quoted) and how much the signal changed.
#[derive(Clone, Copy, Debug, PartialEq, Eq, Structural)]
pub struct Trade {
    pub time: i64,
    pub side: TradeSide,
    pub price: Option<i64>,
    pub num: u64,
}

impl Trade {
    pub fn new(time: i64, side: TradeSide, price: Option<i64>, num: u64) -> (r: Trade)
        ensures
            r == (Trade { time, side, price, num }),
    {
        Trade { time, side, price, num }
    }
}

/// The prices at which trades fill: bid and ask (buys at the ask, sells at
/// the bid), or a single price for both.
#[derive(Clone, Debug)]
pub enum PriceVec {
    BidAsk(Vec<Option<i64>>, Vec<Option<i64>>),
    Single(Vec<Option<i64>>),
}

impl PriceVec {
    /// Prices at which buys fill.
    pub open spec fn buy_prices(&self) -> Seq<Option<i64>> {
        match self {
            PriceVec::BidAsk(_, ask) => ask@,
            PriceVec::Single(p) => p@,
        }
    }

    /// Prices at which sells fill.
    pub open spec fn sell_prices(&self) -> Seq<Option<i64>> {
        match self {
            PriceVec::BidAsk(bid, _) => bid@,
            PriceVec::Single(p) => p@,
        }
    }
}

impl From<(Vec<Option<i64>>, Vec<Option<i64>>)> for PriceVec {
    /// Bid and ask prices, in that order.
    fn from(v: (Vec<Option<i64>>, Vec<Option<i64>>)) -> (r: PriceVec)
        ensures
            r == PriceVec::BidAsk(v.0, v.1),
    {
        PriceVec::BidAsk(v.0, v.1)
    }
}

impl vstd::std_specs::convert::FromSpecImpl<(Vec<Option<i64>>, Vec<Option<i64>>)> for PriceVec {
    open spec fn obeys_from_spec() -> bool {
        true
    }

    open spec fn from_spec(v: (Vec<Option<i64>>, Vec<Option<i64>>)) -> PriceVec {
        PriceVec::BidAsk(v.0, v.1)
    }
}

impl From<Vec<Option<i64>>> for PriceVec {
    /// One price for buys and sells.
    fn from(v: Vec<Option<i64>>) -> (r: PriceVec)
        ensures
            r == PriceVec::Single(v),
    {
        PriceVec::Single(v)
    }
}

impl vstd::std_specs::convert::FromSpecImpl<Vec<Option<i64>>> for PriceVec {
    open spec fn obeys_from_spec() -> bool {
        true
    }

    open spec fn from_spec(v: Vec<Option<i64>>) -> PriceVec {
        PriceVec::Single(v)
    }
}

/// The last signal seen and the trades over the first `n` steps. No trade
/// comes from the first signal; after it, each rise is a buy and each fall a
/// sell of the size of the change. A missing signal is skipped.
pub open spec fn trades_upto(
    signal: Seq<Option<i64>>,
    buy: Seq<Option<i64>>,
    sell: Seq<Option<i64>>,
    time: Seq<i64>,
    n: int,
) -> (Option<i64>, Seq<Trade>)
    decreases n,
{
    if n <= 0 {
        (None, seq![])
    } else {
        let (last, trades) = trades_upto(signal, buy, sell, time, n - 1);
        let i = n - 1;
        match signal[i] {
            None => (last, trades),
            Some(s) => match last {
                None => (Some(s), trades),
                Some(l) => if s > l {
                    (
                        Some(s),
                        trades.push(
                            Trade { time: time[i], side: TradeSide::Buy, price: buy[i], num: (s - l) as u64 },
                        ),
                    )
                } else if s < l {
                    (
                        Some(s),
                        trades.push(
                            Trade { time: time[i], side: TradeSide::Sell, price: sell[i], num: (l - s) as u64 },
                        ),
                    )
                } else {
                    (Some(s), trades)
                },
            },
        }
    }
}

/// The steps that every input covers.
pub open spec fn common_len(signal: Seq<Option<i64>>, prices: PriceVec, time: Seq<i64>) -> int {
    let a = if signal.len() < time.len() {
        signal.len()
    } else {
        time.len()
    };
    let b = if prices.buy_prices().len() < prices.sell_prices().len() {
        prices.buy_prices().len()
    } else {
        prices.sell_prices().len()
    };
    if a < b {
        a as int
    } else {
        b as int
    }
}

/// The trades implied by the changes of `signal_vec`, over the steps that
/// every input covers. The size of a trade is the change of the signal, not
/// a lot count.
pub fn signal_to_trades(signal_vec: &Vec<Option<i64>>, price_vec: &PriceVec, time_vec: &Vec<i64>) -> (r: Vec<Trade>)
    ensures
        r@ == trades_upto(
            signal_vec@,
            price_vec.buy_prices(),
            price_vec.sell_prices(),
            time_vec@,
            common_len(signal_vec@, *price_vec, time_vec@),
        ).1,
{
    let (buy, sell) = match price_vec {
        PriceVec::BidAsk(bid, ask) => (ask, bid),
        PriceVec::Single(p) => (p, p),
    };
    let mut n = if signal_vec.len() < time_vec.len() {
        signal_vec.len()
    } else {
        time_vec.len()
    };
    let m = if buy.len() < sell.len() {
        buy.len()
    } else {
        sell.len()
    };
    if m < n {
        n = m;
    }
    let ghost total = common_len(signal_vec@, *price_vec, time_vec@);
    assert(n == total);
    let mut last: Option<i64> = None;
    let mut trades: Vec<Trade> = Vec::new();
    let mut i: usize = 0;
    while i < n
        invariant
            n == total,
            n <= signal_vec@.len(),
            n <= time_vec@.len(),
            n <= buy@.len(),
            n <= sell@.len(),
            buy@ == price_vec.buy_prices(),
            sell@ == price_vec.sell_prices(),
            0 <= i <= n,
            (last, trades@) == trades_upto(signal_vec@, buy@, sell@, time_vec@, i as int),
        decreases n - i,
    {
        match signal_vec[i] {
            None => {},
            Some(s) => {
                match last {
                    None => {},
                    Some(l) => {
                        if s > l {
                            let num = (s as i128 - l as i128) as u64;
                            trades.push(Trade { time: time_vec[i], side: TradeSide::Buy, price: buy[i], num });
                        } else if s < l {
                            let num = (l as i128 - s as i128) as u64;
                            trades.push(Trade { time: time_vec[i], side: TradeSide::Sell, price: sell[i], num });
                        }
                    },
                }
                last = Some(s);
            },
        }
        i = i + 1;
    }
    trades
}

} // verus!

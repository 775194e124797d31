//! Cash and position simulation of a leveraged futures account, and
//! depth-aware execution prices over a five-level order book.
//!
//! Prices are integers in the caller's price unit (one tick, for instance).
//! Money is exact fixed-point: one currency unit (what one lot with a
//! multiplier of one gains when the price rises by one price unit) is
//! `MONEY_SCALE` units of money. Commission rates count in `1 / RATE_SCALE`
//! and fractions (target positions, shares of equity, leverage) in
//! `1 / FRACTION_SCALE`. Every run is exact: where the account would leave
//! the range it can hold, the run stops with `EngineError::Overflow`.
pub mod account;
pub mod future_ret;
pub mod laws;
pub mod names;
pub mod order_book;
pub mod strategy_filter;
pub mod tick_future_ret;
pub mod tick_future_ret_full;
pub mod trade;
pub mod units;

pub use account::PositionState;
pub use future_ret::{
    calc_future_ret, calc_future_ret_with_spread, FutureRetKwargs, FutureRetSpreadKwargs,
};
pub use names::ParseError;
pub use order_book::{OrderBook, OrderBookLevel, Price};
pub use strategy_filter::{FilterElement, StrategyFilter};
pub use tick_future_ret::{calc_tick_future_ret, TickFutureRetKwargs};
pub use tick_future_ret_full::{calc_tick_future_ret_full, Profit, TickFutureRetFullKwargs};
pub use trade::{signal_to_trades, PriceVec, Trade, TradeSide};
pub use units::{
    CommissionType, EngineError, OpenPriceMethod, SignalType, FRACTION_SCALE, MONEY_SCALE,
    RATE_SCALE,
};

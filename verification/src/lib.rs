//! A single-asset trading-strategy backtester.
//!
//! A historical price series is replayed through a pluggable decision
//! strategy; a simulated broker fills each emitted order with randomized
//! price and quantity slippage and charges trading costs; a portfolio
//! ledger tracks net position, cumulative profit-and-loss and the trade
//! history.
//!
//! All monetary values (prices, price changes, profit-and-loss, trading
//! costs) are fixed-point integers in hundredths of a currency unit, so
//! that the ledger arithmetic is exact.

pub mod backtest;
pub mod broker;
pub mod clock;
pub mod config;
pub mod data_loading;
pub mod errors;
pub mod order;
pub mod portfolio;
pub mod strategy;

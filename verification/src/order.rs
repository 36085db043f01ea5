use vstd::prelude::*;
use crate::clock::now_epoch_millis;

verus! {

/// An order intent emitted by a strategy. The quantity's sign encodes
/// the direction: positive buys, negative sells. An order is created
/// once, never changed, and consumed exactly once by the broker.
#[derive(Debug)]
pub struct Order {
    /// Milliseconds since the Unix epoch, stamped at creation.
    pub timestamp: i64,
    pub ticker: String,
    pub quantity: i64,
}

impl Order {
    pub fn new(ticker: String, quantity: i64) -> (r: Order)
        ensures
            r.ticker == ticker,
            r.quantity == quantity,
    {
        Order { timestamp: now_epoch_millis(), ticker, quantity }
    }
}

/// The stochastic outcome of attempting to fill an order: how much was
/// filled, and at what (fixed-point) price.
#[derive(Debug)]
pub struct OrderResult {
    pub ticker: String,
    /// Milliseconds since the Unix epoch, stamped at creation.
    pub timestamp: i64,
    pub filled_quantity: i64,
    pub filled_price: i64,
}

impl OrderResult {
    pub fn new(ticker: String, filled_quantity: i64, filled_price: i64) -> (r: OrderResult)
        ensures
            r.ticker == ticker,
            r.filled_quantity == filled_quantity,
            r.filled_price == filled_price,
    {
        OrderResult { ticker, timestamp: now_epoch_millis(), filled_quantity, filled_price }
    }
}

/// The final execution record handed back to the caller: the fill, the
/// executed price and the trading costs charged for the attempt. Prices
/// and costs are fixed-point, in hundredths.
#[derive(Debug)]
pub struct Confirm {
    pub ticker: String,
    /// Milliseconds since the Unix epoch.
    pub executed_timestamp: i64,
    pub quantity_filled: i64,
    pub executed_price: i64,
    pub trading_costs: i64,
}

impl Confirm {
    pub fn new(
        ticker: String,
        executed_timestamp: i64,
        quantity_filled: i64,
        executed_price: i64,
        trading_costs: i64,
    ) -> (r: Confirm)
        ensures
            r.ticker == ticker,
            r.executed_timestamp == executed_timestamp,
            r.quantity_filled == quantity_filled,
            r.executed_price == executed_price,
            r.trading_costs == trading_costs,
    {
        Confirm { ticker, executed_timestamp, quantity_filled, executed_price, trading_costs }
    }
}

} // verus!

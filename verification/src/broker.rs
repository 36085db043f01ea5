use vstd::prelude::*;
use vstd::math::abs;
use crate::data_loading::Quote;
use crate::errors::TradingError;
use crate::order::{Confirm, Order, OrderResult};

verus! {

#[verifier::external_type_specification]
#[verifier::external_body]
pub struct ExStdRng(rand::rngs::StdRng);

/// Relies on rand's `Rng::gen_range` over `low..high`: the draw lies in
/// that half-open range. `gen_range` panics on an empty range, so the
/// range is required to be non-empty.
#[verifier::external_body]
fn gen_range_i64(rng: &mut rand::rngs::StdRng, low: i64, high: i64) -> (r: i64)
    requires
        low < high,
    ensures
        low <= r < high,
{
    rand::Rng::gen_range(rng, low..high)
}

/// Whether a mathematical integer is representable as an `i64`.
pub open spec fn fits_i64(x: int) -> bool {
    i64::MIN <= x <= i64::MAX
}

/// The largest quantity slippage the broker may inject for a requested
/// quantity: a quarter of the requested magnitude, rounded down.
pub open spec fn max_slippage_for(q: int) -> int {
    (abs(q) / 4) as int
}

/// What the stochastic fill model may return for a requested quantity
/// `q`: the fill never exceeds the requested magnitude, never flips
/// direction, and falls short by at most a quarter of the request.
pub open spec fn fill_within_request(q: int, f: int) -> bool {
    &&& (q == 0 ==> f == 0)
    &&& (q > 0 ==> q - max_slippage_for(q) <= f <= q)
    &&& (q < 0 ==> q <= f <= q + max_slippage_for(q))
}

/// The fill bound in its sign-and-magnitude form: a fill is zero or of
/// the requested sign, and its magnitude never exceeds the request's.
pub proof fn lemma_fill_bound(q: int, f: int)
    requires
        fill_within_request(q, f),
    ensures
        f == 0 || (f > 0 <==> q > 0),
        abs(f) <= abs(q),
{
}

/// The trading cost depends on the rate and the requested size alone:
/// two executions charged by the cost formula for the same rate and
/// requested quantity cost the same, whatever their random fills.
pub proof fn lemma_cost_independent_of_fill(rate: int, q: int, c1: Confirm, c2: Confirm)
    requires
        c1.trading_costs == rate * abs(q),
        c2.trading_costs == rate * abs(q),
    ensures
        c1.trading_costs == c2.trading_costs,
{
}

/// Simulates executing one order at a time against the market: a fill
/// with randomized price and quantity slippage, plus trading costs at a
/// fixed per-share rate (fixed-point, hundredths), charged on the
/// requested size.
#[derive(Debug)]
pub struct Broker {
    trading_costs: i64,
}

impl Broker {
    /// The per-share trading-cost rate this broker was built with.
    pub closed spec fn rate(&self) -> int {
        self.trading_costs as int
    }

    /// A broker charges, never pays: its rate is non-negative.
    pub open spec fn wf(&self) -> bool {
        self.rate() >= 0
    }

    pub fn new(trading_costs: i64) -> (r: Broker)
        requires
            trading_costs >= 0,
        ensures
            r.rate() == trading_costs,
            r.wf(),
    {
        Broker { trading_costs }
    }

    /// A quantity slippage draw: uniform over `[0, max_slippage)`, or
    /// zero when that range is empty.
    fn market_slippage(&self, max_slippage: i64, rng: &mut rand::rngs::StdRng) -> (r: i64)
        requires
            max_slippage >= 0,
        ensures
            0 <= r,
            max_slippage == 0 ==> r == 0,
            max_slippage > 0 ==> r < max_slippage,
    {
        if max_slippage == 0 {
            0
        } else {
            gen_range_i64(rng, 0, max_slippage)
        }
    }

    /// The executed price for one fill: the quoted price perturbed by
    /// the injected noise, or an error if the sum leaves the
    /// fixed-point range.
    fn executed_price(&self, quote: &Quote, price_noise: i64) -> (r: Result<i64, TradingError>)
        ensures
            r is Ok <==> fits_i64(quote.quote + price_noise),
            r is Ok ==> r->Ok_0 == quote.quote + price_noise,
            r is Err ==> r->Err_0 == TradingError::LedgerOutOfRange,
    {
        let wide: i128 = quote.quote as i128 + price_noise as i128;
        if wide > i64::MAX as i128 || wide < i64::MIN as i128 {
            Err(TradingError::LedgerOutOfRange)
        } else {
            Ok(wide as i64)
        }
    }

    /// The executed quantity for one fill: the request shrunk towards
    /// zero by a random slippage of at most a quarter of its magnitude.
    fn executed_quantity(&self, quantity_desired: i64, rng: &mut rand::rngs::StdRng) -> (r: i64)
        ensures
            fill_within_request(quantity_desired as int, r as int),
    {
        let q_wide: i128 = quantity_desired as i128;
        let q_abs: i128 = if q_wide < 0 {
            -q_wide
        } else {
            q_wide
        };
        let max_slippage: i64 = (q_abs / 4) as i64;
        let slippage = self.market_slippage(max_slippage, rng);
        if quantity_desired < 0 {
            quantity_desired + slippage
        } else if quantity_desired > 0 {
            quantity_desired - slippage
        } else {
            0
        }
    }

    /// One simulated fill against a quote: random quantity slippage,
    /// the injected price noise, and the quote's ticker echoed back.
    fn send_order(&self, quote: &Quote, price_noise: i64, rng: &mut rand::rngs::StdRng) -> (r:
        Result<OrderResult, TradingError>)
        ensures
            r is Ok <==> fits_i64(quote.quote + price_noise),
            r is Ok ==> {
                &&& r->Ok_0.ticker == quote.ticker
                &&& r->Ok_0.filled_price == quote.quote + price_noise
                &&& fill_within_request(quote.quantity as int, r->Ok_0.filled_quantity as int)
            },
            r is Err ==> r->Err_0 == TradingError::LedgerOutOfRange,
    {
        let amount_filled = self.executed_quantity(quote.quantity, rng);
        let price_filled = match self.executed_price(quote, price_noise) {
            Ok(p) => p,
            Err(e) => {
                return Err(e);
            },
        };
        Ok(OrderResult::new(quote.ticker.clone(), amount_filled, price_filled))
    }

    /// Executes one order against the given quote. The trading costs
    /// are the broker's rate times the requested magnitude — charged on
    /// the attempt, independent of the random fill outcome. Fails
    /// exactly when the costs or the noisy price leave the fixed-point
    /// range; the fill itself cannot fail, a partial fill is an
    /// ordinary outcome.
    pub fn execute(&self, order: Order, quote: &Quote, price_noise: i64, rng: &mut
        rand::rngs::StdRng) -> (r: Result<Confirm, TradingError>)
        requires
            quote.quantity == order.quantity,
        ensures
            r is Ok <==> fits_i64(self.rate() * abs(order.quantity as int)) && fits_i64(
                quote.quote + price_noise,
            ),
            r is Ok ==> {
                &&& r->Ok_0.ticker == order.ticker
                &&& r->Ok_0.trading_costs == self.rate() * abs(order.quantity as int)
                &&& r->Ok_0.executed_price == quote.quote + price_noise
                &&& fill_within_request(order.quantity as int, r->Ok_0.quantity_filled as int)
            },
            self.wf() && r is Ok ==> r->Ok_0.trading_costs >= 0,
            r is Err ==> r->Err_0 == TradingError::LedgerOutOfRange,
    {
        let q_wide: i128 = order.quantity as i128;
        let q_abs: i128 = if q_wide < 0 {
            -q_wide
        } else {
            q_wide
        };
        proof {
            assert((self.trading_costs as i128) * q_abs == self.rate() * abs(
                order.quantity as int,
            )) by (nonlinear_arith)
                requires
                    q_abs == abs(order.quantity as int),
            ;
            assert((self.trading_costs as int) * (q_abs as int)
                <= 85070591730234615865843651857942052864int && (self.trading_costs as int) * (
            q_abs as int) >= -85070591730234615865843651857942052864int) by (nonlinear_arith)
                requires
                    -9223372036854775808int <= self.trading_costs as int
                        <= 9223372036854775807int,
                    0 <= q_abs as int <= 9223372036854775808int,
            ;
            assert(self.trading_costs as int >= 0 ==> (self.trading_costs as int) * (q_abs as int)
                >= 0) by (nonlinear_arith)
                requires
                    q_abs as int >= 0,
            ;
        }
        let costs_wide: i128 = (self.trading_costs as i128) * q_abs;
        if costs_wide > i64::MAX as i128 || costs_wide < i64::MIN as i128 {
            return Err(TradingError::LedgerOutOfRange);
        }
        let trading_costs: i64 = costs_wide as i64;
        let result = match self.send_order(quote, price_noise, rng) {
            Ok(res) => res,
            Err(e) => {
                return Err(e);
            },
        };
        Ok(
            Confirm::new(
                order.ticker,
                result.timestamp,
                result.filled_quantity,
                result.filled_price,
                trading_costs,
            ),
        )
    }
}

} // verus!

use vstd::prelude::*;
use vstd::math::abs;
use crate::broker::{fill_within_request, fits_i64, Broker};
use crate::data_loading::{DatedStockData, Metadata, Quote};
use crate::errors::TradingError;
use crate::order::Order;
use crate::portfolio::{lemma_sum_trade_quantities_push, Portfolio, Trade};
use crate::strategy::Strategy;

verus! {

/// Whether one order's ledger update stays within the fixed-point
/// range, whatever fill the broker draws: the costs, the noisy price,
/// the worst-case new position and the profit-and-loss at both position
/// extremes must all be representable. Order processing fails exactly
/// when this does not hold.
pub open spec fn ledger_fits(
    pf: Portfolio,
    q: int,
    price: int,
    change: int,
    noise: int,
    rate: int,
) -> bool {
    &&& fits_i64(rate * abs(q))
    &&& fits_i64(price + noise)
    &&& fits_i64(pf.position + q)
    &&& fits_i64(pf.pnl + pf.position * change - rate * abs(q))
    &&& fits_i64(pf.pnl + (pf.position + q) * change - rate * abs(q))
}

/// How a processed order relates the new portfolio to the old one:
/// exactly one trade is appended, recording the noisy executed price
/// and the drawn fill; the position moves by that fill, which stays
/// within the request; and the profit-and-loss is marked with the
/// post-trade position against the quote's change, minus the trading
/// costs charged on the requested size.
pub open spec fn process_updates(
    pf0: Portfolio,
    pf1: Portfolio,
    q: int,
    price: int,
    change: int,
    noise: int,
    rate: int,
) -> bool {
    &&& pf1.trades@.len() == pf0.trades@.len() + 1
    &&& pf1.trades@ == pf0.trades@.push(pf1.trades@.last())
    &&& pf1.trades@.last().price == price + noise
    &&& pf1.trades@.last().quantity == pf1.position - pf0.position
    &&& fill_within_request(q, pf1.position - pf0.position)
    &&& pf1.pnl == pf0.pnl + pf1.position * change - rate * abs(q)
    &&& pf1.capital == pf0.capital
}

/// A product of a value between two bounds lies on or between the
/// products of the bounds.
proof fn lemma_mul_within(lo: int, x: int, hi: int, d: int)
    requires
        lo <= x,
        x <= hi,
    ensures
        x * d <= lo * d || x * d <= hi * d,
        lo * d <= x * d || hi * d <= x * d,
{
    if d >= 0 {
        assert(lo * d <= x * d && x * d <= hi * d) by (nonlinear_arith)
            requires
                lo <= x,
                x <= hi,
                d >= 0,
        ;
    } else {
        assert(hi * d <= x * d && x * d <= lo * d) by (nonlinear_arith)
            requires
                lo <= x,
                x <= hi,
                d < 0,
        ;
    }
}

/// The summary a finished run hands back: cumulative profit-and-loss
/// (fixed-point, hundredths) and how many orders were processed.
#[derive(Clone, Copy, Debug)]
pub struct BacktestResult {
    pub pnl: i64,
    pub n_trades: i64,
}

impl BacktestResult {
    pub fn new(pnl: i64, n_trades: i64) -> (r: BacktestResult)
        ensures
            r.pnl == pnl,
            r.n_trades == n_trades,
    {
        BacktestResult { pnl, n_trades }
    }
}

/// Applies one confirmed execution to the portfolio, keeping running
/// totals of what passed through it.
#[derive(Debug)]
pub struct OrderProcessor {
    pub total_orders_processed: u32,
    pub total_value_processed: i128,
}

impl OrderProcessor {
    pub fn new() -> (r: OrderProcessor)
        ensures
            r.total_orders_processed == 0,
            r.total_value_processed == 0,
    {
        OrderProcessor { total_orders_processed: 0, total_value_processed: 0 }
    }

    /// Processes one order: executes it through the broker against the
    /// given quote, appends the resulting trade, moves the position by
    /// the fill, and marks the profit-and-loss with the post-trade
    /// position against the quote's change before deducting the
    /// trading costs. A partial fill is an ordinary outcome, never an
    /// error; the one failure is a ledger update that would leave the
    /// fixed-point range, and then nothing is changed.
    pub fn process(
        &mut self,
        order: Order,
        broker: &Broker,
        portfolio: &mut Portfolio,
        quote: &Quote,
        price_noise: i64,
        rng: &mut rand::rngs::StdRng,
    ) -> (r: Result<(), TradingError>)
        requires
            quote.quantity == order.quantity,
            old(self).total_orders_processed < u32::MAX,
            old(self).total_value_processed + (i64::MIN as int) * (i64::MIN as int) <= i128::MAX,
            old(self).total_value_processed - (i64::MIN as int) * (i64::MIN as int) >= i128::MIN,
        ensures
            (r is Err <==> !ledger_fits(
                *old(portfolio),
                order.quantity as int,
                quote.quote as int,
                quote.change as int,
                price_noise as int,
                broker.rate(),
            )),
            r is Err ==> *final(portfolio) == *old(portfolio) && *final(self) == *old(self)
                && r->Err_0 == TradingError::LedgerOutOfRange,
            r is Ok ==> process_updates(
                *old(portfolio),
                *final(portfolio),
                order.quantity as int,
                quote.quote as int,
                quote.change as int,
                price_noise as int,
                broker.rate(),
            ),
            r is Ok ==> final(portfolio).trades@.last().ticker == order.ticker,
            r is Ok ==> final(self).total_orders_processed == old(self).total_orders_processed + 1
                && final(self).total_value_processed == old(self).total_value_processed
                + (final(portfolio).trades@.last().price as int)
                * (final(portfolio).trades@.last().quantity as int),
            old(portfolio).position_consistent() ==> final(portfolio).position_consistent(),
    {
        let ghost pf0 = *portfolio;
        let q = order.quantity;
        let confirm = match broker.execute(order, quote, price_noise, rng) {
            Ok(c) => c,
            Err(e) => {
                return Err(e);
            },
        };
        let pos0 = portfolio.position;
        let pos_plus_q: i128 = pos0 as i128 + q as i128;
        if pos_plus_q > i64::MAX as i128 || pos_plus_q < i64::MIN as i128 {
            return Err(TradingError::LedgerOutOfRange);
        }
        let cost = confirm.trading_costs;
        proof {
            assert((pos0 as int) * (quote.change as int)
                <= 85070591730234615865843651857942052864int && (pos0 as int) * (
            quote.change as int) >= -85070591730234615865843651857942052864int) by (nonlinear_arith)
                requires
                    -9223372036854775808int <= pos0 as int <= 9223372036854775807int,
                    -9223372036854775808int <= quote.change as int <= 9223372036854775807int,
            ;
            assert((pos_plus_q as int) * (quote.change as int)
                <= 85070591730234615865843651857942052864int && (pos_plus_q as int) * (
            quote.change as int) >= -85070591730234615865843651857942052864int) by (nonlinear_arith)
                requires
                    -9223372036854775808int <= pos_plus_q as int <= 9223372036854775807int,
                    -9223372036854775808int <= quote.change as int <= 9223372036854775807int,
            ;
        }
        let e0: i128 = portfolio.pnl as i128 + (pos0 as i128) * (quote.change as i128)
            - cost as i128;
        let e1: i128 = portfolio.pnl as i128 + pos_plus_q * (quote.change as i128) - cost as i128;
        if e0 > i64::MAX as i128 || e0 < i64::MIN as i128 || e1 > i64::MAX as i128 || e1
            < i64::MIN as i128 {
            return Err(TradingError::LedgerOutOfRange);
        }
        let f = confirm.quantity_filled;
        proof {
            if q > 0 {
                assert(0 <= f <= q);
            } else if q < 0 {
                assert(q <= f <= 0);
            }
            lemma_mul_within(
                pos0 as int + (if q as int <= 0 {
                    q as int
                } else {
                    0int
                }),
                pos0 as int + f as int,
                pos0 as int + (if q as int >= 0 {
                    q as int
                } else {
                    0int
                }),
                quote.change as int,
            );
        }
        let trade = Trade::new(
            confirm.ticker.clone(),
            confirm.executed_timestamp,
            confirm.executed_price,
            f,
        );
        portfolio.trades.push(trade);
        portfolio.position = pos0 + f;
        proof {
            assert(((pos0 + f) as int) * (quote.change as int)
                <= 85070591730234615865843651857942052864int && ((pos0 + f) as int) * (
            quote.change as int) >= -85070591730234615865843651857942052864int) by (nonlinear_arith)
                requires
                    -9223372036854775808int <= (pos0 + f) as int <= 9223372036854775807int,
                    -9223372036854775808int <= quote.change as int <= 9223372036854775807int,
            ;
        }
        let pnl_wide: i128 = portfolio.pnl as i128 + (portfolio.position as i128) * (
        quote.change as i128) - cost as i128;
        portfolio.pnl = pnl_wide as i64;
        self.total_orders_processed = self.total_orders_processed + 1;
        proof {
            assert((confirm.executed_price as int) * (f as int)
                <= 85070591730234615865843651857942052864int && (confirm.executed_price as int) * (
            f as int) >= -85070591730234615865843651857942052864int) by (nonlinear_arith)
                requires
                    -9223372036854775808int <= confirm.executed_price as int
                        <= 9223372036854775807int,
                    -9223372036854775808int <= f as int <= 9223372036854775807int,
            ;
            assert((i64::MIN as int) * (i64::MIN as int)
                == 85070591730234615865843651857942052864int) by (nonlinear_arith);
        }
        let value: i128 = (confirm.executed_price as i128) * (f as i128);
        self.total_value_processed = self.total_value_processed + value;
        proof {
            lemma_sum_trade_quantities_push(pf0.trades@, trade);
        }
        Ok(())
    }
}

/// A prefix stays a prefix of a sequence one element was pushed onto.
proof fn lemma_prefix_push(a: Seq<Trade>, b: Seq<Trade>, t: Trade)
    requires
        a.is_prefix_of(b),
    ensures
        a.is_prefix_of(b.push(t)),
{
    assert(b.push(t).subrange(0, a.len() as int) =~= a);
}

/// The visible window at one step: the bars strictly before `upto`.
fn window_prefix(data: &Vec<DatedStockData>, upto: usize) -> (r: Vec<DatedStockData>)
    requires
        upto <= data@.len(),
    ensures
        r@ == data@.subrange(0, upto as int),
{
    let mut w: Vec<DatedStockData> = Vec::new();
    proof {
        assert(data@.subrange(0, 0) =~= Seq::<DatedStockData>::empty());
    }
    let mut j: usize = 0;
    while j < upto
        invariant
            j <= upto <= data@.len(),
            w@ == data@.subrange(0, j as int),
        decreases upto - j,
    {
        w.push(data[j].clone());
        proof {
            assert(data@.subrange(0, (j + 1) as int) =~= data@.subrange(0, j as int).push(
                data@[j as int],
            ));
        }
        j = j + 1;
    }
    w
}

/// Drives the walk-forward loop: for each step past the warm-up
/// period, presents the strategy with the bars seen so far and, if an
/// order comes back, routes it through the broker and applies the
/// result to the portfolio.
#[derive(Debug)]
pub struct Backtest {
    pub warm_up_periods: u32,
    pub portfolio: Portfolio,
    pub broker: Broker,
    pub pnl: i64,
    pub n_trades: i64,
}

impl Backtest {
    /// A fresh engine over the given portfolio, with a broker charging
    /// half a currency unit per requested share.
    pub fn new(warm_up_periods: u32, portfolio: Portfolio) -> (r: Backtest)
        ensures
            r.warm_up_periods == warm_up_periods,
            r.portfolio == portfolio,
            r.broker.rate() == 50,
            r.broker.wf(),
            r.pnl == 0,
            r.n_trades == 0,
    {
        Backtest { warm_up_periods, portfolio, broker: Broker::new(50), pnl: 0, n_trades: 0 }
    }

    /// Replays the series through the strategy. At step `i` (from the
    /// warm-up period up to the number of bars, exclusive) the strategy
    /// sees exactly the bars before `i` — never bar `i` or beyond. An
    /// emitted order is executed against the step's quote with the
    /// step's injected price noise and a random quantity slippage from
    /// `rng`, and applied to the portfolio. A failing ledger update
    /// aborts the whole run with nothing reported. A run over no more
    /// bars than the warm-up period never invokes the strategy, and a
    /// run makes no trade exactly when the strategy declines every
    /// window it is shown of the starting portfolio.
    pub fn run<S: Strategy>(
        &mut self,
        strategy: &S,
        data: &Vec<DatedStockData>,
        metadata: &Metadata,
        quotes: &Vec<Quote>,
        price_noise: &Vec<i64>,
        rng: &mut rand::rngs::StdRng,
    ) -> (r: Result<BacktestResult, TradingError>)
        requires
            data@.len() <= u32::MAX,
            quotes@.len() >= data@.len(),
            price_noise@.len() >= data@.len(),
            old(self).n_trades + data@.len() <= i64::MAX,
            old(self).n_trades >= 0,
        ensures
            final(self).warm_up_periods == old(self).warm_up_periods,
            final(self).broker == old(self).broker,
            final(self).portfolio.capital == old(self).portfolio.capital,
            old(self).portfolio.position_consistent()
                ==> final(self).portfolio.position_consistent(),
            old(self).portfolio.trades@.is_prefix_of(final(self).portfolio.trades@),
            final(self).n_trades - old(self).n_trades == final(self).portfolio.trades@.len()
                - old(self).portfolio.trades@.len(),
            old(self).n_trades <= final(self).n_trades,
            final(self).n_trades - old(self).n_trades
                <= if data@.len() >= old(self).warm_up_periods {
                data@.len() - old(self).warm_up_periods
            } else {
                0int
            },
            final(self).n_trades == old(self).n_trades ==> *final(self) == *old(self),
            final(self).n_trades > old(self).n_trades
                ==> final(self).pnl == final(self).portfolio.pnl,
            r is Ok ==> r->Ok_0.pnl == final(self).pnl && r->Ok_0.n_trades == final(self).n_trades,
            r is Err ==> r->Err_0 == TradingError::LedgerOutOfRange,
            data@.len() <= old(self).warm_up_periods ==> r is Ok && *final(self) == *old(self),
            (r is Ok && final(self).n_trades == old(self).n_trades) <==> (forall|j: int|
                old(self).warm_up_periods <= j < data@.len() ==> (#[trigger] strategy.decision(
                    data@.subrange(0, j),
                    *metadata,
                    old(self).portfolio,
                )) is None),
    {
        let ghost s0 = *old(self);
        let n: u32 = data.len() as u32;
        let mut i: u32 = self.warm_up_periods;
        while i < n
            invariant
                s0 == *old(self),
                self.warm_up_periods == s0.warm_up_periods,
                self.broker == s0.broker,
                self.portfolio.capital == s0.portfolio.capital,
                s0.warm_up_periods <= i,
                i <= n || i == s0.warm_up_periods,
                n == data@.len(),
                quotes@.len() >= data@.len(),
                price_noise@.len() >= data@.len(),
                s0.portfolio.position_consistent() ==> self.portfolio.position_consistent(),
                s0.portfolio.trades@.is_prefix_of(self.portfolio.trades@),
                self.n_trades - s0.n_trades == self.portfolio.trades@.len()
                    - s0.portfolio.trades@.len(),
                0 <= self.n_trades - s0.n_trades <= i - s0.warm_up_periods,
                s0.n_trades + data@.len() <= i64::MAX,
                s0.n_trades >= 0,
                self.n_trades == s0.n_trades ==> self.portfolio == s0.portfolio && self.pnl
                    == s0.pnl,
                self.n_trades == s0.n_trades ==> forall|j: int|
                    s0.warm_up_periods <= j < i ==> (#[trigger] strategy.decision(
                        data@.subrange(0, j),
                        *metadata,
                        s0.portfolio,
                    )) is None,
                (forall|j: int|
                    s0.warm_up_periods <= j < i ==> (#[trigger] strategy.decision(
                        data@.subrange(0, j),
                        *metadata,
                        s0.portfolio,
                    )) is None) ==> self.n_trades == s0.n_trades,
                self.n_trades > s0.n_trades ==> self.pnl == self.portfolio.pnl,
            decreases n - i,
        {
            let window = window_prefix(data, i as usize);
            let ghost winv = window@;
            let ghost pf_before = self.portfolio;
            let ghost dt_before = self.n_trades - s0.n_trades;
            match strategy.on_data(window, metadata, &self.portfolio) {
                Some(order) => {
                    proof {
                        assert(strategy.decision(winv, *metadata, pf_before) is Some);
                        if dt_before == 0 {
                            assert(pf_before == s0.portfolio);
                            assert(strategy.decision(
                                data@.subrange(0, i as int),
                                *metadata,
                                s0.portfolio,
                            ) is Some);
                        }
                        assert(!(forall|j: int|
                            s0.warm_up_periods <= j < i + 1 ==> (#[trigger] strategy.decision(
                                data@.subrange(0, j),
                                *metadata,
                                s0.portfolio,
                            )) is None)) by {
                            if forall|j: int|
                                s0.warm_up_periods <= j < i + 1 ==> (#[trigger] strategy.decision(
                                    data@.subrange(0, j),
                                    *metadata,
                                    s0.portfolio,
                                )) is None {
                                assert(forall|j: int|
                                    s0.warm_up_periods <= j < i ==> (
                                    #[trigger] strategy.decision(
                                        data@.subrange(0, j),
                                        *metadata,
                                        s0.portfolio,
                                    )) is None);
                                assert(self.n_trades == s0.n_trades);
                                assert(strategy.decision(
                                    data@.subrange(0, i as int),
                                    *metadata,
                                    s0.portfolio,
                                ) is None);
                                assert(false);
                            }
                        }
                    }
                    let mq_quote = quotes[i as usize].quote;
                    let mq_change = quotes[i as usize].change;
                    let noise = price_noise[i as usize];
                    let exec_quote = Quote::new(
                        order.ticker.clone(),
                        mq_quote,
                        mq_change,
                        order.quantity,
                    );
                    let mut processor = OrderProcessor::new();
                    match processor.process(
                        order,
                        &self.broker,
                        &mut self.portfolio,
                        &exec_quote,
                        noise,
                        rng,
                    ) {
                        Ok(_) => {
                            self.n_trades = self.n_trades + 1;
                            self.pnl = self.portfolio.pnl;
                            proof {
                                lemma_prefix_push(
                                    s0.portfolio.trades@,
                                    pf_before.trades@,
                                    self.portfolio.trades@.last(),
                                );
                            }
                        },
                        Err(e) => {
                            return Err(e);
                        },
                    }
                },
                None => {
                    proof {
                        assert(strategy.decision(winv, *metadata, pf_before) is None);
                        if self.n_trades == s0.n_trades {
                            assert(pf_before == s0.portfolio);
                            assert forall|j: int|
                                s0.warm_up_periods <= j < i + 1 implies (
                            #[trigger] strategy.decision(
                                data@.subrange(0, j),
                                *metadata,
                                s0.portfolio,
                            )) is None by {
                                if j == i {
                                    assert(strategy.decision(
                                        data@.subrange(0, i as int),
                                        *metadata,
                                        s0.portfolio,
                                    ) is None);
                                }
                            }
                        }
                    }
                },
            }
            i = i + 1;
        }
        Ok(BacktestResult::new(self.pnl, self.n_trades))
    }
}

} // verus!

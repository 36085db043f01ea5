use rand::rngs::StdRng;
use rand::SeedableRng;
use trading_engine::backtest::{Backtest, BacktestResult, OrderProcessor};
use trading_engine::broker::Broker;
use trading_engine::data_loading::{DatedStockData, Metadata, Quote};
use trading_engine::order::Order;
use trading_engine::portfolio::Portfolio;
use trading_engine::strategy::MACrossoverStrategy;

fn bar(close: i64) -> DatedStockData {
    DatedStockData::new("2023-05-01".to_string(), close, close, close, close, 100)
}

fn bars(closes: &[i64]) -> Vec<DatedStockData> {
    closes.iter().map(|c| bar(*c)).collect()
}

fn metadata() -> Metadata {
    Metadata::new("AAPL".to_string())
}

fn flat_quotes(n: usize, price: i64, change: i64) -> Vec<Quote> {
    (0..n).map(|_| Quote::new("AAPL".to_string(), price, change, 0)).collect()
}

#[test]
fn process_applies_one_order_exactly() {
    let mut rng = StdRng::seed_from_u64(1);
    let broker = Broker::new(50);
    let mut portfolio = Portfolio::new(1_000_000);
    let mut processor = OrderProcessor::new();
    let order = Order::new("AAPL".to_string(), 3);
    let quote = Quote::new("AAPL".to_string(), 1000, 10, 3);
    processor.process(order, &broker, &mut portfolio, &quote, 5, &mut rng).unwrap();
    assert_eq!(portfolio.trades.len(), 1);
    assert_eq!(portfolio.trades[0].price, 1005);
    assert_eq!(portfolio.trades[0].quantity, 3);
    assert_eq!(portfolio.position, 3);
    // mark with the post-trade position, then deduct the costs:
    // 3 * 10 - 50 * 3
    assert_eq!(portfolio.pnl, -120);
    assert_eq!(portfolio.capital, 1_000_000);
    assert_eq!(processor.total_orders_processed, 1);
    assert_eq!(processor.total_value_processed, 3015);
}

#[test]
fn process_keeps_position_equal_to_trade_sum() {
    let mut rng = StdRng::seed_from_u64(9);
    let broker = Broker::new(50);
    let mut portfolio = Portfolio::new(1_000_000);
    let quantities = [100i64, -40, 25, -100, 3];
    for q in quantities {
        let mut processor = OrderProcessor::new();
        let order = Order::new("AAPL".to_string(), q);
        let quote = Quote::new("AAPL".to_string(), 1000, 10, q);
        processor.process(order, &broker, &mut portfolio, &quote, 0, &mut rng).unwrap();
    }
    let total: i64 = portfolio.trades.iter().map(|t| t.quantity).sum();
    assert_eq!(portfolio.position, total);
    assert_eq!(portfolio.trades.len(), quantities.len());
}

#[test]
fn process_tolerates_partial_fills() {
    for seed in 0u64..30 {
        let mut rng = StdRng::seed_from_u64(seed);
        let broker = Broker::new(50);
        let mut portfolio = Portfolio::new(1_000_000);
        let mut processor = OrderProcessor::new();
        let order = Order::new("AAPL".to_string(), 100);
        let quote = Quote::new("AAPL".to_string(), 1000, 10, 100);
        let r = processor.process(order, &broker, &mut portfolio, &quote, 0, &mut rng);
        assert!(r.is_ok(), "a fill short of the request must not abort the run");
        assert!(portfolio.position > 75 && portfolio.position <= 100);
    }
}

#[test]
fn process_leaves_portfolio_unchanged_on_out_of_range_ledger() {
    let mut rng = StdRng::seed_from_u64(2);
    let broker = Broker::new(50);
    let mut portfolio = Portfolio::new(1_000_000);
    portfolio.position = i64::MAX;
    let mut processor = OrderProcessor::new();
    let order = Order::new("AAPL".to_string(), 100);
    let quote = Quote::new("AAPL".to_string(), 1000, 10, 100);
    let r = processor.process(order, &broker, &mut portfolio, &quote, 0, &mut rng);
    assert!(r.is_err());
    assert_eq!(portfolio.position, i64::MAX);
    assert_eq!(portfolio.trades.len(), 0);
    assert_eq!(portfolio.pnl, 0);
    assert_eq!(processor.total_orders_processed, 0);
}

#[test]
fn backtest_over_exactly_warm_up_bars_makes_no_trade() {
    let mut rng = StdRng::seed_from_u64(4);
    let data = bars(&[1000, 1100, 1200]);
    let mut backtest = Backtest::new(3, Portfolio::new(1_000_000));
    let quotes = flat_quotes(3, 1000, 0);
    let noise = vec![0i64; 3];
    let result: BacktestResult = backtest
        .run(&MACrossoverStrategy::new(3, 100, -100), &data, &metadata(), &quotes, &noise, &mut rng)
        .unwrap();
    assert_eq!(result.n_trades, 0);
    assert_eq!(result.pnl, 0);
    assert_eq!(backtest.portfolio.trades.len(), 0);
    assert_eq!(backtest.portfolio.position, 0);
}

#[test]
fn backtest_four_flat_bars_one_evaluable_step_no_trades() {
    let mut rng = StdRng::seed_from_u64(4);
    // one evaluable step: the visible window is the first three closes,
    // whose mean equals the last close, so no order is emitted
    let data = bars(&[1000, 1000, 1000, 2000]);
    let mut backtest = Backtest::new(3, Portfolio::new(1_000_000));
    let quotes = flat_quotes(4, 1000, 0);
    let noise = vec![0i64; 4];
    let result = backtest
        .run(&MACrossoverStrategy::new(3, 100, -100), &data, &metadata(), &quotes, &noise, &mut rng)
        .unwrap();
    assert_eq!(result.n_trades, 0);
    assert_eq!(result.pnl, 0);
    assert_eq!(backtest.portfolio.trades.len(), 0);
}

#[test]
fn backtest_all_flat_windows_no_trades() {
    let mut rng = StdRng::seed_from_u64(4);
    let data = bars(&[1000, 1000, 1000, 1000, 2000]);
    let mut backtest = Backtest::new(3, Portfolio::new(1_000_000));
    let quotes = flat_quotes(5, 1000, 0);
    let noise = vec![0i64; 5];
    let result = backtest
        .run(&MACrossoverStrategy::new(3, 100, -100), &data, &metadata(), &quotes, &noise, &mut rng)
        .unwrap();
    assert_eq!(result.n_trades, 0);
}

#[test]
fn backtest_crossover_emits_one_buy() {
    let mut rng = StdRng::seed_from_u64(4);
    // the window before the last bar has mean 10.50 and last close
    // 12.00: a crossover while flat, so exactly one buy fires
    let data = bars(&[1000, 1000, 1000, 1200, 2000]);
    let mut backtest = Backtest::new(3, Portfolio::new(1_000_000));
    let quotes = flat_quotes(5, 1000, 0);
    let noise = vec![0i64; 5];
    let result = backtest
        .run(&MACrossoverStrategy::new(3, 100, -100), &data, &metadata(), &quotes, &noise, &mut rng)
        .unwrap();
    assert_eq!(result.n_trades, 1);
    assert_eq!(backtest.portfolio.trades.len(), 1);
    assert!(backtest.portfolio.position > 0);
    assert!(backtest.portfolio.position <= 100);
    assert_eq!(backtest.portfolio.position, backtest.portfolio.trades[0].quantity);
    // costs are charged on the requested 100 shares at the default rate
    assert_eq!(result.pnl, -5000);
}

#[test]
fn backtest_warm_up_longer_than_data_is_a_no_op() {
    let mut rng = StdRng::seed_from_u64(4);
    let data = bars(&[1000, 1100]);
    let mut backtest = Backtest::new(10, Portfolio::new(500));
    let quotes = flat_quotes(2, 1000, 0);
    let noise = vec![0i64; 2];
    let result = backtest
        .run(&MACrossoverStrategy::new(3, 100, -100), &data, &metadata(), &quotes, &noise, &mut rng)
        .unwrap();
    assert_eq!(result.n_trades, 0);
    assert_eq!(backtest.portfolio.capital, 500);
}

#[test]
fn backtest_marks_pnl_with_quote_change() {
    let mut rng = StdRng::seed_from_u64(4);
    // a small order fills exactly, so the mark is deterministic:
    // 3 * 7 - 50 * 3
    let data = bars(&[1000, 1000, 1000, 1200, 2000]);
    let mut backtest = Backtest::new(3, Portfolio::new(1_000_000));
    let quotes = flat_quotes(5, 1000, 7);
    let noise = vec![0i64; 5];
    let result = backtest
        .run(&MACrossoverStrategy::new(3, 3, -3), &data, &metadata(), &quotes, &noise, &mut rng)
        .unwrap();
    assert_eq!(result.n_trades, 1);
    assert_eq!(backtest.portfolio.position, 3);
    assert_eq!(result.pnl, 3 * 7 - 150);
    assert_eq!(backtest.pnl, backtest.portfolio.pnl);
}

#[test]
fn backtest_aborts_whole_run_on_ledger_error() {
    let mut rng = StdRng::seed_from_u64(4);
    // the first evaluable window signals a sell while the position is
    // so large that marking it against a nonzero change cannot be
    // represented: the run aborts with nothing reported
    let data = bars(&[1000, 1000, 900, 900]);
    let mut backtest = Backtest::new(3, Portfolio::new(1_000_000));
    backtest.portfolio.position = i64::MAX;
    let quotes = flat_quotes(4, 1000, 7);
    let noise = vec![0i64; 4];
    let r = backtest.run(
        &MACrossoverStrategy::new(3, 100, -100),
        &data,
        &metadata(),
        &quotes,
        &noise,
        &mut rng,
    );
    assert_eq!(r.unwrap_err(), trading_engine::errors::TradingError::LedgerOutOfRange);
    assert_eq!(backtest.n_trades, 0);
    assert_eq!(backtest.portfolio.trades.len(), 0);
}

#[test]
fn process_deducts_nonnegative_costs_for_sells() {
    let mut rng = StdRng::seed_from_u64(1);
    let broker = Broker::new(50);
    let mut portfolio = Portfolio::new(1_000_000);
    let mut processor = OrderProcessor::new();
    let order = Order::new("AAPL".to_string(), -3);
    let quote = Quote::new("AAPL".to_string(), 1000, 10, -3);
    processor.process(order, &broker, &mut portfolio, &quote, 0, &mut rng).unwrap();
    assert_eq!(portfolio.position, -3);
    // mark the post-trade position, then deduct costs on the requested
    // magnitude: -3 * 10 - 50 * 3
    assert_eq!(portfolio.pnl, -180);
}

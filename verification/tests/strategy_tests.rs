use trading_engine::data_loading::{DatedStockData, Metadata};
use trading_engine::portfolio::Portfolio;
use trading_engine::strategy::{
    AnyStrategy, MACrossoverStrategy, Strategy, StrategyFactory, StrategyKind,
};

fn bar(close: i64) -> DatedStockData {
    DatedStockData::new("2023-05-01".to_string(), close, close, close, close, 100)
}

fn bars(closes: &[i64]) -> Vec<DatedStockData> {
    closes.iter().map(|c| bar(*c)).collect()
}

fn metadata() -> Metadata {
    Metadata::new("AAPL".to_string())
}

#[test]
fn ma_crossover_buys_above_mean_when_flat() {
    let strategy = MACrossoverStrategy::new(3, 100, -100);
    let portfolio = Portfolio::new(1_000_000);
    let order = strategy.on_data(bars(&[1000, 1000, 1000, 1200]), &metadata(), &portfolio);
    let order = order.expect("a close above the mean while flat must emit a buy");
    assert_eq!(order.quantity, 100);
    assert_eq!(order.ticker, "AAPL");
}

#[test]
fn ma_crossover_sells_below_mean_when_flat() {
    let strategy = MACrossoverStrategy::new(3, 100, -100);
    let portfolio = Portfolio::new(1_000_000);
    let order = strategy.on_data(bars(&[1000, 1200, 1200, 900]), &metadata(), &portfolio);
    let order = order.expect("a close below the mean while flat must emit a sell");
    assert_eq!(order.quantity, -100);
}

#[test]
fn ma_crossover_tie_is_no_op() {
    let strategy = MACrossoverStrategy::new(3, 100, -100);
    let portfolio = Portfolio::new(1_000_000);
    let order = strategy.on_data(bars(&[900, 1000, 1000, 1000]), &metadata(), &portfolio);
    assert!(order.is_none(), "equal closes mean a tie, and a tie emits no order");
}

#[test]
fn ma_crossover_insufficient_history_is_no_op() {
    let strategy = MACrossoverStrategy::new(5, 100, -100);
    let portfolio = Portfolio::new(1_000_000);
    let order = strategy.on_data(bars(&[1000, 1000, 1200]), &metadata(), &portfolio);
    assert!(order.is_none(), "fewer bars than the window is a no-op, not an error");
}

#[test]
fn ma_crossover_does_not_add_to_long_position() {
    let strategy = MACrossoverStrategy::new(3, 100, -100);
    let mut portfolio = Portfolio::new(1_000_000);
    portfolio.position = 10;
    let order = strategy.on_data(bars(&[1000, 1000, 1000, 1200]), &metadata(), &portfolio);
    assert!(order.is_none(), "a net-long portfolio must not buy again");
}

#[test]
fn ma_crossover_does_not_add_to_short_position() {
    let strategy = MACrossoverStrategy::new(3, 100, -100);
    let mut portfolio = Portfolio::new(1_000_000);
    portfolio.position = -10;
    let order = strategy.on_data(bars(&[1000, 1200, 1200, 900]), &metadata(), &portfolio);
    assert!(order.is_none(), "a net-short portfolio must not sell again");
}

#[test]
fn ma_crossover_short_exit_while_long_is_allowed() {
    let strategy = MACrossoverStrategy::new(3, 100, -100);
    let mut portfolio = Portfolio::new(1_000_000);
    portfolio.position = 10;
    let order = strategy.on_data(bars(&[1000, 1200, 1200, 900]), &metadata(), &portfolio);
    let order = order.expect("a long portfolio may still sell on a close below the mean");
    assert_eq!(order.quantity, -100);
}

#[test]
fn decision_is_deterministic_for_same_window_and_portfolio() {
    let strategy = MACrossoverStrategy::new(3, 100, -100);
    let portfolio = Portfolio::new(1_000_000);
    let window = bars(&[1000, 1000, 1000, 1200]);
    let first = strategy.on_data(window.clone(), &metadata(), &portfolio);
    let second = strategy.on_data(window, &metadata(), &portfolio);
    assert_eq!(first.is_some(), second.is_some());
    assert_eq!(first.map(|o| o.quantity), second.map(|o| o.quantity));
}

#[test]
fn factory_creates_registered_strategy() {
    let factory = StrategyFactory::new();
    let strategy = factory.create("ma_crossover", 3, 100, -100);
    let strategy = strategy.expect("the moving-average crossover comes registered");
    let portfolio = Portfolio::new(1_000_000);
    let order = strategy.on_data(bars(&[1000, 1000, 1000, 1200]), &metadata(), &portfolio);
    assert_eq!(order.expect("the created strategy must decide like one built directly").quantity, 100);
}

#[test]
fn factory_returns_none_for_unknown_name() {
    let factory = StrategyFactory::new();
    assert!(factory.create("unknown", 3, 100, -100).is_none());
}

#[test]
fn factory_register_adds_a_name() {
    let mut factory = StrategyFactory::new();
    factory.register("other", StrategyKind::MACrossover);
    let strategy = factory.create("other", 2, 7, -7);
    assert!(strategy.is_some());
    match strategy.unwrap() {
        AnyStrategy::MACrossover(s) => {
            assert_eq!(s.window, 2);
            assert_eq!(s.long_quantity, 7);
            assert_eq!(s.short_quantity, -7);
        },
    }
}

#[test]
fn factory_register_overwrites_a_name() {
    let mut factory = StrategyFactory::new();
    factory.register("ma_crossover", StrategyKind::MACrossover);
    assert!(factory.create("ma_crossover", 3, 100, -100).is_some());
}

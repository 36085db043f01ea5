use vstd::prelude::*;

verus! {

/// One executed fill, appended to the portfolio's ledger and never
/// changed afterwards. The price is fixed-point, in hundredths; the
/// timestamp is milliseconds since the Unix epoch.
#[derive(Debug)]
pub struct Trade {
    pub ticker: String,
    pub timestamp: i64,
    pub price: i64,
    pub quantity: i64,
}

impl Trade {
    pub fn new(ticker: String, timestamp: i64, price: i64, quantity: i64) -> (r: Trade)
        ensures
            r.ticker == ticker,
            r.timestamp == timestamp,
            r.price == price,
            r.quantity == quantity,
    {
        Trade { ticker, timestamp, price, quantity }
    }
}

/// The signed sum of the quantities of a trade ledger.
pub open spec fn sum_trade_quantities(s: Seq<Trade>) -> int
    decreases s.len(),
{
    if s.len() == 0 {
        0
    } else {
        sum_trade_quantities(s.drop_last()) + s.last().quantity
    }
}

pub proof fn lemma_sum_trade_quantities_push(s: Seq<Trade>, t: Trade)
    ensures
        sum_trade_quantities(s.push(t)) == sum_trade_quantities(s) + t.quantity,
{
    assert(s.push(t).drop_last() =~= s);
}

/// The ledger of one backtest run: net position, cumulative
/// profit-and-loss (fixed-point, hundredths) and the ordered trade
/// history. The initial capital is informational and never changes.
#[derive(Debug)]
pub struct Portfolio {
    pub capital: isize,
    pub position: i64,
    pub pnl: i64,
    pub trades: Vec<Trade>,
}

impl Portfolio {
    /// The net position always equals the signed sum of every filled
    /// quantity ever applied; order processing preserves this.
    pub open spec fn position_consistent(&self) -> bool {
        self.position == sum_trade_quantities(self.trades@)
    }

    pub fn new(capital: isize) -> (r: Portfolio)
        ensures
            r.capital == capital,
            r.position == 0,
            r.pnl == 0,
            r.trades@ =~= Seq::<Trade>::empty(),
            r.position_consistent(),
    {
        Portfolio { capital, position: 0, pnl: 0, trades: Vec::new() }
    }

    /// The portfolio is net-long when it holds a positive position.
    pub fn is_long(&self) -> (r: bool)
        ensures
            r == (self.position > 0),
    {
        self.position > 0
    }

    /// The portfolio is net-short when it holds a negative position.
    pub fn is_short(&self) -> (r: bool)
        ensures
            r == (self.position < 0),
    {
        self.position < 0
    }

    pub fn is_not_long(&self) -> (r: bool)
        ensures
            r == (self.position <= 0),
    {
        !self.is_long()
    }

    pub fn is_not_short(&self) -> (r: bool)
        ensures
            r == (self.position >= 0),
    {
        !self.is_short()
    }
}

} // verus!

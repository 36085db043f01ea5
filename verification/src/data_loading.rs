use vstd::prelude::*;
use vstd::string::StringExecFns;
use crate::clock::now_epoch_millis;
use crate::errors::TradingError;

verus! {

/// One bar of historical price data. Prices are fixed-point integers in
/// hundredths of a currency unit; a bar is immutable once produced.
#[derive(Debug)]
pub struct DatedStockData {
    pub date: String,
    pub open: i64,
    pub high: i64,
    pub low: i64,
    pub close: i64,
    pub volume: u64,
}

impl DatedStockData {
    pub fn new(date: String, open: i64, high: i64, low: i64, close: i64, volume: u64) -> (r:
        DatedStockData)
        ensures
            r == (DatedStockData { date, open, high, low, close, volume }),
    {
        DatedStockData { date, open, high, low, close, volume }
    }
}

impl Clone for DatedStockData {
    fn clone(&self) -> (r: Self)
        ensures
            r == *self,
    {
        DatedStockData {
            date: self.date.clone(),
            open: self.open,
            high: self.high,
            low: self.low,
            close: self.close,
            volume: self.volume,
        }
    }
}

/// Identifies the instrument a strategy run targets.
#[derive(Debug)]
pub struct Metadata {
    pub symbol: String,
}

impl Metadata {
    pub fn new(symbol: String) -> (r: Metadata)
        ensures
            r.symbol == symbol,
    {
        Metadata { symbol }
    }
}

/// The broker's market snapshot for one order: the current price, its
/// latest change (both fixed-point, hundredths) and the requested
/// quantity echoed back. Fetched fresh for every order; its price and
/// change are read at most once per order.
#[derive(Debug)]
pub struct Quote {
    pub ticker: String,
    pub quote: i64,
    pub change: i64,
    pub quantity: i64,
    /// Milliseconds since the Unix epoch, stamped at creation.
    pub timestamp: i64,
}

impl Quote {
    pub fn new(ticker: String, quote: i64, change: i64, quantity: i64) -> (r: Quote)
        ensures
            r.ticker == ticker,
            r.quote == quote,
            r.change == change,
            r.quantity == quantity,
    {
        Quote { ticker, quote, change, quantity, timestamp: now_epoch_millis() }
    }
}

/// The sampling interval of a historical time series.
#[derive(Clone, Copy, Debug, PartialEq, Eq, Structural)]
pub enum Interval {
    Minute,
    Hour,
    Day,
    Week,
    Month,
}

/// The query-building half of the market-data client. The remote fetch
/// itself and the decoding of its response are outside the engine; the
/// API key is supplied at construction.
#[derive(Debug)]
pub struct AlphaVantage {
    pub api_key: String,
}

impl AlphaVantage {
    pub fn new(api_key: String) -> (r: AlphaVantage)
        ensures
            r.api_key == api_key,
    {
        AlphaVantage { api_key }
    }

    pub fn get_api_key(&self) -> (r: Result<String, TradingError>)
        ensures
            r is Ok,
            r->Ok_0 == self.api_key,
    {
        Ok(self.api_key.clone())
    }

    /// The full query URL for one API function and symbol.
    pub fn get_url(&self, function: String, symbol: String) -> (r: Result<String, TradingError>)
        ensures
            r is Ok,
            r->Ok_0@ == "https://www.alphavantage.co/query"@ + "?function="@ + function@
                + "&symbol="@ + symbol@ + "&apikey="@ + self.api_key@,
    {
        let api_key = match self.get_api_key() {
            Ok(k) => k,
            Err(e) => {
                return Err(e);
            },
        };
        let mut url = "https://www.alphavantage.co/query".to_owned();
        url.append("?function=");
        url.append(function.as_str());
        url.append("&symbol=");
        url.append(symbol.as_str());
        url.append("&apikey=");
        url.append(api_key.as_str());
        proof {
            assert(url@ =~= "https://www.alphavantage.co/query"@ + "?function="@ + function@
                + "&symbol="@ + symbol@ + "&apikey="@ + self.api_key@);
        }
        Ok(url)
    }

    /// The API function name that selects a time series of the given
    /// interval.
    pub fn _api_function_from_interval(&self, interval: &Interval) -> (r: Result<
        String,
        TradingError,
    >)
        ensures
            r is Ok,
            r->Ok_0@ == match interval {
                Interval::Minute => "TIME_SERIES_INTRADAY&interval=1min"@,
                Interval::Hour => "TIME_SERIES_INTRADAY&interval=60min"@,
                Interval::Day => "TIME_SERIES_DAILY"@,
                Interval::Week => "TIME_SERIES_WEEKLY"@,
                Interval::Month => "TIME_SERIES_MONTHLY"@,
            },
    {
        let function = match interval {
            Interval::Minute => "TIME_SERIES_INTRADAY&interval=1min",
            Interval::Hour => "TIME_SERIES_INTRADAY&interval=60min",
            Interval::Day => "TIME_SERIES_DAILY",
            Interval::Week => "TIME_SERIES_WEEKLY",
            Interval::Month => "TIME_SERIES_MONTHLY",
        };
        Ok(function.to_owned())
    }

    /// The key under which the response nests a time series of the
    /// given interval.
    pub fn _ts_key_from_interval(&self, interval: &Interval) -> (r: Result<String, TradingError>)
        ensures
            r is Ok,
            r->Ok_0@ == match interval {
                Interval::Minute => "Time Series (1min)"@,
                Interval::Hour => "Time Series (60min)"@,
                Interval::Day => "Time Series (Daily)"@,
                Interval::Week => "Weekly Time Series"@,
                Interval::Month => "Monthly Time Series"@,
            },
    {
        let key = match interval {
            Interval::Minute => "Time Series (1min)",
            Interval::Hour => "Time Series (60min)",
            Interval::Day => "Time Series (Daily)",
            Interval::Week => "Weekly Time Series",
            Interval::Month => "Monthly Time Series",
        };
        Ok(key.to_owned())
    }
}

} // verus!

use vstd::prelude::*;

verus! {

/// A configuration value the engine needs: the market-data API key.
/// Reading it from the process environment is the caller's business —
/// the engine only carries the value, and a missing key is the caller's
/// `ConfigMissing` error, never a silent default.
#[derive(Debug)]
pub struct Config {
    pub api_key: String,
}

impl Config {
    pub fn new(api_key: String) -> (r: Config)
        ensures
            r.api_key == api_key,
    {
        Config { api_key }
    }
}

} // verus!

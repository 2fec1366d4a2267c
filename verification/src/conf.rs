use vstd::prelude::*;

verus! {

/// The static configuration read at start-up.
#[derive(Debug, Clone)]
pub struct Config {
    /// The ClickHouse server's URL.
    pub clickhouse: String,
    /// The database holding the market data.
    pub db_name: String,
}

} // verus!

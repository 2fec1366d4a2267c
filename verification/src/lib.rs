//! Verified core of a trading system: market identities, order sides,
//! decimal amounts, the portfolio's balance ledger, the trader's order
//! bookkeeping and timestamp conversions.

pub mod market;
pub mod trade;
pub mod amount;
pub mod portfolio;
pub mod trader;
pub mod time;
pub mod event;
pub mod execution;
pub mod conf;
pub mod monitor;
pub mod strategy;
pub mod history;

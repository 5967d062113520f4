//! A yield-adjusted price oracle: it takes yield rates of interest-bearing
//! assets, checks each against the last accepted one, combines it with the
//! rate of the asset's currency and keeps the resulting price in a store of
//! expiring records, from which spot prices, cross rates and time-weighted
//! averages are read.

pub mod average;
pub mod continuity;
pub mod error;
pub mod fixed_point;
pub mod fx;
pub mod key;
pub mod mock;
pub mod oracle;
pub mod price;
pub mod query;
pub mod store;
pub mod types;
pub mod yield_rate;

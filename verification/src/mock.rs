use crate::fx::{as_reply, OracleReply};
use crate::types::{Asset, PriceData, Symbol};
use vstd::prelude::*;

verus! {

/// A scripted currency feed. It answers with fixed rates at the time of its
/// own clock, and can be told to misbehave in one of four ways, named
/// `zero_timestamp`, `none_price`, `negative_price` and `zero_price`.
pub struct MockFxOracle {
    /// The way in which the feed misbehaves, if it does.
    pub error_mode: Option<Symbol>,
    /// The timestamp the feed reports in place of its clock, in seconds.
    pub custom_timestamp: Option<u64>,
    /// The feed's clock, in seconds.
    pub ledger_timestamp: u64,
}

/// The rate with 14 fractional digits that the feed quotes for an asset.
pub open spec fn quoted_rate(asset: Asset) -> i128 {
    match asset {
        Asset::Other(symbol) => {
            if symbol@ == "MXN"@ {
                57_000_000_000_000
            } else if symbol@ == "EUR"@ {
                110_000_000_000_000
            } else if symbol@ == "GBP"@ {
                127_000_000_000_000
            } else if symbol@ == "JPY"@ {
                6_500_000_000_000
            } else if symbol@ == "CAD"@ {
                73_000_000_000_000
            } else if symbol@ == "AUD"@ {
                65_000_000_000_000
            } else if symbol@ == "CHF"@ {
                112_000_000_000_000
            } else {
                100_000_000_000_000
            }
        },
        Asset::Stellar(_) => 100_000_000_000_000,
    }
}

impl MockFxOracle {
    /// Whether the feed misbehaves in the way called `name`.
    pub open spec fn in_mode(&self, name: Seq<char>) -> bool {
        match self.error_mode {
            Some(mode) => mode@ == name,
            None => false,
        }
    }

    /// The timestamp the feed reports, in seconds.
    pub open spec fn reported_timestamp(&self) -> u64 {
        match self.custom_timestamp {
            Some(timestamp) => timestamp,
            None => if self.in_mode("zero_timestamp"@) {
                0
            } else {
                self.ledger_timestamp
            },
        }
    }

    /// The price the feed gives for an asset.
    pub open spec fn reported_price(&self, asset: Asset) -> Option<PriceData> {
        if self.in_mode("none_price"@) {
            None
        } else if self.in_mode("negative_price"@) {
            Some(PriceData { price: -100_000_000_000_000i128, timestamp: self.reported_timestamp() })
        } else if self.in_mode("zero_price"@) {
            Some(PriceData { price: 0, timestamp: self.reported_timestamp() })
        } else {
            Some(PriceData { price: quoted_rate(asset), timestamp: self.reported_timestamp() })
        }
    }

    /// The last price the feed gives for an asset: none while it reports
    /// the timestamp zero.
    pub open spec fn reported_last_price(&self, asset: Asset) -> Option<PriceData> {
        if self.reported_timestamp() == 0 {
            None
        } else {
            self.reported_price(asset)
        }
    }

    /// A well-behaved feed whose clock shows `ledger_timestamp` seconds.
    pub fn new(ledger_timestamp: u64) -> (feed: MockFxOracle)
        ensures
            feed.error_mode is None,
            feed.custom_timestamp is None,
            feed.ledger_timestamp == ledger_timestamp,
    {
        MockFxOracle { error_mode: None, custom_timestamp: None, ledger_timestamp }
    }

    /// Tells the feed how to misbehave, or with `None` to behave.
    pub fn set_error_mode(&mut self, mode: Option<Symbol>)
        ensures
            final(self).error_mode == mode,
            final(self).custom_timestamp == old(self).custom_timestamp,
            final(self).ledger_timestamp == old(self).ledger_timestamp,
    {
        self.error_mode = mode;
    }

    /// Makes the feed report `timestamp`, in seconds, in place of its clock.
    pub fn set_custom_timestamp(&mut self, timestamp: u64)
        ensures
            final(self).custom_timestamp == Some(timestamp),
            final(self).error_mode == old(self).error_mode,
            final(self).ledger_timestamp == old(self).ledger_timestamp,
    {
        self.custom_timestamp = Some(timestamp);
    }

    /// Whether the feed misbehaves in the way called `name`.
    pub fn has_mode(&self, name: &str) -> (active: bool)
        ensures
            active == self.in_mode(name@),
    {
        match &self.error_mode {
            Some(mode) => mode.is_named(name),
            None => false,
        }
    }

    /// The timestamp the feed reports, in seconds.
    pub fn last_timestamp(&self) -> (timestamp: u64)
        ensures
            timestamp == self.reported_timestamp(),
    {
        if let Some(timestamp) = self.custom_timestamp {
            return timestamp;
        }
        if self.has_mode("zero_timestamp") {
            return 0;
        }
        self.ledger_timestamp
    }

    /// The last price the feed gives for an asset.
    pub fn lastprice(&self, asset: &Asset) -> (data: Option<PriceData>)
        ensures
            data == self.reported_last_price(*asset),
    {
        let timestamp = self.last_timestamp();
        if timestamp == 0 {
            return None;
        }
        self.price(asset, timestamp)
    }

    /// The price the feed gives for an asset; the feed has no history, so
    /// the timestamp asked for does not matter.
    pub fn price(&self, asset: &Asset, _timestamp: u64) -> (data: Option<PriceData>)
        ensures
            data == self.reported_price(*asset),
    {
        if self.has_mode("none_price") {
            return None;
        } else if self.has_mode("negative_price") {
            let timestamp = self.last_timestamp();
            return Some(PriceData { price: -100_000_000_000_000i128, timestamp });
        } else if self.has_mode("zero_price") {
            let timestamp = self.last_timestamp();
            return Some(PriceData { price: 0, timestamp });
        }
        let price: i128 = match asset {
            Asset::Other(symbol) => {
                if symbol.is_named("MXN") {
                    57_000_000_000_000i128
                } else if symbol.is_named("EUR") {
                    110_000_000_000_000i128
                } else if symbol.is_named("GBP") {
                    127_000_000_000_000i128
                } else if symbol.is_named("JPY") {
                    6_500_000_000_000i128
                } else if symbol.is_named("CAD") {
                    73_000_000_000_000i128
                } else if symbol.is_named("AUD") {
                    65_000_000_000_000i128
                } else if symbol.is_named("CHF") {
                    112_000_000_000_000i128
                } else {
                    100_000_000_000_000i128
                }
            },
            Asset::Stellar(_) => 100_000_000_000_000i128,
        };
        let timestamp = self.last_timestamp();
        Some(PriceData { price, timestamp })
    }

    /// The feed's answer to a request for the last price of a currency.
    pub fn reply(&self, fx: &Symbol) -> (reply: OracleReply)
        ensures
            reply == as_reply(self.reported_last_price(Asset::Other(*fx))),
    {
        let ticker = Asset::Other(fx.clone());
        as_reply(self.lastprice(&ticker))
    }
}

} // verus!

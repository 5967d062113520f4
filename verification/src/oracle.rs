use crate::continuity::{obtain_record_timestamp, reference_timestamp};
use crate::error::Error;
use crate::fixed_point::{pow10, scaled_floor_div_spec};
use crate::fx::{as_reply, as_reply_spec, fx_price_spec, get_fx_price, OracleReply};
use crate::key::{
    encode_record_key,
    encode_yield_key,
    lemma_keys_in_range,
    lemma_other_keys,
    lemma_price_and_yield_keys_disjoint,
    price_key,
    yield_key,
};
use crate::price::{
    get_price_with_yield,
    lemma_base_currency_price_is_yield_rate,
    lemma_price_is_positive,
    price_with_yield,
};
use crate::store::{lookup, written, Record, RecordStore};
use crate::types::{is_base_currency_name, Address, ConfigData, PriceData, Symbol};
use crate::yield_rate::{validate_yield_rate, yield_rate_verdict};
use vstd::prelude::*;

verus! {

/// The settings and markers that every operation of an oracle reads.
#[derive(Copy, Clone, Debug, PartialEq, Eq, Structural)]
pub struct GlobalState {
    /// The number of fractional digits of every fixed-point value.
    pub decimals: u32,
    /// The width of a time bucket, in milliseconds.
    pub resolution: u32,
    /// How long prices are kept, in milliseconds.
    pub retention_period: u64,
    /// The largest rise of a yield rate between two updates, in percent.
    pub max_yield_deviation: u32,
    /// The timestamp of the last accepted update, in milliseconds; zero
    /// before the first.
    pub last_timestamp: u64,
    /// The current time of the chain, in seconds.
    pub ledger_timestamp: u64,
    /// The number of the current ledger.
    pub ledger_sequence: u32,
}

/// A yield-adjusted price oracle: its settings and its expiring records of
/// prices and yield rates.
pub struct PriceOracle {
    state: GlobalState,
    store: RecordStore,
    fx_oracle: Option<Address>,
}

/// What one period contributes to an average, together with what the later
/// periods contribute: nothing where a period is missing, an overflow where
/// either side overflowed, the sum otherwise.
pub open spec fn joined(value: Option<i128>, rest: Option<Option<int>>) -> Option<Option<int>> {
    match rest {
        None => None,
        Some(rest) => match (value, rest) {
            (Some(value), Some(rest)) => Some(Some(value + rest)),
            _ => Some(None),
        },
    }
}

impl PriceOracle {
    /// The settings and markers of the oracle.
    pub closed spec fn state(&self) -> GlobalState {
        self.state
    }

    /// Where the rates of currencies come from, if that is configured.
    pub closed spec fn fx_oracle(&self) -> Option<Address> {
        self.fx_oracle
    }

    /// What the feed's answer amounts to: without a configured feed there
    /// is none to ask, whatever was handed in.
    pub open spec fn feed_reply(&self, answer: Option<PriceData>) -> OracleReply {
        if self.fx_oracle() is None {
            OracleReply::Unavailable
        } else {
            as_reply_spec(answer)
        }
    }

    /// Everything the oracle has stored, expired or not.
    pub closed spec fn records(&self) -> Map<u128, Record> {
        self.store@
    }

    /// Every stored price is positive, and stands beside the yield rate
    /// that was accepted with it.
    pub open spec fn wf(&self) -> bool {
        forall|timestamp: u64, asset: u8| #![trigger price_key(timestamp, asset)]
            self.records().dom().contains(price_key(timestamp, asset) as u128) ==> {
                &&& self.records()[price_key(timestamp, asset) as u128].value > 0
                &&& self.records().dom().contains(yield_key(timestamp, asset) as u128)
            }
    }

    /// The price of `asset` at exactly `timestamp`, if one is stored and has
    /// not expired.
    pub open spec fn price_at(&self, asset: u8, timestamp: u64) -> Option<i128> {
        lookup(self.records(), price_key(timestamp, asset) as u128, self.state().ledger_sequence)
    }

    /// The yield rate of `asset` accepted at exactly `timestamp`, if one is
    /// stored and has not expired.
    pub open spec fn yield_rate_at(&self, asset: u8, timestamp: u64) -> Option<i128> {
        lookup(self.records(), yield_key(timestamp, asset) as u128, self.state().ledger_sequence)
    }

    /// The timestamp that serves as the reference point now, or zero.
    pub open spec fn reference(&self) -> u64 {
        reference_timestamp(
            self.state().last_timestamp,
            self.state().ledger_timestamp,
            self.state().resolution,
        )
    }

    /// The last accepted yield rate of `asset` that a new one is judged
    /// against: the one at the reference point, if there is a reference point
    /// and a rate stored at it.
    pub open spec fn previous_yield_rate(&self, asset: u8) -> Option<i128> {
        if self.reference() > 0 {
            self.yield_rate_at(asset, self.reference())
        } else {
            None
        }
    }

    /// The price that an update stores, or the reason for which it is
    /// refused: the verdict on the yield rate comes first, then the
    /// currency's rate, then the composition of the two.
    pub open spec fn update_outcome(
        &self,
        asset: u8,
        is_base: bool,
        yield_rate: i128,
        timestamp: u64,
        reply: OracleReply,
    ) -> Result<i128, Error> {
        match yield_rate_verdict(
            yield_rate,
            self.previous_yield_rate(asset),
            self.state().decimals,
            self.state().max_yield_deviation,
        ) {
            Err(error) => Err(error),
            Ok(_) => match fx_price_spec(
                is_base,
                reply,
                timestamp,
                self.state().decimals,
                self.state().resolution,
            ) {
                Err(error) => Err(error),
                Ok(fx_price) => price_with_yield(yield_rate, fx_price, self.state().decimals),
            },
        }
    }

    /// What `asset` is worth at `timestamp`: its price, or with a quote
    /// asset its price in units of the quote asset. The outer `None` says
    /// that a price is missing, the inner one that the cross rate overflows.
    pub open spec fn value_at(&self, asset: u8, quote: Option<u8>, timestamp: u64) -> Option<
        Option<i128>,
    > {
        match quote {
            None => match self.price_at(asset, timestamp) {
                Some(price) => Some(Some(price)),
                None => None,
            },
            Some(quote) => match (self.price_at(asset, timestamp), self.price_at(quote, timestamp)) {
                (Some(price), Some(quote_price)) => Some(
                    scaled_floor_div_spec(price, quote_price, self.state().decimals),
                ),
                _ => None,
            },
        }
    }

    /// The sum of the values at `periods` consecutive periods, the latest at
    /// `latest` and each one resolution window before the next. The outer
    /// `None` says that a period has no value or lies before time zero, the
    /// inner one that a cross rate overflows.
    pub open spec fn period_total(
        &self,
        asset: u8,
        quote: Option<u8>,
        latest: int,
        periods: nat,
    ) -> Option<Option<int>>
        decreases periods,
    {
        if periods == 0 {
            Some(Some(0))
        } else if latest < 0 {
            None
        } else {
            match self.value_at(asset, quote, latest as u64) {
                None => None,
                Some(value) => joined(
                    value,
                    self.period_total(
                        asset,
                        quote,
                        latest - self.state().resolution,
                        (periods - 1) as nat,
                    ),
                ),
            }
        }
    }

    /// The average over `records` consecutive periods that end at the
    /// reference point: nothing without a reference point, for zero periods
    /// or where a period is missing; an overflow where a cross rate or the
    /// sum leaves 128 bits; the mean otherwise, rounded down.
    pub open spec fn average(&self, asset: u8, quote: Option<u8>, records: u32) -> Result<
        Option<i128>,
        Error,
    > {
        if records == 0 || self.reference() == 0 {
            Ok(None)
        } else {
            match self.period_total(asset, quote, self.reference() as int, records as nat) {
                None => Ok(None),
                Some(None) => Err(Error::IntegerOverflow),
                Some(Some(total)) => if total > i128::MAX {
                    Err(Error::IntegerOverflow)
                } else {
                    Ok(Some((total / (records as int)) as i128))
                },
            }
        }
    }

    /// An oracle with the given settings, without records, at ledger zero.
    pub fn new(config: &ConfigData) -> (oracle: PriceOracle)
        ensures
            oracle.wf(),
            oracle.records() == Map::<u128, Record>::empty(),
            oracle.fx_oracle() == Some(config.fx_oracle_address),
            oracle.state() == (GlobalState {
                decimals: config.decimals,
                resolution: config.resolution,
                retention_period: config.period,
                max_yield_deviation: config.max_yield_deviation_percent,
                last_timestamp: 0,
                ledger_timestamp: 0,
                ledger_sequence: 0,
            }),
    {
        PriceOracle {
            state: GlobalState {
                decimals: config.decimals,
                resolution: config.resolution,
                retention_period: config.period,
                max_yield_deviation: config.max_yield_deviation_percent,
                last_timestamp: 0,
                ledger_timestamp: 0,
                ledger_sequence: 0,
            },
            store: RecordStore::new(),
            fx_oracle: Some(config.fx_oracle_address.clone()),
        }
    }

    /// Moves the chain on to the given time, in seconds, and ledger.
    pub fn set_ledger(&mut self, timestamp: u64, sequence: u32)
        ensures
            final(self).records() == old(self).records(),
            final(self).fx_oracle() == old(self).fx_oracle(),
            final(self).wf() == old(self).wf(),
            final(self).state() == (GlobalState {
                ledger_timestamp: timestamp,
                ledger_sequence: sequence,
                ..old(self).state()
            }),
    {
        self.state.ledger_timestamp = timestamp;
        self.state.ledger_sequence = sequence;
    }

    /// Reads the price of `asset` at exactly `timestamp`.
    pub fn get_price(&self, asset: u8, timestamp: u64) -> (price: Option<i128>)
        ensures
            price == self.price_at(asset, timestamp),
    {
        let data_key = encode_record_key(timestamp, asset);
        self.store.get(data_key, self.state.ledger_sequence)
    }

    /// Reads the yield rate of `asset` accepted at exactly `timestamp`.
    pub fn get_last_yield_rate(&self, asset: u8, timestamp: u64) -> (yield_rate: Option<i128>)
        ensures
            yield_rate == self.yield_rate_at(asset, timestamp),
    {
        let data_key = encode_yield_key(timestamp, asset);
        self.store.get(data_key, self.state.ledger_sequence)
    }

    /// Records `yield_rate` as the rate of `asset` accepted at `timestamp`,
    /// to live for `ledgers` ledgers.
    pub fn set_last_yield_rate(&mut self, asset: u8, timestamp: u64, yield_rate: i128, ledgers: u32)
        requires
            old(self).wf(),
        ensures
            final(self).wf(),
            final(self).state() == old(self).state(),
            final(self).fx_oracle() == old(self).fx_oracle(),
            final(self).records() == written(
                old(self).records(),
                yield_key(timestamp, asset) as u128,
                yield_rate,
                ledgers,
                old(self).state().ledger_sequence,
            ),
            final(self).yield_rate_at(asset, timestamp) == Some(yield_rate),
            forall|other: u8, moment: u64| #[trigger]
                final(self).price_at(other, moment) == old(self).price_at(other, moment),
            forall|other: u8, moment: u64|
                other != asset || moment != timestamp ==> #[trigger] final(self).yield_rate_at(
                    other,
                    moment,
                ) == old(self).yield_rate_at(other, moment),
    {
        let data_key = encode_yield_key(timestamp, asset);
        self.store.put(data_key, yield_rate, ledgers, self.state.ledger_sequence);
        proof {
            assert forall|t: u64, a: u8| #![trigger price_key(t, a)]
                self.records().dom().contains(price_key(t, a) as u128) implies self.records()[price_key(
                t,
                a,
            ) as u128].value > 0 && self.records().dom().contains(yield_key(t, a) as u128) by {
                lemma_keys_in_range(t, a);
                lemma_keys_in_range(timestamp, asset);
                lemma_price_and_yield_keys_disjoint(t, a, timestamp, asset);
            }
            lemma_keys_in_range(timestamp, asset);
            assert forall|other: u8, moment: u64| #[trigger]
                self.price_at(other, moment) == old(self).price_at(other, moment) by {
                lemma_other_keys(moment, other, timestamp, asset);
            }
            assert forall|other: u8, moment: u64|
                other != asset || moment != timestamp implies #[trigger] self.yield_rate_at(
                other,
                moment,
            ) == old(self).yield_rate_at(other, moment) by {
                lemma_other_keys(moment, other, timestamp, asset);
            }
        }
    }

    /// Decides whether the last recorded timestamp can serve as the
    /// reference point now; gives it back if so, and zero if not.
    pub fn obtain_record_timestamp(&self) -> (reference: u64)
        ensures
            reference == self.reference(),
    {
        obtain_record_timestamp(
            self.state.last_timestamp,
            self.state.ledger_timestamp,
            self.state.resolution,
        )
    }

    /// Reads the last accepted yield rate of `asset` that a new one is
    /// judged against.
    pub fn get_previous_yield_rate(&self, asset: u8) -> (previous: Option<i128>)
        ensures
            previous == self.previous_yield_rate(asset),
    {
        let last_timestamp = self.obtain_record_timestamp();
        if last_timestamp > 0 {
            self.get_last_yield_rate(asset, last_timestamp)
        } else {
            None
        }
    }

    /// Takes an update of `asset`: judges the yield rate, resolves the rate
    /// of `fx` from the feed's answer, composes the price and stores the
    /// yield rate and the price under `timestamp`, to live for
    /// `ledgers_to_live` ledgers. A refused update stores nothing.
    ///
    /// `answer` is what the feed gave as its last price of `fx`, `None`
    /// where it has none; for the base currency it is not looked at.
    pub fn set_price(
        &mut self,
        asset: u8,
        fx: &Symbol,
        yield_rate: i128,
        timestamp: u64,
        ledgers_to_live: u32,
        answer: Option<PriceData>,
    ) -> (outcome: Result<(), Error>)
        requires
            old(self).wf(),
        ensures
            final(self).wf(),
            final(self).state() == old(self).state(),
            final(self).fx_oracle() == old(self).fx_oracle(),
            match old(self).update_outcome(
                asset,
                is_base_currency_name(fx@),
                yield_rate,
                timestamp,
                old(self).feed_reply(answer),
            ) {
                Ok(price) => outcome is Ok && final(self).records() == written(
                    written(
                        old(self).records(),
                        yield_key(timestamp, asset) as u128,
                        yield_rate,
                        ledgers_to_live,
                        old(self).state().ledger_sequence,
                    ),
                    price_key(timestamp, asset) as u128,
                    price,
                    ledgers_to_live,
                    old(self).state().ledger_sequence,
                ),
                Err(error) => outcome == Err::<(), Error>(error) && final(self).records() == old(
                    self,
                ).records(),
            },
            forall|other: u8, moment: u64|
                other != asset || moment != timestamp ==> #[trigger] final(self).price_at(
                    other,
                    moment,
                ) == old(self).price_at(other, moment),
            forall|other: u8, moment: u64|
                other != asset || moment != timestamp ==> #[trigger] final(self).yield_rate_at(
                    other,
                    moment,
                ) == old(self).yield_rate_at(other, moment),
            outcome is Ok ==> final(self).yield_rate_at(asset, timestamp) == Some(yield_rate),
            outcome is Ok ==> final(self).price_at(asset, timestamp) == Some(
                old(self).update_outcome(
                    asset,
                    is_base_currency_name(fx@),
                    yield_rate,
                    timestamp,
                    old(self).feed_reply(answer),
                )->Ok_0,
            ),
    {
        let decimals = self.state.decimals;
        let previous_yield_rate = self.get_previous_yield_rate(asset);
        match validate_yield_rate(
            yield_rate,
            previous_yield_rate,
            decimals,
            self.state.max_yield_deviation,
        ) {
            Ok(_) => {},
            Err(error) => {
                return Err(error);
            },
        }
        let reply = if self.fx_oracle.is_none() {
            OracleReply::Unavailable
        } else {
            as_reply(answer)
        };
        let fx_price = match get_fx_price(fx, reply, timestamp, decimals, self.state.resolution) {
            Ok(fx_price) => fx_price,
            Err(error) => {
                return Err(error);
            },
        };
        let price = match get_price_with_yield(yield_rate, fx_price, decimals) {
            Ok(price) => price,
            Err(error) => {
                return Err(error);
            },
        };
        proof {
            crate::fixed_point::lemma_pow10_monotonic(0, decimals as nat);
            lemma_price_is_positive(yield_rate, fx_price, decimals);
        }
        self.set_last_yield_rate(asset, timestamp, yield_rate, ledgers_to_live);
        let data_key = encode_record_key(timestamp, asset);
        self.store.put(data_key, price, ledgers_to_live, self.state.ledger_sequence);
        proof {
            assert forall|t: u64, a: u8| #![trigger price_key(t, a)]
                self.records().dom().contains(price_key(t, a) as u128) implies self.records()[price_key(
                t,
                a,
            ) as u128].value > 0 && self.records().dom().contains(yield_key(t, a) as u128) by {
                lemma_keys_in_range(t, a);
                lemma_keys_in_range(timestamp, asset);
                if price_key(t, a) == price_key(timestamp, asset) {
                } else {
                    assert(old(self).wf());
                    lemma_price_and_yield_keys_disjoint(t, a, timestamp, asset);
                }
            }
        }
        proof {
            lemma_keys_in_range(timestamp, asset);
            lemma_price_and_yield_keys_disjoint(timestamp, asset, timestamp, asset);
            assert forall|other: u8, moment: u64|
                other != asset || moment != timestamp implies #[trigger] self.price_at(
                other,
                moment,
            ) == old(self).price_at(other, moment) by {
                lemma_other_keys(moment, other, timestamp, asset);
            }
            assert forall|other: u8, moment: u64|
                other != asset || moment != timestamp implies #[trigger] self.yield_rate_at(
                other,
                moment,
            ) == old(self).yield_rate_at(other, moment) by {
                lemma_other_keys(moment, other, timestamp, asset);
            }
        }
        Ok(())
    }

    /// An update in the base currency, where it is accepted, stores the
    /// yield rate itself as the price.
    pub proof fn lemma_base_currency_update(
        &self,
        asset: u8,
        yield_rate: i128,
        timestamp: u64,
        reply: OracleReply,
    )
        requires
            self.update_outcome(asset, true, yield_rate, timestamp, reply) is Ok,
        ensures
            self.update_outcome(asset, true, yield_rate, timestamp, reply) == Ok::<i128, Error>(
                yield_rate,
            ),
    {
        lemma_base_currency_price_is_yield_rate(yield_rate, self.state().decimals);
    }

    /// The first update of an asset, and any update while there is no
    /// reference point, is judged by the floor alone: a yield rate of at
    /// least one passes whatever the configured deviation, and what remains
    /// to decide is the currency's rate and the composition.
    pub proof fn lemma_cold_start_update(
        &self,
        asset: u8,
        is_base: bool,
        yield_rate: i128,
        timestamp: u64,
        reply: OracleReply,
    )
        requires
            self.previous_yield_rate(asset) is None,
            yield_rate >= pow10(self.state().decimals as nat),
            pow10(self.state().decimals as nat) <= i128::MAX,
        ensures
            self.update_outcome(asset, is_base, yield_rate, timestamp, reply) == match fx_price_spec(
                is_base,
                reply,
                timestamp,
                self.state().decimals,
                self.state().resolution,
            ) {
                Err(error) => Err(error),
                Ok(fx_price) => price_with_yield(yield_rate, fx_price, self.state().decimals),
            },
    {
    }
}

impl PriceOracle {
    /// The number of fractional digits of every fixed-point value.
    pub fn get_decimals(&self) -> (decimals: u32)
        ensures
            decimals == self.state().decimals,
    {
        self.state.decimals
    }

    /// Sets the number of fractional digits.
    pub fn set_decimals(&mut self, decimals: u32)
        ensures
            final(self).records() == old(self).records(),
            final(self).fx_oracle() == old(self).fx_oracle(),
            final(self).state() == (GlobalState { decimals, ..old(self).state() }),
    {
        self.state.decimals = decimals;
    }

    /// The width of a time bucket, in milliseconds.
    pub fn get_resolution(&self) -> (resolution: u32)
        ensures
            resolution == self.state().resolution,
    {
        self.state.resolution
    }

    /// Sets the width of a time bucket, in milliseconds.
    pub fn set_resolution(&mut self, resolution: u32)
        ensures
            final(self).records() == old(self).records(),
            final(self).fx_oracle() == old(self).fx_oracle(),
            final(self).state() == (GlobalState { resolution, ..old(self).state() }),
    {
        self.state.resolution = resolution;
    }

    /// How long prices are kept, in milliseconds.
    pub fn get_retention_period(&self) -> (period: u64)
        ensures
            period == self.state().retention_period,
    {
        self.state.retention_period
    }

    /// Sets how long prices are kept, in milliseconds.
    pub fn set_retention_period(&mut self, period: u64)
        ensures
            final(self).records() == old(self).records(),
            final(self).fx_oracle() == old(self).fx_oracle(),
            final(self).state() == (GlobalState { retention_period: period, ..old(self).state() }),
    {
        self.state.retention_period = period;
    }

    /// The largest rise of a yield rate between two updates, in percent.
    pub fn get_max_yield_deviation(&self) -> (percent: u32)
        ensures
            percent == self.state().max_yield_deviation,
    {
        self.state.max_yield_deviation
    }

    /// Sets the largest rise of a yield rate between two updates, in
    /// percent.
    pub fn set_max_yield_deviation(&mut self, percent: u32)
        ensures
            final(self).records() == old(self).records(),
            final(self).fx_oracle() == old(self).fx_oracle(),
            final(self).state() == (GlobalState {
                max_yield_deviation: percent,
                ..old(self).state()
            }),
    {
        self.state.max_yield_deviation = percent;
    }

    /// Where the rates of currencies come from, if that is configured.
    pub fn get_fx_oracle_address(&self) -> (address: Option<Address>)
        ensures
            address == self.fx_oracle(),
    {
        match &self.fx_oracle {
            Some(address) => Some(address.clone()),
            None => None,
        }
    }

    /// Configures where the rates of currencies come from.
    pub fn set_fx_oracle_address(&mut self, address: &Address)
        ensures
            final(self).records() == old(self).records(),
            final(self).state() == old(self).state(),
            final(self).fx_oracle() == Some(*address),
    {
        self.fx_oracle = Some(address.clone());
    }

    /// Leaves the oracle without a source of currency rates.
    pub fn clear_fx_oracle_address(&mut self)
        ensures
            final(self).records() == old(self).records(),
            final(self).state() == old(self).state(),
            final(self).fx_oracle() is None,
    {
        self.fx_oracle = None;
    }

    /// The timestamp of the last accepted update, in milliseconds; zero
    /// before the first.
    pub fn get_last_timestamp(&self) -> (timestamp: u64)
        ensures
            timestamp == self.state().last_timestamp,
    {
        self.state.last_timestamp
    }

    /// Marks `timestamp` as that of the last accepted update.
    pub fn set_last_timestamp(&mut self, timestamp: u64)
        ensures
            final(self).records() == old(self).records(),
            final(self).fx_oracle() == old(self).fx_oracle(),
            final(self).state() == (GlobalState { last_timestamp: timestamp, ..old(self).state() }),
    {
        self.state.last_timestamp = timestamp;
    }
}

} // verus!

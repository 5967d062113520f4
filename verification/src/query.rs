use crate::average::{previous_period, previous_period_spec, Averager};
use crate::error::Error;
use crate::fixed_point::{lemma_quotient_bounds, pow10, scaled_floor_div, scaled_floor_div_spec};
use crate::key::price_key;
use crate::oracle::{joined, PriceOracle};
use crate::types::PriceData;
use vstd::prelude::*;

verus! {

/// What a query for the value of an asset at `timestamp` answers.
pub open spec fn answer(value: Option<Option<i128>>, timestamp: u64) -> Result<
    Option<PriceData>,
    Error,
> {
    match value {
        None => Ok(None),
        Some(None) => Err(Error::IntegerOverflow),
        Some(Some(price)) => Ok(Some(PriceData { price, timestamp })),
    }
}

impl PriceOracle {
    /// The price of `asset` at exactly `timestamp`, with that timestamp, or
    /// nothing where none is stored or it has expired.
    pub fn price(&self, asset: u8, timestamp: u64) -> (data: Option<PriceData>)
        ensures
            data == match self.price_at(asset, timestamp) {
                Some(price) => Some(PriceData { price, timestamp }),
                None => None,
            },
    {
        match self.get_price(asset, timestamp) {
            Some(price) => Some(PriceData { price, timestamp }),
            None => None,
        }
    }

    /// The price of `asset` at the reference point, or nothing where there
    /// is no reference point or no price at it.
    pub fn lastprice(&self, asset: u8) -> (data: Option<PriceData>)
        ensures
            data == if self.reference() == 0 {
                None
            } else {
                match self.price_at(asset, self.reference()) {
                    Some(price) => Some(PriceData { price, timestamp: self.reference() }),
                    None => None,
                }
            },
    {
        let timestamp = self.obtain_record_timestamp();
        if timestamp == 0 {
            return None;
        }
        self.price(asset, timestamp)
    }

    /// What `asset` is worth at exactly `timestamp`, in the base currency
    /// or, with a quote asset, in units of that asset.
    pub fn value(&self, asset: u8, quote: Option<u8>, timestamp: u64) -> (value: Option<
        Option<i128>,
    >)
        ensures
            value == self.value_at(asset, quote, timestamp),
    {
        let price = match self.get_price(asset, timestamp) {
            Some(price) => price,
            None => {
                return None;
            },
        };
        match quote {
            None => Some(Some(price)),
            Some(quote) => match self.get_price(quote, timestamp) {
                Some(quote_price) => Some(scaled_floor_div(price, quote_price, self.get_decimals())),
                None => None,
            },
        }
    }

    /// The price of `asset` in units of `quote` at exactly `timestamp`:
    /// nothing where either price is missing, an overflow where the scaled
    /// quotient cannot be computed in 128 bits.
    pub fn x_price(&self, asset: u8, quote: u8, timestamp: u64) -> (data: Result<
        Option<PriceData>,
        Error,
    >)
        ensures
            data == answer(self.value_at(asset, Some(quote), timestamp), timestamp),
    {
        match self.value(asset, Some(quote), timestamp) {
            None => Ok(None),
            Some(None) => Err(Error::IntegerOverflow),
            Some(Some(price)) => Ok(Some(PriceData { price, timestamp })),
        }
    }

    /// The price of `asset` in units of `quote` at the reference point, or
    /// nothing where there is no reference point.
    pub fn x_last_price(&self, asset: u8, quote: u8) -> (data: Result<Option<PriceData>, Error>)
        ensures
            data == if self.reference() == 0 {
                Ok(None)
            } else {
                answer(self.value_at(asset, Some(quote), self.reference()), self.reference())
            },
    {
        let timestamp = self.obtain_record_timestamp();
        if timestamp == 0 {
            return Ok(None);
        }
        self.x_price(asset, quote, timestamp)
    }

    /// No value of a well-formed oracle is negative.
    pub proof fn lemma_value_not_negative(&self, asset: u8, quote: Option<u8>, timestamp: u64)
        requires
            self.wf(),
        ensures
            match self.value_at(asset, quote, timestamp) {
                Some(Some(value)) => value >= 0,
                _ => true,
            },
    {
        crate::key::lemma_keys_in_range(timestamp, asset);
        assert(self.price_at(asset, timestamp) is Some ==> self.records().dom().contains(
            price_key(timestamp, asset) as u128,
        ));
        match (quote, self.value_at(asset, quote, timestamp)) {
            (Some(q), Some(Some(value))) => {
                let a = self.price_at(asset, timestamp)->Some_0;
                let b = self.price_at(q, timestamp)->Some_0;
                let d = self.state().decimals;
                assert(scaled_floor_div_spec(a, b, d) == Some(value));
                let scaled: int = a * pow10(d as nat);
                assert(scaled >= 0) by (nonlinear_arith)
                    requires
                        scaled == a * pow10(d as nat),
                        a >= 0,
                ;
                lemma_quotient_bounds(scaled, b as int);
            },
            _ => {},
        }
    }

    /// Between two assets that both have a price, the cross rate of a
    /// well-formed oracle can fail for one reason only: the scale, or the
    /// scaled price, leaves 128 bits. The divisor is never zero.
    pub proof fn lemma_cross_rate_fails_only_on_overflow(&self, asset: u8, quote: u8, timestamp: u64)
        requires
            self.wf(),
            self.price_at(asset, timestamp) is Some,
            self.price_at(quote, timestamp) is Some,
        ensures
            self.price_at(quote, timestamp)->Some_0 > 0,
            self.value_at(asset, Some(quote), timestamp) is Some,
            self.value_at(asset, Some(quote), timestamp) == Some(None::<i128>) <==> (pow10(
                self.state().decimals as nat,
            ) > i128::MAX || self.price_at(asset, timestamp)->Some_0 * pow10(
                self.state().decimals as nat,
            ) > i128::MAX),
    {
        crate::key::lemma_keys_in_range(timestamp, asset);
        crate::key::lemma_keys_in_range(timestamp, quote);
        assert(self.records().dom().contains(price_key(timestamp, asset) as u128));
        assert(self.records().dom().contains(price_key(timestamp, quote) as u128));
    }

    /// Over two periods the average is the floor of half the sum of the two
    /// values, and there is none as soon as one of the two is missing.
    pub proof fn lemma_two_period_average(&self, asset: u8, quote: Option<u8>)
        requires
            self.reference() != 0,
        ensures
            match (
                self.value_at(asset, quote, self.reference()),
                previous_period_spec(self.reference(), self.state().resolution),
            ) {
                (Some(Some(latest)), Some(before)) => match self.value_at(asset, quote, before) {
                    Some(Some(earlier)) => self.average(asset, quote, 2) == if latest + earlier
                        > i128::MAX {
                        Err::<Option<i128>, Error>(Error::IntegerOverflow)
                    } else {
                        Ok::<Option<i128>, Error>(Some(((latest + earlier) / 2) as i128))
                    },
                    Some(None) => self.average(asset, quote, 2) == Err::<Option<i128>, Error>(
                        Error::IntegerOverflow,
                    ),
                    None => self.average(asset, quote, 2) == Ok::<Option<i128>, Error>(None),
                },
                (Some(None), Some(before)) => match self.value_at(asset, quote, before) {
                    Some(_) => self.average(asset, quote, 2) == Err::<Option<i128>, Error>(
                        Error::IntegerOverflow,
                    ),
                    None => self.average(asset, quote, 2) == Ok::<Option<i128>, Error>(None),
                },
                _ => self.average(asset, quote, 2) == Ok::<Option<i128>, Error>(None),
            },
    {
        reveal_with_fuel(PriceOracle::period_total, 3);
    }

    /// The average of the values of `asset` over `records` consecutive
    /// periods that end at the reference point; with a quote asset, of its
    /// values in units of that asset.
    pub fn mean(&self, asset: u8, quote: Option<u8>, records: u32) -> (mean: Result<
        Option<i128>,
        Error,
    >)
        requires
            self.wf(),
        ensures
            mean == self.average(asset, quote, records),
    {
        let latest = self.obtain_record_timestamp();
        if records == 0 || latest == 0 {
            return Ok(None);
        }
        let resolution = self.get_resolution();
        let mut done: u32 = 0;
        let mut period: Option<u64> = Some(latest);
        let mut averager = Averager::new();
        let ghost mut moment: int = latest as int;
        while done < records
            invariant
                self.wf(),
                averager.wf(),
                averager.count() == done,
                done <= records,
                records != 0,
                latest != 0,
                latest == self.reference(),
                resolution == self.state().resolution,
                period is None ==> moment < 0,
                period is Some ==> moment == period->Some_0,
                self.period_total(asset, quote, latest as int, records as nat) == match self.period_total(
                    asset,
                    quote,
                    moment,
                    (records - done) as nat,
                ) {
                    None => None,
                    Some(rest) => match (averager.total(), rest) {
                        (Some(total), Some(rest)) => Some(Some(total + rest)),
                        _ => Some(None),
                    },
                },
            decreases records - done,
        {
            let timestamp = match period {
                Some(timestamp) => timestamp,
                None => {
                    return Ok(None);
                },
            };
            let value = match self.value(asset, quote, timestamp) {
                Some(value) => value,
                None => {
                    return Ok(None);
                },
            };
            proof {
                self.lemma_value_not_negative(asset, quote, timestamp);
                let rest = self.period_total(
                    asset,
                    quote,
                    moment - resolution,
                    (records - done - 1) as nat,
                );
                assert(self.period_total(asset, quote, moment, (records - done) as nat) == joined(
                    value,
                    rest,
                ));
            }
            averager.add(value);
            period = previous_period(timestamp, resolution);
            proof {
                moment = moment - resolution;
            }
            done = done + 1;
        }
        averager.mean()
    }

    /// The time-weighted average price of `asset` over `records`
    /// consecutive periods that end at the reference point: the mean of the
    /// prices, rounded down, and nothing where any period has no price.
    pub fn twap(&self, asset: u8, records: u32) -> (mean: Result<Option<i128>, Error>)
        requires
            self.wf(),
        ensures
            mean == self.average(asset, None, records),
    {
        self.mean(asset, None, records)
    }

    /// The time-weighted average of the price of `asset` in units of
    /// `quote` over `records` consecutive periods that end at the reference
    /// point, and nothing where any period lacks either price.
    pub fn x_twap(&self, asset: u8, quote: u8, records: u32) -> (mean: Result<Option<i128>, Error>)
        requires
            self.wf(),
        ensures
            mean == self.average(asset, Some(quote), records),
    {
        self.mean(asset, Some(quote), records)
    }
}

} // verus!

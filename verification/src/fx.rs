use crate::error::Error;
use crate::fixed_point::{checked_pow10, checked_pow10_spec};
use crate::types::{is_base_currency_name, PriceData, Symbol};
use vstd::prelude::*;

verus! {

/// What came back from asking the currency feed for its last price of a
/// symbol.
#[derive(Copy, Clone, Debug, PartialEq, Eq, Structural)]
pub enum OracleReply {
    /// No feed is configured, so nothing could be asked.
    Unavailable,
    /// The feed has no price for the symbol.
    NoPrice,
    /// The feed's last price, with its timestamp in seconds.
    Price(PriceData),
}

/// A feed's last price as a reply: a price, or the notice that there is
/// none.
pub open spec fn as_reply_spec(data: Option<PriceData>) -> OracleReply {
    match data {
        Some(data) => OracleReply::Price(data),
        None => OracleReply::NoPrice,
    }
}

/// Turns a feed's last price into a reply.
#[verifier::when_used_as_spec(as_reply_spec)]
pub fn as_reply(data: Option<PriceData>) -> (reply: OracleReply)
    ensures
        reply == as_reply_spec(data),
{
    match data {
        Some(data) => OracleReply::Price(data),
        None => OracleReply::NoPrice,
    }
}

/// The number of milliseconds in a second.
pub const MILLIS_PER_SECOND: u64 = 1000;

/// The distance between two moments.
pub open spec fn distance(a: int, b: int) -> int {
    if a >= b {
        a - b
    } else {
        b - a
    }
}

/// The rate of a currency that is not the base currency, from the feed's
/// reply, for an update at `target_timestamp` (milliseconds).
///
/// The reply must carry a price with a timestamp other than zero; its
/// timestamp, brought to milliseconds, must fit in 64 bits and lie within two
/// resolution windows of the target; and the price must be positive.
pub open spec fn feed_rate(reply: OracleReply, target_timestamp: u64, resolution: u32) -> Result<
    i128,
    Error,
> {
    match reply {
        OracleReply::Unavailable => Err(Error::FxOracleUnavailable),
        OracleReply::NoPrice => Err(Error::StaleFxPrice),
        OracleReply::Price(data) => {
            if data.timestamp == 0 {
                Err(Error::StaleFxPrice)
            } else if data.timestamp * MILLIS_PER_SECOND > u64::MAX {
                Err(Error::IntegerOverflow)
            } else if distance(data.timestamp * MILLIS_PER_SECOND, target_timestamp as int) > 2
                * resolution {
                Err(Error::FxOracleTimestampDrift)
            } else if data.price <= 0 {
                Err(Error::InvalidFxPrice)
            } else {
                Ok(data.price)
            }
        },
    }
}

/// The rate of a currency in the base currency: one for the base currency
/// itself, the feed's rate for any other.
pub open spec fn fx_price_spec(
    is_base: bool,
    reply: OracleReply,
    target_timestamp: u64,
    decimals: u32,
    resolution: u32,
) -> Result<i128, Error> {
    if is_base {
        match checked_pow10_spec(decimals) {
            Some(one) => Ok(one),
            None => Err(Error::IntegerOverflow),
        }
    } else {
        feed_rate(reply, target_timestamp, resolution)
    }
}

/// Checks the feed's reply for an update at `target_timestamp` and gives the
/// rate it carries.
pub fn check_feed_reply(reply: OracleReply, target_timestamp: u64, resolution: u32) -> (rate:
    Result<i128, Error>)
    ensures
        rate == feed_rate(reply, target_timestamp, resolution),
{
    let data = match reply {
        OracleReply::Unavailable => {
            return Err(Error::FxOracleUnavailable);
        },
        OracleReply::NoPrice => {
            return Err(Error::StaleFxPrice);
        },
        OracleReply::Price(data) => data,
    };
    if data.timestamp == 0 {
        return Err(Error::StaleFxPrice);
    }
    let oracle_timestamp = match data.timestamp.checked_mul(MILLIS_PER_SECOND) {
        Some(millis) => millis,
        None => {
            return Err(Error::IntegerOverflow);
        },
    };
    let max_drift: u64 = 2 * (resolution as u64);
    let drift: u64 = if oracle_timestamp >= target_timestamp {
        oracle_timestamp - target_timestamp
    } else {
        target_timestamp - oracle_timestamp
    };
    if drift > max_drift {
        return Err(Error::FxOracleTimestampDrift);
    }
    if data.price <= 0 {
        return Err(Error::InvalidFxPrice);
    }
    Ok(data.price)
}

/// Resolves the rate of a currency in the base currency for an update at
/// `target_timestamp`, for a caller that has already told the base currency
/// from the others. The base currency needs no reply: its rate is
/// `10^decimals`.
pub fn resolve_fx_price(
    is_base: bool,
    reply: OracleReply,
    target_timestamp: u64,
    decimals: u32,
    resolution: u32,
) -> (rate: Result<i128, Error>)
    ensures
        rate == fx_price_spec(is_base, reply, target_timestamp, decimals, resolution),
{
    if is_base {
        return match checked_pow10(decimals) {
            Some(one) => Ok(one),
            None => Err(Error::IntegerOverflow),
        };
    }
    check_feed_reply(reply, target_timestamp, resolution)
}

/// Resolves the rate of `fx` in the base currency for an update at
/// `target_timestamp`.
pub fn get_fx_price(
    fx: &Symbol,
    reply: OracleReply,
    target_timestamp: u64,
    decimals: u32,
    resolution: u32,
) -> (rate: Result<i128, Error>)
    ensures
        rate == fx_price_spec(
            is_base_currency_name(fx@),
            reply,
            target_timestamp,
            decimals,
            resolution,
        ),
{
    resolve_fx_price(fx.is_base_currency(), reply, target_timestamp, decimals, resolution)
}

/// A reply whose clock is exactly two resolution windows from the target is
/// not refused for drift, and one a single millisecond further is.
pub proof fn lemma_drift_bound_is_sharp(data: PriceData, target_timestamp: u64, resolution: u32)
    requires
        data.timestamp != 0,
        data.timestamp * MILLIS_PER_SECOND <= u64::MAX,
        data.price > 0,
    ensures
        distance(data.timestamp * MILLIS_PER_SECOND, target_timestamp as int) == 2 * resolution
            ==> feed_rate(OracleReply::Price(data), target_timestamp, resolution) == Ok::<
            i128,
            Error,
        >(data.price),
        distance(data.timestamp * MILLIS_PER_SECOND, target_timestamp as int) == 2 * resolution
            + 1 ==> feed_rate(OracleReply::Price(data), target_timestamp, resolution) == Err::<
            i128,
            Error,
        >(Error::FxOracleTimestampDrift),
{
}

} // verus!

use crate::error::Error;
use crate::fixed_point::{checked_pow10, lemma_quotient_bounds, pow10};
use vstd::prelude::*;

verus! {

/// The largest drop of a yield rate between two updates, in percent.
pub const MAX_YIELD_DROP_PERCENT: i128 = 1;

/// The verdict on a new yield rate, given the last accepted one if there is
/// any.
///
/// A rate below `10^decimals` is invalid. The first rate of an asset is
/// accepted as it is. A later one may fall by at most one percent and rise
/// by at most `max_deviation_percent` percent of the previous rate, both
/// percentages rounded down. An intermediate value beyond 128 bits, or a
/// previous rate of zero, is an overflow.
pub open spec fn yield_rate_verdict(
    yield_rate: i128,
    previous: Option<i128>,
    decimals: u32,
    max_deviation_percent: u32,
) -> Result<(), Error> {
    if pow10(decimals as nat) > i128::MAX {
        Err(Error::IntegerOverflow)
    } else if yield_rate < pow10(decimals as nat) {
        Err(Error::InvalidYieldRate)
    } else {
        match previous {
            None => Ok(()),
            Some(prev) => {
                if yield_rate < prev {
                    if (prev - yield_rate) * 100 > i128::MAX {
                        Err(Error::IntegerOverflow)
                    } else if ((prev - yield_rate) * 100) / (prev as int)
                        > MAX_YIELD_DROP_PERCENT {
                        Err(Error::YieldRateDecreased)
                    } else {
                        Ok(())
                    }
                } else {
                    if (yield_rate - prev) * 100 > i128::MAX || prev == 0 {
                        Err(Error::IntegerOverflow)
                    } else if prev > 0 && ((yield_rate - prev) * 100) / (prev as int)
                        > max_deviation_percent {
                        Err(Error::YieldRateDeviationExceeded)
                    } else {
                        Ok(())
                    }
                }
            },
        }
    }
}

/// Judges a new yield rate against the last accepted one.
pub fn validate_yield_rate(
    yield_rate: i128,
    previous: Option<i128>,
    decimals: u32,
    max_deviation_percent: u32,
) -> (verdict: Result<(), Error>)
    ensures
        verdict == yield_rate_verdict(yield_rate, previous, decimals, max_deviation_percent),
{
    let min_yield_rate = match checked_pow10(decimals) {
        Some(scale) => scale,
        None => {
            return Err(Error::IntegerOverflow);
        },
    };
    if yield_rate < min_yield_rate {
        return Err(Error::InvalidYieldRate);
    }
    let prev = match previous {
        Some(prev) => prev,
        None => {
            return Ok(());
        },
    };
    proof {
        crate::fixed_point::lemma_pow10_monotonic(0, decimals as nat);
    }
    if yield_rate < prev {
        let drop = match prev.checked_sub(yield_rate) {
            Some(drop) => drop,
            None => {
                return Err(Error::IntegerOverflow);
            },
        };
        let drop_times_100 = match drop.checked_mul(100) {
            Some(scaled) => scaled,
            None => {
                return Err(Error::IntegerOverflow);
            },
        };
        proof {
            lemma_quotient_bounds(drop_times_100 as int, prev as int);
        }
        let percentage_drop = match drop_times_100.checked_div(prev) {
            Some(percent) => percent,
            None => {
                return Err(Error::IntegerOverflow);
            },
        };
        if percentage_drop > MAX_YIELD_DROP_PERCENT {
            return Err(Error::YieldRateDecreased);
        }
        return Ok(());
    }
    let change = match yield_rate.checked_sub(prev) {
        Some(change) => change,
        None => {
            return Err(Error::IntegerOverflow);
        },
    };
    let change_times_100 = match change.checked_mul(100) {
        Some(scaled) => scaled,
        None => {
            return Err(Error::IntegerOverflow);
        },
    };
    if prev <= 0 {
        // A rise measured against a rate that is not positive has no
        // percentage above zero; against zero it has none at all.
        return if prev == 0 {
            Err(Error::IntegerOverflow)
        } else {
            Ok(())
        };
    }
    proof {
        lemma_quotient_bounds(change_times_100 as int, prev as int);
    }
    let percentage_change = match change_times_100.checked_div(prev) {
        Some(percent) => percent,
        None => {
            return Err(Error::IntegerOverflow);
        },
    };
    if percentage_change > max_deviation_percent as i128 {
        return Err(Error::YieldRateDeviationExceeded);
    }
    Ok(())
}

/// A rate that is at least the previous one is accepted exactly when its
/// rise, in whole percent of the previous rate, is within the configured
/// deviation.
pub proof fn lemma_rise_accepted_iff_within_deviation(
    prev: i128,
    next: i128,
    decimals: u32,
    max_deviation_percent: u32,
)
    requires
        pow10(decimals as nat) <= prev <= next,
        (next - prev) * 100 <= i128::MAX,
    ensures
        yield_rate_verdict(next, Some(prev), decimals, max_deviation_percent) is Ok <==> ((next
            - prev) * 100) / (prev as int) <= max_deviation_percent,
        yield_rate_verdict(next, Some(prev), decimals, max_deviation_percent) is Err
            ==> yield_rate_verdict(next, Some(prev), decimals, max_deviation_percent) == Err::<
            (),
            Error,
        >(Error::YieldRateDeviationExceeded),
{
    crate::fixed_point::lemma_pow10_monotonic(0, decimals as nat);
}

/// A rate below the previous one is accepted exactly when its drop, in whole
/// percent of the previous rate, is at most one.
pub proof fn lemma_drop_accepted_iff_within_one_percent(
    prev: i128,
    next: i128,
    decimals: u32,
    max_deviation_percent: u32,
)
    requires
        pow10(decimals as nat) <= next < prev,
        (prev - next) * 100 <= i128::MAX,
    ensures
        yield_rate_verdict(next, Some(prev), decimals, max_deviation_percent) is Ok <==> ((prev
            - next) * 100) / (prev as int) <= 1,
        yield_rate_verdict(next, Some(prev), decimals, max_deviation_percent) is Err
            ==> yield_rate_verdict(next, Some(prev), decimals, max_deviation_percent) == Err::<
            (),
            Error,
        >(Error::YieldRateDecreased),
{
}

/// The first rate of an asset is accepted whenever it is at least one,
/// whatever the configured deviation.
pub proof fn lemma_first_rate_accepted(yield_rate: i128, decimals: u32, max_deviation_percent: u32)
    requires
        yield_rate >= pow10(decimals as nat),
    ensures
        yield_rate_verdict(yield_rate, None, decimals, max_deviation_percent) is Ok,
{
}

} // verus!

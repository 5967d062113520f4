use crate::error::Error;
use crate::fixed_point::lemma_quotient_bounds;
use vstd::prelude::*;

verus! {

/// A running total after one more value: the sum, or nothing once a value
/// could not be computed.
pub open spec fn added(total: Option<int>, value: Option<i128>) -> Option<int> {
    match (total, value) {
        (Some(total), Some(value)) => Some(total + value),
        _ => None,
    }
}

/// The mean of `count` values with the given total, rounded down: nothing
/// for no values, an overflow where a value could not be computed or the
/// total leaves 128 bits.
pub open spec fn mean_of(total: Option<int>, count: nat) -> Result<Option<i128>, Error> {
    if count == 0 {
        Ok(None)
    } else {
        match total {
            None => Err(Error::IntegerOverflow),
            Some(total) => if total > i128::MAX {
                Err(Error::IntegerOverflow)
            } else {
                Ok(Some((total / (count as int)) as i128))
            },
        }
    }
}

/// The period before the one at `timestamp`, one resolution window
/// earlier, if there is one at or after time zero.
pub open spec fn previous_period_spec(timestamp: u64, resolution: u32) -> Option<u64> {
    if timestamp >= resolution {
        Some((timestamp - resolution) as u64)
    } else {
        None
    }
}

/// Steps from the period at `timestamp` to the one before it.
pub fn previous_period(timestamp: u64, resolution: u32) -> (earlier: Option<u64>)
    ensures
        earlier == previous_period_spec(timestamp, resolution),
{
    if timestamp >= resolution as u64 {
        Some(timestamp - resolution as u64)
    } else {
        None
    }
}

/// The average of values that come in one by one. It keeps their exact
/// total in mind, so that an overflow on the way is told from a total that
/// fits.
pub struct Averager {
    sum: i128,
    failed: bool,
    count: u32,
    exact: Ghost<Option<int>>,
}

impl Averager {
    /// The exact total of the values so far, or nothing once one of them
    /// could not be computed.
    pub closed spec fn total(&self) -> Option<int> {
        self.exact@
    }

    /// The number of values so far.
    pub closed spec fn count(&self) -> nat {
        self.count as nat
    }

    /// What is stored agrees with the exact total, and no total is negative.
    pub closed spec fn wf(&self) -> bool {
        &&& self.exact@ is Some ==> self.exact@->Some_0 >= 0
        &&& !self.failed ==> self.exact@ == Some(self.sum as int)
        &&& self.failed ==> (self.exact@ is None || self.exact@->Some_0 > i128::MAX)
    }

    /// An average of no values.
    pub fn new() -> (averager: Averager)
        ensures
            averager.wf(),
            averager.total() == Some(0int),
            averager.count() == 0,
    {
        Averager { sum: 0, failed: false, count: 0, exact: Ghost(Some(0int)) }
    }

    /// Takes in one more value, or with `None` the notice that it could not
    /// be computed.
    pub fn add(&mut self, value: Option<i128>)
        requires
            old(self).wf(),
            old(self).count() < u32::MAX,
            value is Some ==> value->Some_0 >= 0,
        ensures
            final(self).wf(),
            final(self).count() == old(self).count() + 1,
            final(self).total() == added(old(self).total(), value),
    {
        match value {
            Some(value) => {
                if !self.failed {
                    match self.sum.checked_add(value) {
                        Some(sum) => {
                            self.sum = sum;
                        },
                        None => {
                            self.failed = true;
                        },
                    }
                }
            },
            None => {
                self.failed = true;
            },
        }
        self.count = self.count + 1;
        proof {
            self.exact@ = added(self.exact@, value);
        }
    }

    /// The mean of the values so far, rounded down.
    pub fn mean(&self) -> (mean: Result<Option<i128>, Error>)
        requires
            self.wf(),
        ensures
            mean == mean_of(self.total(), self.count()),
    {
        if self.count == 0 {
            return Ok(None);
        }
        if self.failed {
            return Err(Error::IntegerOverflow);
        }
        proof {
            lemma_quotient_bounds(self.sum as int, self.count as int);
        }
        Ok(Some(self.sum / (self.count as i128)))
    }
}

} // verus!

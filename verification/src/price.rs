use crate::error::Error;
use crate::fixed_point::{
    checked_pow10,
    lemma_pow10_monotonic,
    lemma_pow10_of_14,
    pow10,
    truncating_div,
};
use vstd::prelude::*;

verus! {

/// The number of fractional digits that yield rates are quoted with.
pub const DECIMALS: u32 = 14;

/// The price of an asset: its currency's rate times its yield rate, brought
/// back to `decimals` fractional digits and rounded down.
pub open spec fn price_with_yield(yield_rate: i128, fx_price: i128, decimals: u32) -> Result<
    i128,
    Error,
> {
    if fx_price * yield_rate > i128::MAX || fx_price * yield_rate < i128::MIN {
        Err(Error::IntegerOverflow)
    } else if pow10(decimals as nat) > i128::MAX {
        Err(Error::IntegerOverflow)
    } else {
        Ok(((fx_price * yield_rate) / (pow10(decimals as nat) as int)) as i128)
    }
}

/// Composes the price of an asset from its yield rate and its currency's
/// rate: `floor(fx_price * yield_rate / 10^decimals)`.
pub fn get_price_with_yield(yield_rate: i128, fx_price: i128, decimals: u32) -> (price: Result<
    i128,
    Error,
>)
    ensures
        price == price_with_yield(yield_rate, fx_price, decimals),
{
    let intermediate = match fx_price.checked_mul(yield_rate) {
        Some(product) => product,
        None => {
            return Err(Error::IntegerOverflow);
        },
    };
    let divisor = match checked_pow10(decimals) {
        Some(scale) => scale,
        None => {
            return Err(Error::IntegerOverflow);
        },
    };
    proof {
        lemma_pow10_monotonic(0, decimals as nat);
        lemma_floor_quotient_in_range(intermediate as int, divisor as int);
    }
    match intermediate.checked_div_euclid(divisor) {
        Some(price) => Ok(price),
        None => Err(Error::IntegerOverflow),
    }
}

/// Dividing by a positive number brings no value further from zero than one
/// step below it.
pub proof fn lemma_floor_quotient_in_range(a: int, b: int)
    requires
        b >= 1,
    ensures
        a >= 0 ==> 0 <= a / b <= a,
        a < 0 ==> a <= a / b < 0,
{
    assert((a >= 0 ==> 0 <= a / b <= a) && (a < 0 ==> a <= a / b < 0)) by (nonlinear_arith)
        requires
            b >= 1,
    ;
}

/// With the base currency, whose rate is `10^decimals`, the price of an
/// asset is its yield rate.
pub proof fn lemma_base_currency_price_is_yield_rate(yield_rate: i128, decimals: u32)
    requires
        pow10(decimals as nat) <= i128::MAX,
        i128::MIN <= pow10(decimals as nat) * yield_rate <= i128::MAX,
    ensures
        price_with_yield(yield_rate, pow10(decimals as nat) as i128, decimals) == Ok::<
            i128,
            Error,
        >(yield_rate),
{
    lemma_pow10_monotonic(0, decimals as nat);
    let scale = pow10(decimals as nat) as int;
    assert((scale * yield_rate) / scale == yield_rate) by (nonlinear_arith)
        requires
            scale >= 1,
    ;
}

/// A positive rate and a yield rate of at least one give a positive price,
/// no smaller than the rate.
pub proof fn lemma_price_is_positive(yield_rate: i128, fx_price: i128, decimals: u32)
    requires
        fx_price > 0,
        yield_rate >= pow10(decimals as nat),
        price_with_yield(yield_rate, fx_price, decimals) is Ok,
    ensures
        price_with_yield(yield_rate, fx_price, decimals)->Ok_0 >= fx_price,
{
    lemma_pow10_monotonic(0, decimals as nat);
    let scale = pow10(decimals as nat) as int;
    assert((fx_price * yield_rate) / scale >= fx_price) by (nonlinear_arith)
        requires
            scale >= 1,
            fx_price > 0,
            yield_rate >= scale,
    ;
}

/// Turns a moment in milliseconds into whole seconds.
pub fn convert_to_seconds(timestamp: u64) -> (seconds: u64)
    ensures
        seconds == timestamp / 1000,
{
    timestamp / 1000
}

/// Writes a whole number as a fixed-point value with `DECIMALS` fractional
/// digits.
pub fn normalize_price(price: i128) -> (scaled: i128)
    requires
        i128::MIN <= price * pow10(DECIMALS as nat) <= i128::MAX,
    ensures
        scaled == price * pow10(DECIMALS as nat),
{
    proof {
        lemma_pow10_of_14();
    }
    price * 100_000_000_000_000i128
}

/// The price a yield rate and a rate compose to, for operands whose product
/// and scale fit in 128 bits; the quotient is rounded toward zero.
pub fn calculate_expected_price(yield_rate: i128, fx_price: i128, decimals: u32) -> (price: i128)
    requires
        i128::MIN <= yield_rate * fx_price <= i128::MAX,
        pow10(decimals as nat) <= i128::MAX,
    ensures
        price == truncating_div(yield_rate * fx_price, pow10(decimals as nat) as int),
{
    let product = yield_rate * fx_price;
    let scale = checked_pow10(decimals).unwrap();
    proof {
        lemma_pow10_monotonic(0, decimals as nat);
    }
    product / scale
}

} // verus!

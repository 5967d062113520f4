use vstd::prelude::*;

verus! {

/// Ten to the power `n`.
pub open spec fn pow10(n: nat) -> nat
    decreases n,
{
    if n == 0 {
        1
    } else {
        10 * pow10((n - 1) as nat)
    }
}

/// A larger exponent never gives a smaller power of ten.
pub proof fn lemma_pow10_monotonic(a: nat, b: nat)
    requires
        a <= b,
    ensures
        1 <= pow10(a) <= pow10(b),
    decreases b,
{
    if a < b {
        lemma_pow10_monotonic(a, (b - 1) as nat);
    } else if a > 0 {
        lemma_pow10_monotonic((a - 1) as nat, (a - 1) as nat);
    }
}

/// `10^14`, written out.
pub proof fn lemma_pow10_of_14()
    ensures
        pow10(14) == 100_000_000_000_000,
{
    reveal_with_fuel(pow10, 15);
}

/// `10^38`, written out: the largest power of ten below `2^127`.
pub proof fn lemma_pow10_of_38()
    ensures
        pow10(38) == 100_000_000_000_000_000_000_000_000_000_000_000_000,
{
    lemma_pow10_of_14();
    assert(pow10(24) == 1_000_000_000_000_000_000_000_000) by {
        reveal_with_fuel(pow10, 11);
    }
    assert(pow10(38) == 100_000_000_000_000_000_000_000_000_000_000_000_000) by {
        assert(pow10(34) == 10_000_000_000 * pow10(24)) by {
            reveal_with_fuel(pow10, 11);
        }
        assert(pow10(38) == 10_000 * pow10(34)) by {
            reveal_with_fuel(pow10, 5);
        }
    }
}

/// A power of ten fits in a signed 128-bit integer exactly up to `10^38`.
pub proof fn lemma_pow10_fits(decimals: nat)
    ensures
        pow10(decimals) <= i128::MAX <==> decimals <= 38,
{
    lemma_pow10_of_38();
    if decimals <= 38 {
        lemma_pow10_monotonic(decimals, 38);
    } else {
        assert(pow10(39) == 10 * pow10(38));
        lemma_pow10_monotonic(39, decimals);
    }
}

/// The quotient of `a` by a positive `b`, rounded toward zero.
pub open spec fn truncating_div(a: int, b: int) -> int {
    if a >= 0 {
        a / b
    } else {
        -((-a) / b)
    }
}

/// The scale factor for `decimals` fractional digits, where a signed
/// 128-bit integer can hold it.
pub open spec fn checked_pow10_spec(decimals: u32) -> Option<i128> {
    if pow10(decimals as nat) <= i128::MAX {
        Some(pow10(decimals as nat) as i128)
    } else {
        None
    }
}

/// Computes `10^decimals`, or `None` where that leaves the range of `i128`.
pub fn checked_pow10(decimals: u32) -> (scale: Option<i128>)
    ensures
        scale == checked_pow10_spec(decimals),
{
    let mut acc: i128 = 1;
    let mut i: u32 = 0;
    while i < decimals
        invariant
            i <= decimals,
            acc == pow10(i as nat),
        decreases decimals - i,
    {
        match acc.checked_mul(10) {
            Some(next) => {
                acc = next;
            },
            None => {
                proof {
                    lemma_pow10_monotonic((i + 1) as nat, decimals as nat);
                }
                return None;
            },
        }
        i = i + 1;
    }
    Some(acc)
}

/// `floor(numerator * 10^decimals / denominator)`, where the operands are
/// admissible and nothing overflows.
pub open spec fn scaled_floor_div_spec(numerator: i128, denominator: i128, decimals: u32) -> Option<
    i128,
> {
    if numerator < 0 || denominator <= 0 {
        None
    } else if pow10(decimals as nat) > i128::MAX {
        None
    } else if numerator * pow10(decimals as nat) > i128::MAX {
        None
    } else {
        Some(((numerator * pow10(decimals as nat)) / (denominator as int)) as i128)
    }
}

/// Divides `numerator` by `denominator` after scaling the numerator by
/// `10^decimals`, rounding down. Gives `None` for a negative numerator, a
/// denominator that is not positive, or a scale or product beyond `i128`.
pub fn scaled_floor_div(numerator: i128, denominator: i128, decimals: u32) -> (quotient: Option<
    i128,
>)
    ensures
        quotient == scaled_floor_div_spec(numerator, denominator, decimals),
{
    if numerator < 0 || denominator <= 0 {
        return None;
    }
    let scale = match checked_pow10(decimals) {
        Some(scale) => scale,
        None => {
            return None;
        },
    };
    let scaled = match numerator.checked_mul(scale) {
        Some(scaled) => scaled,
        None => {
            return None;
        },
    };
    assert(0 <= scaled) by (nonlinear_arith)
        requires
            scaled == numerator * scale,
            numerator >= 0,
            scale >= 0,
    ;
    proof {
        lemma_quotient_bounds(scaled as int, denominator as int);
    }
    Some(scaled / denominator)
}

/// For `a >= 0` and `b > 0` the quotient `a / b` lies between 0 and `a`.
pub proof fn lemma_quotient_bounds(a: int, b: int)
    requires
        a >= 0,
        b > 0,
    ensures
        0 <= a / b <= a,
        b * (a / b) <= a < b * (a / b) + b,
{
    assert(0 <= a / b <= a && b * (a / b) <= a < b * (a / b) + b) by (nonlinear_arith)
        requires
            a >= 0,
            b > 0,
    ;
}

/// The quotient that `scaled_floor_div` returns is the floor of the exact
/// ratio: it is the one integer `q` with
/// `q * denominator <= numerator * 10^decimals < (q + 1) * denominator`.
pub proof fn lemma_scaled_floor_div_is_floor(numerator: i128, denominator: i128, decimals: u32)
    requires
        numerator >= 0,
        denominator > 0,
        numerator * pow10(decimals as nat) <= i128::MAX,
        pow10(decimals as nat) <= i128::MAX,
    ensures
        scaled_floor_div_spec(numerator, denominator, decimals) is Some,
        ({
            let q = scaled_floor_div_spec(numerator, denominator, decimals)->Some_0;
            q * denominator <= numerator * pow10(decimals as nat) < (q + 1) * denominator
        }),
{
    let scaled: int = numerator * pow10(decimals as nat);
    assert(scaled >= 0) by (nonlinear_arith)
        requires
            scaled == numerator * pow10(decimals as nat),
            numerator >= 0,
    ;
    lemma_quotient_bounds(scaled, denominator as int);
    let q = scaled / (denominator as int);
    assert(q * denominator == denominator * q) by (nonlinear_arith);
    assert((q + 1) * denominator == denominator * q + denominator) by (nonlinear_arith);
}

/// Negative numerators and denominators that are not positive are refused,
/// whatever the scale.
pub proof fn lemma_scaled_floor_div_rejects(numerator: i128, denominator: i128, decimals: u32)
    requires
        numerator < 0 || denominator <= 0,
    ensures
        scaled_floor_div_spec(numerator, denominator, decimals) is None,
{
}

} // verus!

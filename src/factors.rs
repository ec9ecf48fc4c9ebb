//! Scaling factors from a fixed-point exchange rate.
use crate::error::ContractError;
use vstd::arithmetic::div_mod::lemma_div_is_ordered_by_denominator;
use vstd::prelude::*;

verus! {

/// Fractional decimal digits carried by the numerator and denominator of a rate.
pub const RATE_DIGITS: u32 = 18;

/// Precision used where none is configured.
pub const DEFAULT_DECIMALS: u32 = 4;

/// Largest precision that a configuration may hold.
pub const MAX_DECIMALS: u32 = 17;

/// The precision that `decimals` stands for.
pub open spec fn effective_decimals(decimals: Option<u32>) -> nat {
    match decimals {
        Some(d) => d as nat,
        None => DEFAULT_DECIMALS as nat,
    }
}

/// A precision that leaves at least one digit to cut.
pub open spec fn valid_decimals(decimals: Option<u32>) -> bool {
    effective_decimals(decimals) <= MAX_DECIMALS
}

/// `10^e`.
pub open spec fn pow10(e: nat) -> int
    decreases e,
{
    if e == 0 {
        1
    } else {
        10 * pow10((e - 1) as nat)
    }
}

/// Powers of ten are positive and grow with the exponent.
pub proof fn lemma_pow10_increases(a: nat, b: nat)
    requires
        a <= b,
    ensures
        1 <= pow10(a) <= pow10(b),
    decreases b,
{
    if a < b {
        lemma_pow10_increases(a, (b - 1) as nat);
    } else if a > 0 {
        lemma_pow10_increases((a - 1) as nat, (a - 1) as nat);
    }
}

/// `10^(18 - precision)`: dividing by it keeps `precision` fractional digits.
pub open spec fn truncation_divisor(decimals: Option<u32>) -> int {
    pow10((RATE_DIGITS - effective_decimals(decimals)) as nat)
}

/// `value` with every fractional digit past the precision cut off (floor division).
pub open spec fn truncated(value: u128, decimals: Option<u32>) -> int {
    value as int / truncation_divisor(decimals)
}

/// Both truncated values fit in a `u64`.
pub open spec fn factors_fit(numerator: u128, denominator: u128, decimals: Option<u32>) -> bool {
    truncated(numerator, decimals) <= u64::MAX && truncated(denominator, decimals) <= u64::MAX
}

/// The pair of truncated values, in the order the two inputs were given.
pub open spec fn factor_pair(numerator: u128, denominator: u128, decimals: Option<u32>) -> Seq<int> {
    seq![truncated(numerator, decimals), truncated(denominator, decimals)]
}

/// `10^e` for the exponents a rate's scale can need.
fn power_of_ten(e: u32) -> (r: u128)
    requires
        e <= RATE_DIGITS,
    ensures
        r == pow10(e as nat),
{
    proof {
        reveal_with_fuel(pow10, 19);
    }
    let mut r: u128 = 1;
    let mut i: u32 = 0;
    while i < e
        invariant
            i <= e <= RATE_DIGITS,
            r == pow10(i as nat),
            pow10(18) == 1_000_000_000_000_000_000int,
        decreases e - i,
    {
        proof {
            lemma_pow10_increases((i + 1) as nat, 18);
        }
        r = r * 10;
        i = i + 1;
    }
    r
}

/// Truncates the numerator and the denominator of a rate with eighteen fractional
/// digits to `decimals` fractional digits (four where `None`), by floor division.
///
/// Fails with `TryFromInt` exactly when one of the two results exceeds `u64::MAX`.
/// The two values are handled alike and come back in the order given.
pub fn get_factors(numerator: u128, denominator: u128, decimals: Option<u32>) -> (r: Result<
    Vec<u64>,
    ContractError,
>)
    requires
        valid_decimals(decimals),
    ensures
        r is Ok <==> factors_fit(numerator, denominator, decimals),
        r matches Ok(v) ==> v@.len() == 2 && v@[0] == truncated(numerator, decimals) && v@[1]
            == truncated(denominator, decimals),
        r matches Err(e) ==> e is TryFromInt,
{
    let decimals = decimals.unwrap_or(DEFAULT_DECIMALS);
    let removing = RATE_DIGITS - decimals;
    let divisor = power_of_ten(removing);
    proof {
        lemma_pow10_increases(0, removing as nat);
    }
    let first: u128 = numerator / divisor;
    let second: u128 = denominator / divisor;
    let first = match u64::try_from(first) {
        Ok(v) => v,
        Err(e) => return Err(ContractError::TryFromInt(e)),
    };
    let second = match u64::try_from(second) {
        Ok(v) => v,
        Err(e) => return Err(ContractError::TryFromInt(e)),
    };
    Ok(vec![first, second])
}

/// Swapping the numerator and the denominator swaps the two factors, and
/// leaves unchanged whether they fit.
pub proof fn lemma_swapped_inputs_swap_factors(
    numerator: u128,
    denominator: u128,
    decimals: Option<u32>,
)
    ensures
        factors_fit(denominator, numerator, decimals) == factors_fit(
            numerator,
            denominator,
            decimals,
        ),
        factor_pair(denominator, numerator, decimals) == seq![
            factor_pair(numerator, denominator, decimals)[1],
            factor_pair(numerator, denominator, decimals)[0],
        ],
{
    assert(factor_pair(denominator, numerator, decimals) =~= seq![
        factor_pair(numerator, denominator, decimals)[1],
        factor_pair(numerator, denominator, decimals)[0],
    ]);
}

/// Lowering the precision never raises a truncated value, so a pair that fits
/// at some precision fits at every lower one.
pub proof fn lemma_lower_precision_never_increases(
    numerator: u128,
    denominator: u128,
    lower: u32,
    higher: u32,
)
    requires
        lower <= higher <= MAX_DECIMALS,
    ensures
        truncated(numerator, Some(lower)) <= truncated(numerator, Some(higher)),
        truncated(denominator, Some(lower)) <= truncated(denominator, Some(higher)),
        factors_fit(numerator, denominator, Some(higher)) ==> factors_fit(
            numerator,
            denominator,
            Some(lower),
        ),
{
    let small = (RATE_DIGITS - higher) as nat;
    let large = (RATE_DIGITS - lower) as nat;
    lemma_pow10_increases(small, large);
    lemma_pow10_increases(0, small);
    lemma_div_is_ordered_by_denominator(numerator as int, pow10(small), pow10(large));
    lemma_div_is_ordered_by_denominator(denominator as int, pow10(small), pow10(large));
}

} // verus!

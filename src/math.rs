use vstd::arithmetic::div_mod::{
    lemma_div_by_multiple, lemma_div_denominator, lemma_div_is_ordered,
    lemma_fundamental_div_mod,
};
use vstd::arithmetic::mul::{lemma_mul_inequality, lemma_mul_is_associative};
use vstd::prelude::*;

verus! {

/// Largest decimal shift whose power of ten fits in a `u128`.
pub const MAX_DECIMAL_SHIFT: u32 = 38;

/// `10^n`.
pub open spec fn pow10(n: nat) -> int
    decreases n,
{
    if n == 0 {
        1
    } else {
        10 * pow10((n - 1) as nat)
    }
}

pub open spec fn abs(x: int) -> nat {
    if x < 0 {
        (-x) as nat
    } else {
        x as nat
    }
}

/// How many more decimal places the base asset has than the collateral asset,
/// once the base asset is expressed at the oracle's precision.
pub open spec fn decimal_shift(collateral_decimals: u8, base_decimals: u8, pyth_exponent: i32) -> int {
    base_decimals + abs(pyth_exponent as int) - collateral_decimals
}

/// The shift can be applied with a power of ten held in a `u128`.
pub open spec fn shift_supported(collateral_decimals: u8, base_decimals: u8, pyth_exponent: i32) -> bool {
    abs(decimal_shift(collateral_decimals, base_decimals, pyth_exponent)) <= MAX_DECIMAL_SHIFT
}

/// Options backed by `collateral`: one for one for a call; for a put, the
/// collateral divided by the strike at the shifted precision, rounded down.
pub open spec fn option_amount(
    collateral: int,
    strike_price: int,
    is_put: bool,
    collateral_decimals: u8,
    base_decimals: u8,
    pyth_exponent: i32,
) -> int {
    if !is_put {
        collateral
    } else {
        let s = decimal_shift(collateral_decimals, base_decimals, pyth_exponent);
        if s >= 0 {
            collateral * pow10(s as nat) / strike_price
        } else {
            collateral / strike_price / pow10((-s) as nat)
        }
    }
}

/// Collateral that backs `options`: one for one for a call; for a put, the
/// options times the strike at the shifted precision, rounded down.
pub open spec fn collateral_amount(
    options: int,
    strike_price: int,
    is_put: bool,
    collateral_decimals: u8,
    base_decimals: u8,
    pyth_exponent: i32,
) -> int {
    if !is_put {
        options
    } else {
        let s = decimal_shift(collateral_decimals, base_decimals, pyth_exponent);
        if s >= 0 {
            options * strike_price / pow10(s as nat)
        } else {
            options * strike_price * pow10((-s) as nat)
        }
    }
}

/// The option finished in the money.
pub open spec fn in_the_money(strike_price: int, expiry_price: int, is_put: bool) -> bool {
    if is_put {
        strike_price > expiry_price
    } else {
        expiry_price > strike_price
    }
}

/// What `options` long notes are owed at expiry. A put pays the price drop in
/// collateral units; a call pays the price rise as a fraction of the expiry
/// price, in base units. Nothing is owed out of or at the money.
pub open spec fn expired_value(
    options: int,
    strike_price: int,
    expiry_price: int,
    is_put: bool,
    collateral_decimals: u8,
    base_decimals: u8,
    pyth_exponent: i32,
) -> int {
    if !in_the_money(strike_price, expiry_price, is_put) {
        0
    } else if is_put {
        let payout = (strike_price - expiry_price) * options;
        let s = decimal_shift(collateral_decimals, base_decimals, pyth_exponent);
        if s >= 0 {
            payout / pow10(s as nat)
        } else {
            payout * pow10((-s) as nat)
        }
    } else {
        (expiry_price - strike_price) * options / expiry_price
    }
}

/// Share of a pool of `total_collateral` that `note_amount` notes out of
/// `total_note_supply` stand for, rounded down.
pub open spec fn pro_rata(note_amount: int, total_collateral: int, total_note_supply: int) -> int {
    note_amount * total_collateral / total_note_supply
}

pub proof fn lemma_pow10_positive(n: nat)
    ensures
        pow10(n) >= 1,
    decreases n,
{
    if n > 0 {
        lemma_pow10_positive((n - 1) as nat);
    }
}

pub proof fn lemma_pow10_monotone(a: nat, b: nat)
    requires
        a <= b,
    ensures
        pow10(a) <= pow10(b),
    decreases b,
{
    if a < b {
        lemma_pow10_monotone(a, (b - 1) as nat);
        lemma_pow10_positive((b - 1) as nat);
    }
}

pub proof fn lemma_pow10_max_shift_fits()
    ensures
        pow10(MAX_DECIMAL_SHIFT as nat) <= u128::MAX,
{
    reveal_with_fuel(pow10, 39);
}

proof fn lemma_u64_product_fits(a: u64, b: u64)
    ensures
        0 <= a * b <= 0xffff_ffff_ffff_fffe_0000_0000_0000_0001,
{
    assert(0 <= a * b <= 0xffff_ffff_ffff_ffff * 0xffff_ffff_ffff_ffff) by (nonlinear_arith)
        requires
            a <= 0xffff_ffff_ffff_ffff,
            b <= 0xffff_ffff_ffff_ffff,
    ;
}

/// A dividend whose quotient by `k` is at most `m` is below `(m + 1) * k`.
proof fn lemma_dividend_bound(x: int, k: int, m: int)
    requires
        0 <= x,
        0 < k,
        x / k <= m,
    ensures
        x < (m + 1) * k,
{
    lemma_fundamental_div_mod(x, k);
    assert(x < (m + 1) * k) by (nonlinear_arith)
        requires
            x == k * (x / k) + x % k,
            0 <= x % k < k,
            x / k <= m,
            0 < k,
    ;
}

/// Rounding a quotient down never exceeds the dividend.
proof fn lemma_quotient_times_divisor(x: int, k: int)
    requires
        0 <= x,
        0 < k,
    ensures
        0 <= (x / k) * k <= x,
        0 <= x / k,
{
    lemma_fundamental_div_mod(x, k);
    assert(0 <= (x / k) * k <= x && 0 <= x / k) by (nonlinear_arith)
        requires
            x == k * (x / k) + x % k,
            0 <= x % k < k,
            0 <= x,
            0 < k,
    ;
}

/// `10^n` as a `u128`.
fn pow10_u128(n: u32) -> (r: u128)
    requires
        n <= MAX_DECIMAL_SHIFT,
    ensures
        r == pow10(n as nat),
{
    let mut r: u128 = 1;
    let mut i: u32 = 0;
    while i < n
        invariant
            i <= n <= MAX_DECIMAL_SHIFT,
            r == pow10(i as nat),
        decreases n - i,
    {
        proof {
            lemma_pow10_monotone((i + 1) as nat, MAX_DECIMAL_SHIFT as nat);
            lemma_pow10_max_shift_fits();
        }
        r = r * 10;
        i = i + 1;
    }
    r
}

/// The decimal shift, computed without overflow.
fn shift_of(collateral_decimals: u8, base_decimals: u8, pyth_exponent: i32) -> (r: i64)
    ensures
        r == decimal_shift(collateral_decimals, base_decimals, pyth_exponent),
{
    let e = pyth_exponent as i64;
    let magnitude: i64 = if e < 0 {
        -e
    } else {
        e
    };
    base_decimals as i64 + magnitude - collateral_decimals as i64
}

/// `10^|shift|` for a supported shift.
fn shift_units(shift: i64) -> (r: u128)
    requires
        abs(shift as int) <= MAX_DECIMAL_SHIFT,
    ensures
        r == pow10(abs(shift as int)),
{
    let magnitude: i64 = if shift < 0 {
        -shift
    } else {
        shift
    };
    pow10_u128(magnitude as u32)
}

/// Number of options that `collateral` mints.
pub fn calculate_option_amount(
    collateral: u64,
    strike_price: u64,
    is_put: bool,
    collateral_decimals: u8,
    base_decimals: u8,
    pyth_exponent: i32,
) -> (r: u64)
    requires
        is_put ==> strike_price > 0,
        is_put ==> shift_supported(collateral_decimals, base_decimals, pyth_exponent),
        option_amount(
            collateral as int,
            strike_price as int,
            is_put,
            collateral_decimals,
            base_decimals,
            pyth_exponent,
        ) <= u64::MAX,
    ensures
        r == option_amount(
            collateral as int,
            strike_price as int,
            is_put,
            collateral_decimals,
            base_decimals,
            pyth_exponent,
        ),
{
    if is_put {
        let shift = shift_of(collateral_decimals, base_decimals, pyth_exponent);
        let units = shift_units(shift);
        proof {
            lemma_pow10_positive(abs(shift as int));
        }
        if shift >= 0 {
            let ghost x = collateral * units;
            proof {
                lemma_dividend_bound(x, strike_price as int, u64::MAX as int);
                lemma_mul_inequality(u64::MAX as int + 1, 0x1_0000_0000_0000_0000, strike_price as int);
            }
            (((collateral as u128) * units) / (strike_price as u128)) as u64
        } else {
            proof {
                lemma_quotient_times_divisor(collateral as int, strike_price as int);
                lemma_div_is_ordered(collateral as int / strike_price as int, collateral as int, units as int);
                lemma_quotient_times_divisor(collateral as int / strike_price as int, units as int);
                lemma_div_is_ordered(0, collateral as int / strike_price as int, units as int);
            }
            (((collateral as u128) / (strike_price as u128)) / units) as u64
        }
    } else {
        collateral
    }
}

/// Collateral that `options` are backed by.
pub fn calculate_collateral_amount(
    options: u64,
    strike_price: u64,
    is_put: bool,
    collateral_decimals: u8,
    base_decimals: u8,
    pyth_exponent: i32,
) -> (r: u64)
    requires
        is_put ==> shift_supported(collateral_decimals, base_decimals, pyth_exponent),
        collateral_amount(
            options as int,
            strike_price as int,
            is_put,
            collateral_decimals,
            base_decimals,
            pyth_exponent,
        ) <= u64::MAX,
    ensures
        r == collateral_amount(
            options as int,
            strike_price as int,
            is_put,
            collateral_decimals,
            base_decimals,
            pyth_exponent,
        ),
{
    if is_put {
        let shift = shift_of(collateral_decimals, base_decimals, pyth_exponent);
        let units = shift_units(shift);
        proof {
            lemma_pow10_positive(abs(shift as int));
            lemma_u64_product_fits(options, strike_price);
        }
        let value = (options as u128) * (strike_price as u128);
        if shift >= 0 {
            proof {
                lemma_div_is_ordered(0, value as int, units as int);
            }
            (value / units) as u64
        } else {
            proof {
                lemma_mul_inequality(0, value as int, units as int);
            }
            (value * units) as u64
        }
    } else {
        options
    }
}

/// What `options` long notes are owed at expiry.
pub fn calculate_expired_value(
    options: u64,
    strike_price: u64,
    expiry_price: u64,
    is_put: bool,
    collateral_decimals: u8,
    base_decimals: u8,
    pyth_exponent: i32,
) -> (r: u64)
    requires
        is_put && strike_price > expiry_price ==> shift_supported(
            collateral_decimals,
            base_decimals,
            pyth_exponent,
        ),
        expired_value(
            options as int,
            strike_price as int,
            expiry_price as int,
            is_put,
            collateral_decimals,
            base_decimals,
            pyth_exponent,
        ) <= u64::MAX,
    ensures
        r == expired_value(
            options as int,
            strike_price as int,
            expiry_price as int,
            is_put,
            collateral_decimals,
            base_decimals,
            pyth_exponent,
        ),
{
    if is_put && (strike_price > expiry_price) {
        let shift = shift_of(collateral_decimals, base_decimals, pyth_exponent);
        let units = shift_units(shift);
        let difference = strike_price - expiry_price;
        proof {
            lemma_pow10_positive(abs(shift as int));
            lemma_u64_product_fits(difference, options);
        }
        let payout = (difference as u128) * (options as u128);
        if shift >= 0 {
            proof {
                lemma_div_is_ordered(0, payout as int, units as int);
            }
            (payout / units) as u64
        } else {
            proof {
                lemma_mul_inequality(0, payout as int, units as int);
            }
            (payout * units) as u64
        }
    } else if !is_put && (expiry_price > strike_price) {
        let difference = expiry_price - strike_price;
        proof {
            lemma_u64_product_fits(difference, options);
            lemma_mul_inequality(difference as int, expiry_price as int, options as int);
            lemma_div_is_ordered(difference * options, expiry_price * options, expiry_price as int);
            lemma_div_by_multiple(options as int, expiry_price as int);
            lemma_div_is_ordered(0, difference * options, expiry_price as int);
        }
        (((difference as u128) * (options as u128)) / (expiry_price as u128)) as u64
    } else {
        0
    }
}

/// Amount of collateral that `options` notes out of `total_options` are
/// entitled to, from a pool of `total_collateral`.
pub fn calculate_collateral(options: u64, total_collateral: u64, total_options: u64) -> (r: u64)
    requires
        total_options > 0,
        pro_rata(options as int, total_collateral as int, total_options as int) <= u64::MAX,
    ensures
        r == pro_rata(options as int, total_collateral as int, total_options as int),
{
    proof {
        lemma_u64_product_fits(options, total_collateral);
        lemma_div_is_ordered(0, options * total_collateral, total_options as int);
    }
    (((options as u128) * (total_collateral as u128)) / (total_options as u128)) as u64
}


/// `calculate_option_amount` can compute its result: a put needs a strike, a
/// supported shift, and a result that fits in 64 bits.
pub open spec fn option_amount_computable(
    collateral: int,
    strike_price: int,
    is_put: bool,
    collateral_decimals: u8,
    base_decimals: u8,
    pyth_exponent: i32,
) -> bool {
    &&& is_put ==> strike_price > 0
    &&& is_put ==> shift_supported(collateral_decimals, base_decimals, pyth_exponent)
    &&& option_amount(
        collateral,
        strike_price,
        is_put,
        collateral_decimals,
        base_decimals,
        pyth_exponent,
    ) <= u64::MAX
}

/// `calculate_collateral_amount` can compute its result.
pub open spec fn collateral_amount_computable(
    options: int,
    strike_price: int,
    is_put: bool,
    collateral_decimals: u8,
    base_decimals: u8,
    pyth_exponent: i32,
) -> bool {
    &&& is_put ==> shift_supported(collateral_decimals, base_decimals, pyth_exponent)
    &&& collateral_amount(
        options,
        strike_price,
        is_put,
        collateral_decimals,
        base_decimals,
        pyth_exponent,
    ) <= u64::MAX
}

/// `calculate_expired_value` can compute its result.
pub open spec fn expired_value_computable(
    options: int,
    strike_price: int,
    expiry_price: int,
    is_put: bool,
    collateral_decimals: u8,
    base_decimals: u8,
    pyth_exponent: i32,
) -> bool {
    &&& is_put && strike_price > expiry_price ==> shift_supported(
        collateral_decimals,
        base_decimals,
        pyth_exponent,
    )
    &&& expired_value(
        options,
        strike_price,
        expiry_price,
        is_put,
        collateral_decimals,
        base_decimals,
        pyth_exponent,
    ) <= u64::MAX
}

/// `calculate_collateral` can compute its result.
pub open spec fn pro_rata_computable(note_amount: int, total_collateral: int, total_note_supply: int) -> bool {
    &&& total_note_supply > 0
    &&& pro_rata(note_amount, total_collateral, total_note_supply) <= u64::MAX
}

/// A product beyond 128 bits divided by a 64-bit divisor is beyond 64 bits.
proof fn lemma_wide_quotient(x: int, k: int)
    requires
        x > u128::MAX,
        0 < k <= u64::MAX,
    ensures
        x / k > u64::MAX,
{
    if x / k <= u64::MAX {
        lemma_dividend_bound(x, k, u64::MAX as int);
        lemma_mul_inequality(k, u64::MAX as int, u64::MAX as int + 1);
    }
}

/// Options that `collateral` mints, or `None` where they cannot be computed.
pub fn checked_option_amount(
    collateral: u64,
    strike_price: u64,
    is_put: bool,
    collateral_decimals: u8,
    base_decimals: u8,
    pyth_exponent: i32,
) -> (r: Option<u64>)
    ensures
        r == (if option_amount_computable(
            collateral as int,
            strike_price as int,
            is_put,
            collateral_decimals,
            base_decimals,
            pyth_exponent,
        ) {
            Some(
                option_amount(
                    collateral as int,
                    strike_price as int,
                    is_put,
                    collateral_decimals,
                    base_decimals,
                    pyth_exponent,
                ) as u64,
            )
        } else {
            None::<u64>
        }),
{
    if is_put {
        if strike_price == 0 {
            return None;
        }
        let shift = shift_of(collateral_decimals, base_decimals, pyth_exponent);
        if shift < -(MAX_DECIMAL_SHIFT as i64) || shift > MAX_DECIMAL_SHIFT as i64 {
            return None;
        }
        if shift >= 0 {
            let units = shift_units(shift);
            match (collateral as u128).checked_mul(units) {
                None => {
                    proof {
                        lemma_wide_quotient(collateral * units, strike_price as int);
                    }
                    return None;
                },
                Some(x) => {
                    if x / (strike_price as u128) > u64::MAX as u128 {
                        return None;
                    }
                },
            }
        } else {
            let units = shift_units(shift);
            proof {
                lemma_pow10_positive(abs(shift as int));
                let q = collateral as int / strike_price as int;
                lemma_quotient_times_divisor(collateral as int, strike_price as int);
                lemma_quotient_times_divisor(q, units as int);
                lemma_mul_inequality(1, strike_price as int, q);
                lemma_mul_inequality(1, units as int, q / units as int);
            }
        }
    }
    Some(
        calculate_option_amount(
            collateral,
            strike_price,
            is_put,
            collateral_decimals,
            base_decimals,
            pyth_exponent,
        ),
    )
}

/// Collateral that backs `options`, or `None` where it cannot be computed.
pub fn checked_collateral_amount(
    options: u64,
    strike_price: u64,
    is_put: bool,
    collateral_decimals: u8,
    base_decimals: u8,
    pyth_exponent: i32,
) -> (r: Option<u64>)
    ensures
        r == (if collateral_amount_computable(
            options as int,
            strike_price as int,
            is_put,
            collateral_decimals,
            base_decimals,
            pyth_exponent,
        ) {
            Some(
                collateral_amount(
                    options as int,
                    strike_price as int,
                    is_put,
                    collateral_decimals,
                    base_decimals,
                    pyth_exponent,
                ) as u64,
            )
        } else {
            None::<u64>
        }),
{
    if is_put {
        let shift = shift_of(collateral_decimals, base_decimals, pyth_exponent);
        if shift < -(MAX_DECIMAL_SHIFT as i64) || shift > MAX_DECIMAL_SHIFT as i64 {
            return None;
        }
        let units = shift_units(shift);
        proof {
            lemma_pow10_positive(abs(shift as int));
            lemma_u64_product_fits(options, strike_price);
        }
        let value = (options as u128) * (strike_price as u128);
        if shift >= 0 {
            if value / units > u64::MAX as u128 {
                return None;
            }
        } else {
            match value.checked_mul(units) {
                None => {
                    return None;
                },
                Some(x) => {
                    if x > u64::MAX as u128 {
                        return None;
                    }
                },
            }
        }
    }
    Some(
        calculate_collateral_amount(
            options,
            strike_price,
            is_put,
            collateral_decimals,
            base_decimals,
            pyth_exponent,
        ),
    )
}

/// What `options` long notes are owed at expiry, or `None` where it cannot be
/// computed.
pub fn checked_expired_value(
    options: u64,
    strike_price: u64,
    expiry_price: u64,
    is_put: bool,
    collateral_decimals: u8,
    base_decimals: u8,
    pyth_exponent: i32,
) -> (r: Option<u64>)
    ensures
        r == (if expired_value_computable(
            options as int,
            strike_price as int,
            expiry_price as int,
            is_put,
            collateral_decimals,
            base_decimals,
            pyth_exponent,
        ) {
            Some(
                expired_value(
                    options as int,
                    strike_price as int,
                    expiry_price as int,
                    is_put,
                    collateral_decimals,
                    base_decimals,
                    pyth_exponent,
                ) as u64,
            )
        } else {
            None::<u64>
        }),
{
    if is_put && strike_price > expiry_price {
        let shift = shift_of(collateral_decimals, base_decimals, pyth_exponent);
        if shift < -(MAX_DECIMAL_SHIFT as i64) || shift > MAX_DECIMAL_SHIFT as i64 {
            return None;
        }
        let units = shift_units(shift);
        let difference = strike_price - expiry_price;
        proof {
            lemma_pow10_positive(abs(shift as int));
            lemma_u64_product_fits(difference, options);
        }
        let payout = (difference as u128) * (options as u128);
        if shift >= 0 {
            if payout / units > u64::MAX as u128 {
                return None;
            }
        } else {
            match payout.checked_mul(units) {
                None => {
                    return None;
                },
                Some(x) => {
                    if x > u64::MAX as u128 {
                        return None;
                    }
                },
            }
        }
    } else if !is_put && expiry_price > strike_price {
        proof {
            let d = expiry_price - strike_price;
            lemma_u64_product_fits(d as u64, options);
            lemma_mul_inequality(d, expiry_price as int, options as int);
            lemma_div_is_ordered(d * options, expiry_price * options, expiry_price as int);
            lemma_div_by_multiple(options as int, expiry_price as int);
        }
    }
    Some(
        calculate_expired_value(
            options,
            strike_price,
            expiry_price,
            is_put,
            collateral_decimals,
            base_decimals,
            pyth_exponent,
        ),
    )
}

/// Pro-rata share of a pool, or `None` where it cannot be computed.
pub fn checked_collateral(options: u64, total_collateral: u64, total_options: u64) -> (r: Option<u64>)
    ensures
        r == (if pro_rata_computable(options as int, total_collateral as int, total_options as int) {
            Some(pro_rata(options as int, total_collateral as int, total_options as int) as u64)
        } else {
            None::<u64>
        }),
{
    if total_options == 0 {
        return None;
    }
    proof {
        lemma_u64_product_fits(options, total_collateral);
    }
    if ((options as u128) * (total_collateral as u128)) / (total_options as u128) > u64::MAX as u128 {
        return None;
    }
    Some(calculate_collateral(options, total_collateral, total_options))
}


/// For a call, options and collateral convert one for one, in both directions.
pub proof fn lemma_call_identity(
    amount: u64,
    strike_price: u64,
    collateral_decimals: u8,
    base_decimals: u8,
    pyth_exponent: i32,
)
    ensures
        option_amount(
            amount as int,
            strike_price as int,
            false,
            collateral_decimals,
            base_decimals,
            pyth_exponent,
        ) == amount,
        collateral_amount(
            amount as int,
            strike_price as int,
            false,
            collateral_decimals,
            base_decimals,
            pyth_exponent,
        ) == amount,
{
}

/// For a put, converting collateral to options and the options back to
/// collateral never yields more than was put in: rounding only loses.
pub proof fn lemma_put_round_trip_bound(
    collateral: u64,
    strike_price: u64,
    collateral_decimals: u8,
    base_decimals: u8,
    pyth_exponent: i32,
)
    requires
        strike_price > 0,
    ensures
        collateral_amount(
            option_amount(
                collateral as int,
                strike_price as int,
                true,
                collateral_decimals,
                base_decimals,
                pyth_exponent,
            ),
            strike_price as int,
            true,
            collateral_decimals,
            base_decimals,
            pyth_exponent,
        ) <= collateral,
{
    let c = collateral as int;
    let k = strike_price as int;
    let s = decimal_shift(collateral_decimals, base_decimals, pyth_exponent);
    if s >= 0 {
        let u = pow10(s as nat);
        lemma_pow10_positive(s as nat);
        lemma_mul_inequality(0, c, u);
        let o = c * u / k;
        lemma_quotient_times_divisor(c * u, k);
        lemma_div_is_ordered(o * k, c * u, u);
        lemma_div_by_multiple(c, u);
    } else {
        let u = pow10((-s) as nat);
        lemma_pow10_positive((-s) as nat);
        let q = c / k;
        let o = q / u;
        lemma_quotient_times_divisor(c, k);
        lemma_quotient_times_divisor(q, u);
        lemma_mul_inequality(o * u, q, k);
        lemma_mul_is_associative(o, k, u);
        assert(o * k * u == o * u * k) by (nonlinear_arith);
    }
}

/// The put conversion from collateral to options divides exactly.
pub open spec fn put_divides_exactly(
    collateral: int,
    strike_price: int,
    collateral_decimals: u8,
    base_decimals: u8,
    pyth_exponent: i32,
) -> bool {
    let s = decimal_shift(collateral_decimals, base_decimals, pyth_exponent);
    if s >= 0 {
        (collateral * pow10(s as nat)) % strike_price == 0
    } else {
        collateral % (strike_price * pow10((-s) as nat)) == 0
    }
}

/// Options minted from some collateral are backed by exactly that collateral
/// when the oracle exponent has not moved: always for a call, and for a put
/// whenever the conversion divides exactly (otherwise rounding keeps a
/// remainder in the vault). Whenever the mint can be computed, so can the
/// burn of what it minted, so `calculate_collateral_amount` applied to the
/// result of `calculate_option_amount` gives the collateral back.
pub proof fn lemma_mint_burn_symmetry(
    collateral: u64,
    strike_price: u64,
    is_put: bool,
    collateral_decimals: u8,
    base_decimals: u8,
    pyth_exponent: i32,
)
    requires
        is_put ==> strike_price > 0,
        is_put ==> put_divides_exactly(
            collateral as int,
            strike_price as int,
            collateral_decimals,
            base_decimals,
            pyth_exponent,
        ),
    ensures
        collateral_amount(
            option_amount(
                collateral as int,
                strike_price as int,
                is_put,
                collateral_decimals,
                base_decimals,
                pyth_exponent,
            ),
            strike_price as int,
            is_put,
            collateral_decimals,
            base_decimals,
            pyth_exponent,
        ) == collateral,
        option_amount_computable(
            collateral as int,
            strike_price as int,
            is_put,
            collateral_decimals,
            base_decimals,
            pyth_exponent,
        ) ==> collateral_amount_computable(
            option_amount(
                collateral as int,
                strike_price as int,
                is_put,
                collateral_decimals,
                base_decimals,
                pyth_exponent,
            ),
            strike_price as int,
            is_put,
            collateral_decimals,
            base_decimals,
            pyth_exponent,
        ),
{
    if is_put {
        let c = collateral as int;
        let k = strike_price as int;
        let s = decimal_shift(collateral_decimals, base_decimals, pyth_exponent);
        if s >= 0 {
            let u = pow10(s as nat);
            lemma_pow10_positive(s as nat);
            let o = c * u / k;
            lemma_fundamental_div_mod(c * u, k);
            assert(o * k == c * u) by (nonlinear_arith)
                requires
                    c * u == k * o + (c * u) % k,
                    (c * u) % k == 0,
            ;
            lemma_div_by_multiple(c, u);
        } else {
            let u = pow10((-s) as nat);
            lemma_pow10_positive((-s) as nat);
            lemma_div_denominator(c, k, u);
            lemma_mul_inequality(1, k, u);
            let o = c / (k * u);
            lemma_fundamental_div_mod(c, k * u);
            assert(o * k * u == c) by (nonlinear_arith)
                requires
                    c == (k * u) * o + c % (k * u),
                    c % (k * u) == 0,
            ;
        }
    }
}

/// Nothing is owed on an option that finished out of or at the money.
pub proof fn lemma_payout_zero_unless_in_the_money(
    options: u64,
    strike_price: u64,
    expiry_price: u64,
    is_put: bool,
    collateral_decimals: u8,
    base_decimals: u8,
    pyth_exponent: i32,
)
    requires
        !in_the_money(strike_price as int, expiry_price as int, is_put),
    ensures
        expired_value(
            options as int,
            strike_price as int,
            expiry_price as int,
            is_put,
            collateral_decimals,
            base_decimals,
            pyth_exponent,
        ) == 0,
{
}

/// The payout owed before rounding reaches at least one unit.
pub open spec fn payout_reaches_one_unit(
    options: int,
    strike_price: int,
    expiry_price: int,
    is_put: bool,
    collateral_decimals: u8,
    base_decimals: u8,
    pyth_exponent: i32,
) -> bool {
    let s = decimal_shift(collateral_decimals, base_decimals, pyth_exponent);
    if is_put {
        options > 0 && (s >= 0 ==> (strike_price - expiry_price) * options >= pow10(s as nat))
    } else {
        (expiry_price - strike_price) * options >= expiry_price
    }
}

/// An option that finished in the money pays a positive amount, unless its
/// payout rounds down to zero.
pub proof fn lemma_payout_positive_in_the_money(
    options: u64,
    strike_price: u64,
    expiry_price: u64,
    is_put: bool,
    collateral_decimals: u8,
    base_decimals: u8,
    pyth_exponent: i32,
)
    requires
        in_the_money(strike_price as int, expiry_price as int, is_put),
        payout_reaches_one_unit(
            options as int,
            strike_price as int,
            expiry_price as int,
            is_put,
            collateral_decimals,
            base_decimals,
            pyth_exponent,
        ),
    ensures
        expired_value(
            options as int,
            strike_price as int,
            expiry_price as int,
            is_put,
            collateral_decimals,
            base_decimals,
            pyth_exponent,
        ) > 0,
{
    let s = decimal_shift(collateral_decimals, base_decimals, pyth_exponent);
    if is_put {
        let p = (strike_price - expiry_price) * options;
        assert(p >= 1) by (nonlinear_arith)
            requires
                strike_price > expiry_price,
                options > 0,
                p == (strike_price - expiry_price) * options,
        ;
        if s >= 0 {
            let u = pow10(s as nat);
            lemma_pow10_positive(s as nat);
            lemma_div_is_ordered(u, p, u);
            lemma_div_by_multiple(1, u);
        } else {
            let u = pow10((-s) as nat);
            lemma_pow10_positive((-s) as nat);
            lemma_mul_inequality(1, p, u);
        }
    } else {
        let e = expiry_price as int;
        lemma_div_is_ordered(e, (e - strike_price) * options, e);
        lemma_div_by_multiple(1, e);
    }
}

/// The payout never shrinks as the expiry price moves further into the
/// money: for two expiry prices on the money side of the strike, the one
/// further from it pays at least as much.
pub proof fn lemma_payout_monotone(
    options: u64,
    strike_price: u64,
    near_price: u64,
    far_price: u64,
    is_put: bool,
    collateral_decimals: u8,
    base_decimals: u8,
    pyth_exponent: i32,
)
    requires
        is_put ==> far_price <= near_price <= strike_price,
        !is_put ==> strike_price <= near_price <= far_price,
    ensures
        expired_value(
            options as int,
            strike_price as int,
            near_price as int,
            is_put,
            collateral_decimals,
            base_decimals,
            pyth_exponent,
        ) <= expired_value(
            options as int,
            strike_price as int,
            far_price as int,
            is_put,
            collateral_decimals,
            base_decimals,
            pyth_exponent,
        ),
{
    let o = options as int;
    let k = strike_price as int;
    let n = near_price as int;
    let f = far_price as int;
    let s = decimal_shift(collateral_decimals, base_decimals, pyth_exponent);
    if !in_the_money(k, n, is_put) {
        if in_the_money(k, f, is_put) {
            lemma_payout_nonnegative(options, strike_price, far_price, is_put, collateral_decimals, base_decimals, pyth_exponent);
        }
    } else if is_put {
        lemma_mul_inequality(k - n, k - f, o);
        if s >= 0 {
            lemma_pow10_positive(s as nat);
            lemma_div_is_ordered((k - n) * o, (k - f) * o, pow10(s as nat));
        } else {
            lemma_pow10_positive((-s) as nat);
            lemma_mul_inequality((k - n) * o, (k - f) * o, pow10((-s) as nat));
        }
    } else {
        // floor(a / n) <= floor(b / f) when a * f <= b * n
        let a = (n - k) * o;
        let b = (f - k) * o;
        assert(a * f <= b * n) by (nonlinear_arith)
            requires
                a == (n - k) * o,
                b == (f - k) * o,
                0 <= k < n <= f,
                o >= 0,
        ;
        lemma_quotient_times_divisor(a, n);
        let q = a / n;
        assert(q * f <= b) by (nonlinear_arith)
            requires
                q * n <= a,
                a * f <= b * n,
                0 < n,
                0 <= q,
                0 < f,
        ;
        lemma_div_is_ordered(q * f, b, f);
        lemma_div_by_multiple(q, f);
    }
}

/// No payout is negative.
pub proof fn lemma_payout_nonnegative(
    options: u64,
    strike_price: u64,
    expiry_price: u64,
    is_put: bool,
    collateral_decimals: u8,
    base_decimals: u8,
    pyth_exponent: i32,
)
    ensures
        expired_value(
            options as int,
            strike_price as int,
            expiry_price as int,
            is_put,
            collateral_decimals,
            base_decimals,
            pyth_exponent,
        ) >= 0,
{
    let o = options as int;
    let k = strike_price as int;
    let e = expiry_price as int;
    let s = decimal_shift(collateral_decimals, base_decimals, pyth_exponent);
    if in_the_money(k, e, is_put) {
        if is_put {
            lemma_mul_inequality(0, k - e, o);
            if s >= 0 {
                lemma_pow10_positive(s as nat);
                lemma_div_is_ordered(0, (k - e) * o, pow10(s as nat));
            } else {
                lemma_pow10_positive((-s) as nat);
                lemma_mul_inequality(0, (k - e) * o, pow10((-s) as nat));
            }
        } else {
            lemma_mul_inequality(0, e - k, o);
            lemma_div_is_ordered(0, (e - k) * o, e);
        }
    }
}

/// No pro-rata share is negative.
pub proof fn lemma_pro_rata_nonnegative(note_amount: u64, total_collateral: u64, total_note_supply: u64)
    requires
        total_note_supply > 0,
    ensures
        pro_rata(note_amount as int, total_collateral as int, total_note_supply as int) >= 0,
{
    lemma_mul_inequality(0, note_amount as int, total_collateral as int);
    lemma_div_is_ordered(0, note_amount * total_collateral, total_note_supply as int);
}

} // verus!

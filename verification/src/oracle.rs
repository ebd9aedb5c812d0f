//! Scaling of raw oracle readings to mark-price precision.
//!
//! An oracle feed reports a price as a mantissa and a decimal exponent.
//! The engine lifts (or lowers) that mantissa to mark-price precision with
//! one exact multiply or divide; the scaling factor is a power of ten
//! computed with checked arithmetic.

use vstd::arithmetic::div_mod::{
    lemma_div_by_self, lemma_div_is_ordered, lemma_div_nonincreasing, lemma_div_pos_is_pos,
    lemma_fundamental_div_mod,
};
use vstd::math::abs;
use vstd::arithmetic::power::{
    lemma_pow0, lemma_pow_adds, lemma_pow_increases, lemma_pow_positive, lemma_pow1, pow,
};
use vstd::prelude::*;

use crate::constants::MARK_PRICE_PRECISION;
use crate::errors::{ClearingHouseResult, Errors};

verus! {

/// Truncating division of a possibly negative value by a positive one,
/// rounding toward zero, as machine division does.
pub open spec fn div_trunc(x: int, d: int) -> int {
    if x >= 0 {
        x / d
    } else {
        ((x * -1) / d) * -1
    }
}

/// The decimal precision named by an exponent: `10^|exponent|`.
pub open spec fn decimal_precision(exponent: i32) -> int {
    pow(10, abs(exponent as int))
}

/// The factor a reading at the given precision is multiplied by to reach
/// mark-price precision; one when the reading is already finer.
pub open spec fn oracle_scale_mul(precision: int) -> int {
    if precision > MARK_PRICE_PRECISION {
        1
    } else {
        MARK_PRICE_PRECISION as int / precision
    }
}

/// The factor a reading at the given precision is divided by to reach
/// mark-price precision; one when the reading is coarser.
pub open spec fn oracle_scale_div(precision: int) -> int {
    if precision > MARK_PRICE_PRECISION {
        precision / MARK_PRICE_PRECISION as int
    } else {
        1
    }
}

/// A signed reading lifted to mark-price precision.
pub open spec fn scaled_to_mark_precision(raw: int, precision: int) -> int {
    div_trunc(raw * oracle_scale_mul(precision), oracle_scale_div(precision))
}

/// The absolute value of a 32-bit exponent.
pub fn unsigned_abs_i32(e: i32) -> (r: u32)
    ensures
        r == abs(e as int),
{
    if e >= 0 {
        e as u32
    } else {
        ((-(e as i64)) as u64) as u32
    }
}

/// Ten to the given power, or `MathError` when the value exceeds 128
/// bits.
pub fn pow10_u128(e: u32) -> (r: ClearingHouseResult<u128>)
    ensures
        r matches Ok(v) ==> v == pow(10, e as nat),
        r is Err ==> r == Err::<u128, Errors>(Errors::MathError) && pow(10, e as nat) > u128::MAX,
{
    let mut acc: u128 = 1;
    let mut k: u32 = 0;
    proof {
        lemma_pow0(10);
    }
    while k < e
        invariant
            k <= e,
            acc == pow(10, k as nat),
        decreases e - k,
    {
        proof {
            lemma_pow1(10);
            lemma_pow_adds(10, k as nat, 1);
        }
        acc = match acc.checked_mul(10) {
            Some(v) => v,
            None => {
                proof {
                    lemma_pow_increases(10, (k + 1) as nat, e as nat);
                }
                return Err(Errors::MathError);
            },
        };
        k = k + 1;
    }
    Ok(acc)
}

/// Scales a signed oracle mantissa with the given decimal exponent to
/// mark-price precision. Fails with `MathError` only when the exponent's
/// precision exceeds 128 bits.
pub fn scale_oracle_price(raw_price: i64, exponent: i32) -> (r: ClearingHouseResult<i128>)
    ensures
        decimal_precision(exponent) > u128::MAX ==> r == Err::<i128, Errors>(Errors::MathError),
        decimal_precision(exponent) <= u128::MAX ==> (r matches Ok(p) && p
            == scaled_to_mark_precision(raw_price as int, decimal_precision(exponent))),
{
    let exponent_abs = unsigned_abs_i32(exponent);
    let precision = match pow10_u128(exponent_abs) {
        Ok(v) => v,
        Err(e) => {
            return Err(e);
        },
    };
    proof {
        lemma_pow_positive(10, exponent_abs as nat);
    }

    let mut scale_mul: i128 = 1;
    let mut scale_div: i128 = 1;
    if precision > MARK_PRICE_PRECISION {
        let d = precision / MARK_PRICE_PRECISION;
        proof {
            lemma_fundamental_div_mod(precision as int, MARK_PRICE_PRECISION as int);
            lemma_div_is_ordered(
                MARK_PRICE_PRECISION as int,
                precision as int,
                MARK_PRICE_PRECISION as int,
            );
            lemma_div_by_self(MARK_PRICE_PRECISION as int);
        }
        scale_div = d as i128;
    } else {
        scale_mul = (MARK_PRICE_PRECISION / precision) as i128;
        proof {
            lemma_div_nonincreasing(MARK_PRICE_PRECISION as int, precision as int);
            lemma_div_is_ordered(precision as int, MARK_PRICE_PRECISION as int, precision as int);
            lemma_div_by_self(precision as int);
        }
    }
    proof {
        assert(1 <= scale_mul <= MARK_PRICE_PRECISION);
        assert(1 <= scale_div);
    }

    let wide_price = raw_price as i128;
    proof {
        assert(wide_price * scale_mul <= i64::MAX * (MARK_PRICE_PRECISION as int)
            && wide_price * scale_mul >= i64::MIN * (MARK_PRICE_PRECISION as int))
            by (nonlinear_arith)
            requires
                i64::MIN <= wide_price <= i64::MAX,
                1 <= scale_mul <= MARK_PRICE_PRECISION;
    }
    let multiplied = match wide_price.checked_mul(scale_mul) {
        Some(v) => v,
        None => {
            return Err(Errors::MathError);
        },
    };
    proof {
        if multiplied >= 0 {
            lemma_div_nonincreasing(multiplied as int, scale_div as int);
            lemma_div_pos_is_pos(multiplied as int, scale_div as int);
        } else {
            lemma_div_nonincreasing((multiplied * -1) as int, scale_div as int);
            lemma_div_pos_is_pos((multiplied * -1) as int, scale_div as int);
        }
    }
    match multiplied.checked_div(scale_div) {
        Some(v) => Ok(v),
        None => Err(Errors::MathError),
    }
}

/// Scales an unsigned confidence magnitude with the given decimal
/// exponent to mark-price precision. Fails with `MathError` only when the
/// exponent's precision exceeds 128 bits.
pub fn scale_oracle_conf(raw_conf: u64, exponent: i32) -> (r: ClearingHouseResult<u128>)
    ensures
        decimal_precision(exponent) > u128::MAX ==> r == Err::<u128, Errors>(Errors::MathError),
        decimal_precision(exponent) <= u128::MAX ==> (r matches Ok(c) && c == (raw_conf
            * oracle_scale_mul(decimal_precision(exponent))) / oracle_scale_div(
            decimal_precision(exponent),
        )),
{
    let exponent_abs = unsigned_abs_i32(exponent);
    let precision = match pow10_u128(exponent_abs) {
        Ok(v) => v,
        Err(e) => {
            return Err(e);
        },
    };
    proof {
        lemma_pow_positive(10, exponent_abs as nat);
    }

    let mut scale_mul: u128 = 1;
    let mut scale_div: u128 = 1;
    if precision > MARK_PRICE_PRECISION {
        scale_div = precision / MARK_PRICE_PRECISION;
        proof {
            lemma_div_is_ordered(
                MARK_PRICE_PRECISION as int,
                precision as int,
                MARK_PRICE_PRECISION as int,
            );
            lemma_div_by_self(MARK_PRICE_PRECISION as int);
        }
    } else {
        scale_mul = MARK_PRICE_PRECISION / precision;
        proof {
            lemma_div_nonincreasing(MARK_PRICE_PRECISION as int, precision as int);
            lemma_div_is_ordered(precision as int, MARK_PRICE_PRECISION as int, precision as int);
            lemma_div_by_self(precision as int);
        }
    }
    proof {
        assert(1 <= scale_mul <= MARK_PRICE_PRECISION);
        assert(1 <= scale_div);
        assert(raw_conf * scale_mul <= u64::MAX * (MARK_PRICE_PRECISION as int))
            by (nonlinear_arith)
            requires
                raw_conf <= u64::MAX,
                1 <= scale_mul <= MARK_PRICE_PRECISION;
    }

    let multiplied = match (raw_conf as u128).checked_mul(scale_mul) {
        Some(v) => v,
        None => {
            return Err(Errors::MathError);
        },
    };
    match multiplied.checked_div(scale_div) {
        Some(v) => Ok(v),
        None => Err(Errors::MathError),
    }
}

} // verus!

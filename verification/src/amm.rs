//! Constant-product pricing over a market's reserves.
//!
//! A market's mark price is the quote/base reserve ratio, scaled by the peg
//! multiplier and lifted to mark-price precision. The whole computation
//! runs in wide-integer arithmetic and is narrowed back to `u128` only at
//! the end; any stage that cannot represent its value fails the operation.

use vstd::arithmetic::div_mod::{lemma_div_by_multiple, lemma_div_multiples_vanish_quotient};
use vstd::arithmetic::mul::lemma_mul_upper_bound;
use vstd::prelude::*;

use crate::bn::{word_base_3, U192};
use crate::constants::PRICE_TO_PEG_PRECISION_RATIO;
use crate::errors::{ClearingHouseResult, Errors};

verus! {

/// The exact mark price as a mathematical integer:
/// `quote * peg * ratio / (peg precision * base)` reduced to
/// `quote * peg * (ratio / peg precision) / base`, with the division
/// rounding toward zero.
pub open spec fn price_of(quote_asset_reserve: int, base_asset_reserve: int, peg_multiplier: int) -> int {
    (quote_asset_reserve * peg_multiplier * PRICE_TO_PEG_PRECISION_RATIO) / base_asset_reserve
}

/// Computes the mark price of a market from its reserves and peg
/// multiplier.
///
/// The price is `quote * peg / base`, lifted from peg precision to mark
/// price precision. Fails with `MathError` when `quote * peg` exceeds 128
/// bits or the base reserve is zero, and with `BnConversionError` when the
/// final price exceeds 128 bits; it never wraps or truncates.
pub fn calculate_price(
    quote_asset_reserve: u128,
    base_asset_reserve: u128,
    peg_multiplier: u128,
) -> (r: ClearingHouseResult<u128>)
    ensures
        (quote_asset_reserve * peg_multiplier > u128::MAX || base_asset_reserve == 0) <==> r
            == Err::<u128, Errors>(Errors::MathError),
        (quote_asset_reserve * peg_multiplier <= u128::MAX && base_asset_reserve != 0) ==> {
            let price = price_of(
                quote_asset_reserve as int,
                base_asset_reserve as int,
                peg_multiplier as int,
            );
            if price <= u128::MAX {
                r matches Ok(p) && p == price
            } else {
                r == Err::<u128, Errors>(Errors::BnConversionError)
            }
        },
{
    let peg_quote_asset_amount = match quote_asset_reserve.checked_mul(peg_multiplier) {
        Some(v) => v,
        None => {
            return Err(Errors::MathError);
        },
    };

    let wide = U192::from_u128(peg_quote_asset_amount).checked_mul(
        U192::from_u128(PRICE_TO_PEG_PRECISION_RATIO),
    );
    proof {
        lemma_mul_upper_bound(
            peg_quote_asset_amount as int,
            u128::MAX as int,
            PRICE_TO_PEG_PRECISION_RATIO as int,
            PRICE_TO_PEG_PRECISION_RATIO as int,
        );
        assert(peg_quote_asset_amount * PRICE_TO_PEG_PRECISION_RATIO < word_base_3());
    }
    let wide = match wide {
        Some(v) => v,
        None => {
            return Err(Errors::MathError);
        },
    };

    let quotient = match wide.checked_div(U192::from_u128(base_asset_reserve)) {
        Some(q) => q,
        None => {
            return Err(Errors::MathError);
        },
    };

    quotient.try_to_u128()
}

/// At equal reserves the reserve ratio cancels exactly: the price is the
/// peg multiplier lifted to mark-price precision, whatever the reserves.
pub proof fn lemma_price_at_equal_reserves(reserve: int, peg_multiplier: int)
    requires
        0 < reserve,
        0 <= peg_multiplier,
    ensures
        price_of(reserve, reserve, peg_multiplier) == peg_multiplier
            * PRICE_TO_PEG_PRECISION_RATIO,
{
    let lifted_peg = peg_multiplier * PRICE_TO_PEG_PRECISION_RATIO;
    assert(reserve * peg_multiplier * PRICE_TO_PEG_PRECISION_RATIO == lifted_peg * reserve)
        by (nonlinear_arith)
        requires
            lifted_peg == peg_multiplier * PRICE_TO_PEG_PRECISION_RATIO;
    assert(0 <= lifted_peg) by (nonlinear_arith)
        requires
            0 <= peg_multiplier,
            lifted_peg == peg_multiplier * PRICE_TO_PEG_PRECISION_RATIO;
    lemma_div_by_multiple(lifted_peg, reserve);
}

/// Scaling both reserves by the same positive factor leaves the price
/// unchanged: the factor cancels between numerator and denominator.
pub proof fn lemma_price_scale_invariant(
    quote_asset_reserve: int,
    base_asset_reserve: int,
    peg_multiplier: int,
    scale: int,
)
    requires
        0 < scale,
        0 < base_asset_reserve,
        0 <= quote_asset_reserve,
        0 <= peg_multiplier,
    ensures
        price_of(scale * quote_asset_reserve, scale * base_asset_reserve, peg_multiplier)
            == price_of(quote_asset_reserve, base_asset_reserve, peg_multiplier),
{
    let numerator = quote_asset_reserve * peg_multiplier * PRICE_TO_PEG_PRECISION_RATIO;
    assert(scale * quote_asset_reserve * peg_multiplier * PRICE_TO_PEG_PRECISION_RATIO == scale
        * numerator) by (nonlinear_arith)
        requires
            numerator == quote_asset_reserve * peg_multiplier * PRICE_TO_PEG_PRECISION_RATIO;
    assert(0 <= numerator) by (nonlinear_arith)
        requires
            0 <= quote_asset_reserve,
            0 <= peg_multiplier,
            numerator == quote_asset_reserve * peg_multiplier * PRICE_TO_PEG_PRECISION_RATIO;
    lemma_div_multiples_vanish_quotient(scale, numerator, base_asset_reserve);
}

} // verus!

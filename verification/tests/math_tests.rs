//! Tests of the wide-integer kernel, checked casts and the pricing
//! formula.

use clearing_house::amm::calculate_price;
use clearing_house::bn::{U192, U256};
use clearing_house::cast::{cast_to_i128, cast_to_i64, cast_to_u128, cast_u64_to_i64};
use clearing_house::constants::{MARK_PRICE_PRECISION, PEG_PRECISION};
use clearing_house::errors::Errors;

#[test]
fn test_calculate_price() {
    assert_eq!(
        calculate_price(1000, 1000, 1000).unwrap(),
        MARK_PRICE_PRECISION
    );
}

#[test]
fn test_cast_to_i128() {
    let mut t = i128::MAX as u128;
    assert_eq!(cast_to_i128(t).unwrap(), i128::MAX);

    t = i128::MAX as u128 + 1;
    assert!(cast_to_i128(t).is_err());
}

#[test]
fn test_cast_to_i64() {
    let mut t = i64::MAX as u128;
    assert_eq!(cast_to_i64(t).unwrap(), i64::MAX);

    t = i64::MAX as u128 + 1;
    assert!(cast_to_i64(t).is_err());
}

#[test]
fn cast_to_u128_rejects_negatives() {
    assert_eq!(cast_to_u128(-1), Err(Errors::FailToCast));
    assert_eq!(cast_to_u128(0).unwrap(), 0);
    assert_eq!(cast_to_u128(i128::MAX).unwrap(), i128::MAX as u128);
}

#[test]
fn cast_u64_to_i64_checks_range() {
    assert_eq!(cast_u64_to_i64(i64::MAX as u64).unwrap(), i64::MAX);
    assert_eq!(
        cast_u64_to_i64(i64::MAX as u64 + 1),
        Err(Errors::FailToCast)
    );
}

#[test]
fn u192_narrowing_is_exact() {
    let v = U192::from_u128(u128::MAX);
    assert_eq!(v.try_to_u128().unwrap(), u128::MAX);
    assert!(v.to_u64().is_none());
    assert_eq!(v.try_to_u64(), Err(Errors::BnConversionError));

    let small = U192::from_u64(77);
    assert_eq!(small.to_u64().unwrap(), 77);
    assert_eq!(small.to_u128().unwrap(), 77);
}

#[test]
fn u192_checked_mul_is_exact_and_detects_overflow() {
    let a = U192::from_u128(1u128 << 100);
    let b = U192::from_u128(1u128 << 27);
    let p = a.checked_mul(b).unwrap();
    // 2^127 fits in u128, so the product narrows back exactly.
    assert_eq!(p.try_to_u128().unwrap(), 1u128 << 127);

    // 2^96 * 2^96 == 2^192, one past the largest U192 value.
    let big = U192::from_u128(1u128 << 96);
    assert!(big.checked_mul(big).is_none());

    // 2^96 * (2^96 - 1) < 2^192 still fits.
    let just_under = U192::from_u128((1u128 << 96) - 1);
    assert!(big.checked_mul(just_under).is_some());
}

#[test]
fn u192_checked_div_truncates_and_rejects_zero() {
    let n = U192::from_u128(10_000_000_007);
    let q = n.checked_div(U192::from_u128(10)).unwrap();
    assert_eq!(q.try_to_u128().unwrap(), 1_000_000_000);

    assert!(n.checked_div(U192::zero()).is_none());

    // A dividend wider than 128 bits: (2^100 * 2^60) / 2^60 == 2^100.
    let wide = U192::from_u128(1u128 << 100)
        .checked_mul(U192::from_u128(1u128 << 60))
        .unwrap();
    let back = wide.checked_div(U192::from_u128(1u128 << 60)).unwrap();
    assert_eq!(back.try_to_u128().unwrap(), 1u128 << 100);
}

#[test]
fn u256_holds_full_products() {
    let p = U256::from_mul_u128(u128::MAX, u128::MAX);
    // The full square cannot narrow back to 128 bits.
    assert_eq!(p.try_to_u128(), Err(Errors::BnConversionError));
    assert!(p.to_u128().is_none());

    let q = U256::from_mul_u128(1u128 << 64, 1u128 << 63);
    assert_eq!(q.try_to_u128().unwrap(), 1u128 << 127);

    let small = U256::from_u128(99);
    assert_eq!(small.to_u64().unwrap(), 99);
    assert_eq!(small.to_u128().unwrap(), 99);
}

#[test]
fn price_is_scale_invariant() {
    let base = calculate_price(1000, 1000, PEG_PRECISION).unwrap();
    assert_eq!(base, MARK_PRICE_PRECISION);
    assert_eq!(calculate_price(5000, 5000, PEG_PRECISION).unwrap(), base);
    assert_eq!(
        calculate_price(123_456_000, 123_456_000, PEG_PRECISION).unwrap(),
        base
    );
}

#[test]
fn price_follows_peg_and_reserve_ratio() {
    // Doubling the peg doubles the price.
    assert_eq!(
        calculate_price(1000, 1000, 2 * PEG_PRECISION).unwrap(),
        2 * MARK_PRICE_PRECISION
    );
    // Twice the quote per base doubles the price.
    assert_eq!(
        calculate_price(2000, 1000, PEG_PRECISION).unwrap(),
        2 * MARK_PRICE_PRECISION
    );
    // The division truncates.
    assert_eq!(
        calculate_price(1, 3, PEG_PRECISION).unwrap(),
        MARK_PRICE_PRECISION / 3
    );
}

#[test]
fn price_fails_loudly_not_silently() {
    // Zero base reserve: division is impossible.
    assert_eq!(calculate_price(1000, 0, 1000), Err(Errors::MathError));
    // quote * peg exceeds 128 bits.
    assert_eq!(calculate_price(u128::MAX, 1000, 2), Err(Errors::MathError));
    // The final price exceeds 128 bits.
    assert_eq!(
        calculate_price(u128::MAX, 1, 1),
        Err(Errors::BnConversionError)
    );
}

//! Tests of margin-ratio validation.

use clearing_house::constants::{MAXIMUM_MARGIN_RATIO, MINIMUM_MARGIN_RATIO};
use clearing_house::errors::Errors;
use clearing_house::margin_validation::margin_validation;

#[test]
fn test_margin_validation() {
    assert!(margin_validation(300, 250, 200).is_ok());
    assert!(margin_validation(199, 250, 200).is_err());
    assert!(margin_validation(300, 199, 200).is_err());
    assert!(margin_validation(300, 250, 199).is_err());
    assert!(margin_validation(249, 250, 200).is_err());
    assert!(margin_validation(300, 200, 201).is_err());
}

#[test]
fn margin_validation_range_boundaries() {
    // Exactly the bounds are accepted.
    assert!(margin_validation(MAXIMUM_MARGIN_RATIO, MINIMUM_MARGIN_RATIO, MINIMUM_MARGIN_RATIO).is_ok());
    assert!(margin_validation(MINIMUM_MARGIN_RATIO, MINIMUM_MARGIN_RATIO, MINIMUM_MARGIN_RATIO).is_ok());
    // One past the maximum is rejected.
    assert_eq!(
        margin_validation(MAXIMUM_MARGIN_RATIO + 1, 250, 200),
        Err(Errors::InvalidMarginRatio)
    );
    // Equal tiers everywhere are an acceptable ordering.
    assert!(margin_validation(500, 500, 500).is_ok());
}

//! Validation of a market's margin-ratio tiers.

use vstd::prelude::*;

use crate::constants::{MAXIMUM_MARGIN_RATIO, MINIMUM_MARGIN_RATIO};
use crate::errors::{ClearingHouseResult, Errors};

verus! {

/// A margin-ratio triple is acceptable exactly when every tier lies in
/// the configured range and the tiers are ordered
/// `initial >= partial >= maintenance`.
pub open spec fn margin_triple_valid(
    margin_ratio_initial: u32,
    margin_ratio_partial: u32,
    margin_ratio_maintenance: u32,
) -> bool {
    &&& MINIMUM_MARGIN_RATIO <= margin_ratio_initial <= MAXIMUM_MARGIN_RATIO
    &&& MINIMUM_MARGIN_RATIO <= margin_ratio_partial <= MAXIMUM_MARGIN_RATIO
    &&& MINIMUM_MARGIN_RATIO <= margin_ratio_maintenance <= MAXIMUM_MARGIN_RATIO
    &&& margin_ratio_initial >= margin_ratio_partial
    &&& margin_ratio_partial >= margin_ratio_maintenance
}

/// Checks a market's margin-ratio tiers.
///
/// Succeeds exactly when all three ratios lie in
/// `[MINIMUM_MARGIN_RATIO, MAXIMUM_MARGIN_RATIO]` and
/// `initial >= partial >= maintenance`; any violation fails with
/// `InvalidMarginRatio`.
pub fn margin_validation(
    margin_ratio_initial: u32,
    margin_ratio_partial: u32,
    margin_ratio_maintenance: u32,
) -> (r: ClearingHouseResult)
    ensures
        r is Ok <==> margin_triple_valid(
            margin_ratio_initial,
            margin_ratio_partial,
            margin_ratio_maintenance,
        ),
        r is Err ==> r == Err::<(), Errors>(Errors::InvalidMarginRatio),
{
    if margin_ratio_initial < MINIMUM_MARGIN_RATIO || margin_ratio_initial > MAXIMUM_MARGIN_RATIO {
        return Err(Errors::InvalidMarginRatio);
    }

    if margin_ratio_initial < margin_ratio_partial {
        return Err(Errors::InvalidMarginRatio);
    }

    if margin_ratio_partial < MINIMUM_MARGIN_RATIO || margin_ratio_partial > MAXIMUM_MARGIN_RATIO {
        return Err(Errors::InvalidMarginRatio);
    }

    if margin_ratio_partial < margin_ratio_maintenance {
        return Err(Errors::InvalidMarginRatio);
    }

    if margin_ratio_maintenance < MINIMUM_MARGIN_RATIO
        || margin_ratio_maintenance > MAXIMUM_MARGIN_RATIO {
        return Err(Errors::InvalidMarginRatio);
    }

    Ok(())
}

} // verus!

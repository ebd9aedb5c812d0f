//! Typed failures of the clearing-house engine.
//!
//! Every operation fails fast with one of these values; no error is ever
//! downgraded to a default or saturated result.

use vstd::prelude::*;

verus! {

/// Every failure class of the engine: arithmetic (overflow, lossy cast,
/// narrowing), validation (margin ratios, initial peg, order size,
/// reduce-only), state (double initialization, capacity, bad index,
/// whitelist), and oracle (unloadable or undecodable feed).
#[derive(Clone, Copy, Debug, PartialEq, Eq, Structural)]
pub enum Errors {
    /// The clearing house is not the owner of the collateral vault.
    InvalidCollateralVaultAuthority,
    /// The clearing house is not the owner of the insurance vault.
    InvalidInsuranceVaultAuthority,
    /// All six history logs are already attached to the global state.
    HistoriesAllInitialized,
    /// The order state singleton is already attached to the global state.
    OrderStateAlreadyInitialized,
    /// The market slot at this index is already initialized.
    MarketIndexAlreadyInitialized,
    /// Initial base and quote reserves differ, so the genesis peg is not 1:1.
    InvalidInitialPeg,
    /// An arithmetic step overflowed, underflowed or divided by zero.
    MathError,
    /// A wide-integer value does not fit into u128 or u64.
    BnConversionError,
    /// The oracle account could not be loaded.
    FailToLoadOracle,
    /// The oracle payload could not be decoded.
    FailToDeserialize,
    /// A value does not fit into the target integer width.
    FailToCast,
    /// A margin-ratio triple is out of range or out of order.
    InvalidMarginRatio,
    /// No whitelist token account was supplied although one is required.
    FailToFindWhitelistToken,
    /// The supplied whitelist token account is not acceptable.
    InvalidWhitelistToken,
    /// The supplied whitelist token account has a zero balance.
    WhitelistTokenNoBalance,
    /// A market index lies outside the registry's fixed capacity.
    InvalidMarketIndex,
    /// The user already holds positions or orders in the maximum number of
    /// distinct markets.
    MaxNumberOfPositions,
    /// An order's quote amount is below the configured minimum.
    OrderAmountTooSmall,
    /// A reduce-only order would increase the magnitude of the position.
    ReduceOnlyOrderIncreasedRisk,
}

/// Result of one engine operation: the value on success, a typed error
/// otherwise.
pub type ClearingHouseResult<T = ()> = Result<T, Errors>;

} // verus!

//! Creation of a user account, gated by an optional whitelist token.
//!
//! When the global configuration names a whitelist mint, a caller may
//! only create a user account by presenting a token account of that
//! mint, owned by the caller, with a positive balance.

use vstd::prelude::*;

use crate::errors::{ClearingHouseResult, Errors};
use crate::ids::AccountKey;
use crate::user::{User, UserPositions};

verus! {

/// The fields of a whitelist token account that admission control reads.
#[derive(Clone, Copy, Debug, PartialEq, Eq, Structural)]
pub struct WhitelistToken {
    /// Mint the token belongs to.
    pub mint: AccountKey,
    /// Owner of the token account.
    pub owner: AccountKey,
    /// Token balance.
    pub amount: u64,
}

/// Resolves the whitelist token a caller supplied.
///
/// A caller that does not claim to hold one resolves to nothing. One
/// that does must supply exactly one token account, of the whitelist
/// mint; anything else fails.
pub fn get_whitelist_token(
    whitelist_token_supplied: bool,
    supplied_accounts: &Vec<WhitelistToken>,
    whitelist_mint: &AccountKey,
) -> (r: ClearingHouseResult<Option<WhitelistToken>>)
    ensures
        !whitelist_token_supplied ==> r == Ok::<Option<WhitelistToken>, Errors>(
            None::<WhitelistToken>,
        ),
        whitelist_token_supplied && supplied_accounts@.len() != 1 ==> r == Err::<
            Option<WhitelistToken>,
            Errors,
        >(Errors::FailToFindWhitelistToken),
        whitelist_token_supplied && supplied_accounts@.len() == 1 ==> {
            if supplied_accounts@[0].mint == *whitelist_mint {
                r == Ok::<Option<WhitelistToken>, Errors>(Some(supplied_accounts@[0]))
            } else {
                r == Err::<Option<WhitelistToken>, Errors>(Errors::InvalidWhitelistToken)
            }
        },
{
    if !whitelist_token_supplied {
        return Ok(None);
    }

    if supplied_accounts.len() != 1 {
        return Err(Errors::FailToFindWhitelistToken);
    }

    let token_account = &supplied_accounts[0];
    if !(token_account.mint == *whitelist_mint) {
        return Err(Errors::InvalidWhitelistToken);
    }

    Ok(Some(*token_account))
}

/// Creates a user account and its empty position set.
///
/// With a whitelist mint configured, the caller must present a token of
/// that mint, owned by the caller's authority, with a positive balance:
/// a missing token fails with `FailToFindWhitelistToken`, a foreign
/// owner with `InvalidWhitelistToken`, and an empty balance with
/// `WhitelistTokenNoBalance`. Without a whitelist mint, anyone may join.
pub fn initialize(
    whitelist_mint: AccountKey,
    whitelist_token: Option<WhitelistToken>,
    authority: AccountKey,
    user_key: AccountKey,
    user_positions_key: AccountKey,
) -> (r: ClearingHouseResult<(User, UserPositions)>)
    ensures
        !whitelist_mint.spec_is_zero() && whitelist_token is None ==> r == Err::<
            (User, UserPositions),
            Errors,
        >(Errors::FailToFindWhitelistToken),
        !whitelist_mint.spec_is_zero() && (whitelist_token matches Some(t) && t.owner != authority)
            ==> r == Err::<(User, UserPositions), Errors>(Errors::InvalidWhitelistToken),
        !whitelist_mint.spec_is_zero() && (whitelist_token matches Some(t) && t.owner == authority
            && t.amount == 0) ==> r == Err::<(User, UserPositions), Errors>(
            Errors::WhitelistTokenNoBalance,
        ),
        (whitelist_mint.spec_is_zero() || (whitelist_token matches Some(t) && t.owner == authority
            && t.amount != 0)) ==> (r matches Ok(created) && {
            &&& created.0.authority == authority
            &&& created.0.positions == user_positions_key
            &&& created.0.collateral == 0
            &&& created.0.cumulative_deposits == 0
            &&& created.1.user == user_key
            &&& created.1.wf()
            &&& forall|i: int|
                0 <= i < 5 ==> created.1.positions@[i].spec_is_available()
        }),
{
    if !whitelist_mint.is_zero() {
        let token = match whitelist_token {
            Some(t) => t,
            None => {
                return Err(Errors::FailToFindWhitelistToken);
            },
        };
        if !(token.owner == authority) {
            return Err(Errors::InvalidWhitelistToken);
        }
        if token.amount == 0 {
            return Err(Errors::WhitelistTokenNoBalance);
        }
    }

    let user = User::new(authority, user_positions_key);
    let user_positions = UserPositions::new(user_key);
    Ok((user, user_positions))
}

} // verus!

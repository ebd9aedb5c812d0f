//! Collateral movements into a user's account.

use vstd::prelude::*;

use crate::deposit_history::{DepositDirection, DepositHistory, DepositRecord};
use crate::errors::{ClearingHouseResult, Errors};
use crate::history::next_id;
use crate::ids::AccountKey;
use crate::user::User;

verus! {

/// Credits a deposit to a user and records it.
///
/// On success the collateral and the lifetime net deposits both grow by
/// the amount, and the deposit log gains a record carrying the balances
/// before the movement. Overflow of either balance fails with
/// `MathError` and changes nothing.
pub fn deposit_collateral(
    user: &mut User,
    amount: u64,
    now: i64,
    deposit_history: &mut DepositHistory,
    user_key: AccountKey,
) -> (r: ClearingHouseResult)
    requires
        old(deposit_history).wf(),
        next_id(old(deposit_history).ids(), old(deposit_history).spec_head()) <= u128::MAX,
    ensures
        final(deposit_history).wf(),
        r is Ok <==> (old(user).collateral + amount <= u128::MAX && old(user).cumulative_deposits
            + amount <= i128::MAX),
        r is Err ==> r == Err::<(), Errors>(Errors::MathError) && *final(user) == *old(user)
            && final(deposit_history).records() == old(deposit_history).records() && final(deposit_history).spec_head() == old(deposit_history).spec_head(),
        r is Ok ==> {
            &&& *final(user) == (User {
                collateral: (old(user).collateral + amount) as u128,
                cumulative_deposits: (old(user).cumulative_deposits + amount) as i128,
                ..*old(user)
            })
            &&& final(deposit_history).spec_head() == (old(deposit_history).spec_head() + 1) % 1024
            &&& final(deposit_history).records() == old(deposit_history).records().update(
                old(deposit_history).spec_head() as int,
                DepositRecord {
                    ts: now,
                    amount,
                    record_id: next_id(
                        old(deposit_history).ids(),
                        old(deposit_history).spec_head(),
                    ) as u128,
                    user_authority: old(user).authority,
                    user: user_key,
                    collateral_before: old(user).collateral,
                    cumulative_deposits_before: old(user).cumulative_deposits,
                    direction: DepositDirection::Deposit,
                },
            )
        },
{
    let new_collateral = match user.collateral.checked_add(amount as u128) {
        Some(v) => v,
        None => {
            return Err(Errors::MathError);
        },
    };
    let new_cumulative = match user.cumulative_deposits.checked_add(amount as i128) {
        Some(v) => v,
        None => {
            return Err(Errors::MathError);
        },
    };

    let record_id = deposit_history.next_record_id();
    let record = DepositRecord {
        ts: now,
        amount,
        record_id,
        user_authority: user.authority,
        user: user_key,
        collateral_before: user.collateral,
        cumulative_deposits_before: user.cumulative_deposits,
        direction: DepositDirection::Deposit,
    };
    deposit_history.append(record);

    user.collateral = new_collateral;
    user.cumulative_deposits = new_cumulative;

    Ok(())
}

} // verus!

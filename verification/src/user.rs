//! Users and their fixed-capacity position sets.
//!
//! Each user owns at most five concurrent market-position slots. A slot
//! belongs to a market while it has an open position or open orders, and
//! is available for reuse once both are gone; a user can therefore never
//! hold exposure in more than five distinct markets at once.

use vstd::prelude::*;

use crate::errors::{ClearingHouseResult, Errors};
use crate::ids::AccountKey;

verus! {

/// One trading identity: collateral, fee accumulators and the identity
/// of its position set.
#[derive(Clone, Copy, Debug, PartialEq, Eq, Structural)]
pub struct User {
    /// Owner of the account.
    pub authority: AccountKey,
    /// Collateral currently deposited.
    pub collateral: u128,
    /// Lifetime net deposits; negative means net withdrawals.
    pub cumulative_deposits: i128,
    /// Fees paid over the account's lifetime.
    pub total_fee_paid: u64,
    /// Fee rebates received over the account's lifetime.
    pub total_fee_rebate: u64,
    /// Lifetime discount earned from discount-token holdings.
    pub total_token_discount: u128,
    /// Lifetime rewards earned for referring others.
    pub total_referral_reward: u128,
    /// Lifetime discounts earned for having been referred.
    pub total_referee_discount: u128,
    /// Identity of the account's position set.
    pub positions: AccountKey,
    /// Value locked when positions were force-settled.
    pub settled_position_value: u128,
    /// Collateral already claimed back after settlement.
    pub collateral_claimed: u64,
    /// Collateral claimable at the most recent settlement.
    pub last_collateral_available_to_claim: u64,
    /// Whether the user declined position settlement.
    pub forgo_position_settlement: bool,
    /// Whether the user holds a settled position.
    pub has_settled_position: bool,
}

impl User {
    /// A fresh account for the given authority, owning the given position
    /// set and holding nothing.
    pub fn new(authority: AccountKey, positions: AccountKey) -> (r: User)
        ensures
            r == (User {
                authority,
                collateral: 0,
                cumulative_deposits: 0,
                total_fee_paid: 0,
                total_fee_rebate: 0,
                total_token_discount: 0,
                total_referral_reward: 0,
                total_referee_discount: 0,
                positions,
                settled_position_value: 0,
                collateral_claimed: 0,
                last_collateral_available_to_claim: 0,
                forgo_position_settlement: false,
                has_settled_position: false,
            }),
    {
        User {
            authority,
            collateral: 0,
            cumulative_deposits: 0,
            total_fee_paid: 0,
            total_fee_rebate: 0,
            total_token_discount: 0,
            total_referral_reward: 0,
            total_referee_discount: 0,
            positions,
            settled_position_value: 0,
            collateral_claimed: 0,
            last_collateral_available_to_claim: 0,
            forgo_position_settlement: false,
            has_settled_position: false,
        }
    }
}

/// One market-position slot of a user.
#[derive(Clone, Copy, Debug, PartialEq, Eq, Structural)]
pub struct MarketPosition {
    /// Market the slot belongs to.
    pub market_index: u64,
    /// Timestamp of the most recent funding settlement.
    pub last_funding_rate_ts: i64,
    /// Signed base exposure: positive long, negative short, zero flat.
    pub base_asset_amount: i128,
    /// Signed quote amount entered to build the exposure.
    pub quote_asset_amount: i128,
    /// Cumulative funding rate the slot last settled against.
    pub last_cumulative_funding_rate: i128,
    /// Cumulative repeg rebate the slot last settled against.
    pub last_cumulative_repeg_rebate: i128,
    /// Number of open orders resting in the market.
    pub open_orders: u128,
}

impl MarketPosition {
    /// Whether the slot has any resting orders.
    pub open spec fn spec_has_open_order(self) -> bool {
        self.open_orders != 0
    }

    /// Whether the slot holds a nonzero position.
    pub open spec fn spec_is_open_position(self) -> bool {
        self.base_asset_amount != 0
    }

    /// Whether the slot is free for reuse: no position and no orders.
    pub open spec fn spec_is_available(self) -> bool {
        !self.spec_is_open_position() && !self.spec_has_open_order()
    }

    /// Whether the slot actively belongs to the given market.
    pub open spec fn spec_is_for(self, market_index: u64) -> bool {
        self.market_index == market_index && (self.spec_is_open_position()
            || self.spec_has_open_order())
    }

    /// Whether the slot actively belongs to the given market.
    pub fn is_for(&self, market_index: u64) -> (r: bool)
        ensures
            r == self.spec_is_for(market_index),
    {
        self.market_index == market_index && (self.is_open_position() || self.has_open_order())
    }

    /// Whether the slot has any resting orders.
    pub fn has_open_order(&self) -> (r: bool)
        ensures
            r == self.spec_has_open_order(),
    {
        self.open_orders != 0
    }

    /// Whether the slot holds a nonzero position.
    pub fn is_open_position(&self) -> (r: bool)
        ensures
            r == self.spec_is_open_position(),
    {
        self.base_asset_amount != 0
    }

    /// Whether the slot is free for reuse: no position and no orders.
    pub fn is_available(&self) -> (r: bool)
        ensures
            r == self.spec_is_available(),
    {
        !self.is_open_position() && !self.has_open_order()
    }

    /// An empty slot.
    pub fn zeroed() -> (r: MarketPosition)
        ensures
            r == MarketPosition::spec_zeroed(),
    {
        MarketPosition {
            market_index: 0,
            last_funding_rate_ts: 0,
            base_asset_amount: 0,
            quote_asset_amount: 0,
            last_cumulative_funding_rate: 0,
            last_cumulative_repeg_rebate: 0,
            open_orders: 0,
        }
    }

    /// The empty slot value.
    pub open spec fn spec_zeroed() -> MarketPosition {
        MarketPosition {
            market_index: 0,
            last_funding_rate_ts: 0,
            base_asset_amount: 0,
            quote_asset_amount: 0,
            last_cumulative_funding_rate: 0,
            last_cumulative_repeg_rebate: 0,
            open_orders: 0,
        }
    }
}

/// The first slot at or after `i` that is active in the given market.
pub open spec fn find_active(s: Seq<MarketPosition>, market_index: u64, i: int) -> Option<int>
    decreases s.len() - i,
{
    if i < 0 || i >= s.len() {
        None
    } else if s[i].spec_is_for(market_index) {
        Some(i)
    } else {
        find_active(s, market_index, i + 1)
    }
}

/// The first slot at or after `i` that is available and last held the
/// given market.
pub open spec fn find_matching(s: Seq<MarketPosition>, market_index: u64, i: int) -> Option<int>
    decreases s.len() - i,
{
    if i < 0 || i >= s.len() {
        None
    } else if s[i].spec_is_available() && s[i].market_index == market_index {
        Some(i)
    } else {
        find_matching(s, market_index, i + 1)
    }
}

/// The first slot at or after `i` that is available.
pub open spec fn find_available(s: Seq<MarketPosition>, i: int) -> Option<int>
    decreases s.len() - i,
{
    if i < 0 || i >= s.len() {
        None
    } else if s[i].spec_is_available() {
        Some(i)
    } else {
        find_available(s, i + 1)
    }
}

/// Characterizes each finder: it returns no index exactly when no slot
/// at or after `i` qualifies, and otherwise the first qualifying index.
pub proof fn lemma_find_active(s: Seq<MarketPosition>, market_index: u64, i: int)
    requires
        0 <= i,
    ensures
        (find_active(s, market_index, i) is None) <==> (forall|j: int|
            i <= j < s.len() ==> !s[j].spec_is_for(market_index)),
        find_active(s, market_index, i) matches Some(k) ==> i <= k < s.len()
            && s[k].spec_is_for(market_index) && (forall|j: int|
            i <= j < k ==> !s[j].spec_is_for(market_index)),
    decreases s.len() - i,
{
    if i < s.len() {
        lemma_find_active(s, market_index, i + 1);
    }
}

/// Characterizes `find_matching` the same way.
pub proof fn lemma_find_matching(s: Seq<MarketPosition>, market_index: u64, i: int)
    requires
        0 <= i,
    ensures
        (find_matching(s, market_index, i) is None) <==> (forall|j: int|
            i <= j < s.len() ==> !(s[j].spec_is_available() && s[j].market_index == market_index)),
        find_matching(s, market_index, i) matches Some(k) ==> i <= k < s.len()
            && s[k].spec_is_available() && s[k].market_index == market_index && (forall|j: int|
            i <= j < k ==> !(s[j].spec_is_available() && s[j].market_index == market_index)),
    decreases s.len() - i,
{
    if i < s.len() {
        lemma_find_matching(s, market_index, i + 1);
    }
}

/// Characterizes `find_available` the same way.
pub proof fn lemma_find_available(s: Seq<MarketPosition>, i: int)
    requires
        0 <= i,
    ensures
        (find_available(s, i) is None) <==> (forall|j: int|
            i <= j < s.len() ==> !s[j].spec_is_available()),
        find_available(s, i) matches Some(k) ==> i <= k < s.len() && s[k].spec_is_available() && (
        forall|j: int| i <= j < k ==> !s[j].spec_is_available()),
    decreases s.len() - i,
{
    if i < s.len() {
        lemma_find_available(s, i + 1);
    }
}

/// A user's position set: at most five concurrent market slots.
pub struct UserPositions {
    /// Identity of the owning user account.
    pub user: AccountKey,
    /// The five position slots.
    pub positions: Vec<MarketPosition>,
}

impl UserPositions {
    /// Well-formedness: all five slots allocated.
    pub open spec fn wf(self) -> bool {
        self.positions@.len() == 5
    }

    /// The slot an operation on the given market works in, by the
    /// allocation policy: the slot already active in the market if one
    /// exists, else an available slot that last held the market, else the
    /// first available slot, else a capacity failure.
    pub open spec fn spec_resolve_slot(self, market_index: u64) -> Result<int, Errors> {
        match find_active(self.positions@, market_index, 0) {
            Some(i) => Ok(i),
            None => match find_matching(self.positions@, market_index, 0) {
                Some(i) => Ok(i),
                None => match find_available(self.positions@, 0) {
                    Some(i) => Ok(i),
                    None => Err(Errors::MaxNumberOfPositions),
                },
            },
        }
    }

    /// A fresh position set for the given user, all slots available.
    pub fn new(user: AccountKey) -> (r: UserPositions)
        ensures
            r.wf(),
            r.user == user,
            forall|i: int| 0 <= i < 5 ==> r.positions@[i] == MarketPosition::spec_zeroed(),
    {
        let mut positions: Vec<MarketPosition> = Vec::new();
        let mut i: usize = 0;
        while i < 5
            invariant
                i <= 5,
                positions@.len() == i,
                forall|k: int| 0 <= k < i ==> positions@[k] == MarketPosition::spec_zeroed(),
            decreases 5 - i,
        {
            positions.push(MarketPosition::zeroed());
            i = i + 1;
        }
        UserPositions { user, positions }
    }

    /// Resolves the slot an operation on the given market works in,
    /// following the allocation policy exactly; fails with
    /// `MaxNumberOfPositions` when the market is new to the user and no
    /// slot is free.
    pub fn resolve_slot(&self, market_index: u64) -> (r: ClearingHouseResult<usize>)
        requires
            self.wf(),
        ensures
            (r matches Ok(i) && self.spec_resolve_slot(market_index) == Ok::<int, Errors>(i as int))
                || (r matches Err(e) && self.spec_resolve_slot(market_index) == Err::<int, Errors>(
            e)),
    {
        let mut active: Option<usize> = None;
        let mut matching: Option<usize> = None;
        let mut available: Option<usize> = None;
        let mut i: usize = 0;
        while i < 5
            invariant
                self.wf(),
                i <= 5,
                match active {
                    Some(k) => k < i && self.positions@[k as int].spec_is_for(market_index)
                        && (forall|j: int|
                        0 <= j < k ==> !self.positions@[j].spec_is_for(market_index)),
                    None => forall|j: int|
                        0 <= j < i ==> !self.positions@[j].spec_is_for(market_index),
                },
                match matching {
                    Some(k) => k < i && self.positions@[k as int].spec_is_available()
                        && self.positions@[k as int].market_index == market_index && (forall|j: int|
                        0 <= j < k ==> !(self.positions@[j].spec_is_available()
                            && self.positions@[j].market_index == market_index)),
                    None => forall|j: int|
                        0 <= j < i ==> !(self.positions@[j].spec_is_available()
                            && self.positions@[j].market_index == market_index),
                },
                match available {
                    Some(k) => k < i && self.positions@[k as int].spec_is_available() && (forall|
                        j: int,
                    |
                        0 <= j < k ==> !self.positions@[j].spec_is_available()),
                    None => forall|j: int| 0 <= j < i ==> !self.positions@[j].spec_is_available(),
                },
            decreases 5 - i,
        {
            let slot = &self.positions[i];
            if active.is_none() && slot.is_for(market_index) {
                active = Some(i);
            }
            if matching.is_none() && slot.is_available() && slot.market_index == market_index {
                matching = Some(i);
            }
            if available.is_none() && slot.is_available() {
                available = Some(i);
            }
            i = i + 1;
        }

        proof {
            lemma_find_active(self.positions@, market_index, 0);
            lemma_find_matching(self.positions@, market_index, 0);
            lemma_find_available(self.positions@, 0);
            match active {
                Some(k) => lemma_find_active_hits(self.positions@, market_index, 0, k as int),
                None => {},
            }
            match matching {
                Some(k) => lemma_find_matching_hits(self.positions@, market_index, 0, k as int),
                None => {},
            }
            match available {
                Some(k) => lemma_find_available_hits(self.positions@, 0, k as int),
                None => {},
            }
        }

        match (active, matching, available) {
            (Some(i), _, _) => Ok(i),
            (None, Some(i), _) => Ok(i),
            (None, None, Some(i)) => Ok(i),
            (None, None, None) => Err(Errors::MaxNumberOfPositions),
        }
    }
}

/// When `k` is the first index whose slot is active in the market, the
/// finder returns exactly `k`.
pub proof fn lemma_find_active_hits(s: Seq<MarketPosition>, market_index: u64, i: int, k: int)
    requires
        0 <= i <= k < s.len(),
        s[k].spec_is_for(market_index),
        forall|j: int| i <= j < k ==> !s[j].spec_is_for(market_index),
    ensures
        find_active(s, market_index, i) == Some(k),
    decreases k - i,
{
    if i < k {
        lemma_find_active_hits(s, market_index, i + 1, k);
    }
}

/// When `k` is the first index whose slot is available with a matching
/// market, the finder returns exactly `k`.
pub proof fn lemma_find_matching_hits(s: Seq<MarketPosition>, market_index: u64, i: int, k: int)
    requires
        0 <= i <= k < s.len(),
        s[k].spec_is_available() && s[k].market_index == market_index,
        forall|j: int| i <= j < k ==> !(s[j].spec_is_available() && s[j].market_index
            == market_index),
    ensures
        find_matching(s, market_index, i) == Some(k),
    decreases k - i,
{
    if i < k {
        lemma_find_matching_hits(s, market_index, i + 1, k);
    }
}

/// When `k` is the first index whose slot is available, the finder
/// returns exactly `k`.
pub proof fn lemma_find_available_hits(s: Seq<MarketPosition>, i: int, k: int)
    requires
        0 <= i <= k < s.len(),
        s[k].spec_is_available(),
        forall|j: int| i <= j < k ==> !s[j].spec_is_available(),
    ensures
        find_available(s, i) == Some(k),
    decreases k - i,
{
    if i < k {
        lemma_find_available_hits(s, i + 1, k);
    }
}

/// A user can never hold exposure in a sixth distinct market: when every
/// slot is busy and none belongs to the requested market, resolution
/// fails with the capacity error.
pub proof fn lemma_no_sixth_market(user_positions: UserPositions, market_index: u64)
    requires
        user_positions.wf(),
        forall|j: int| 0 <= j < 5 ==> !user_positions.positions@[j].spec_is_available(),
        forall|j: int| 0 <= j < 5 ==> !user_positions.positions@[j].spec_is_for(market_index),
    ensures
        user_positions.spec_resolve_slot(market_index) == Err::<int, Errors>(
            Errors::MaxNumberOfPositions,
        ),
{
    lemma_find_active(user_positions.positions@, market_index, 0);
    lemma_find_matching(user_positions.positions@, market_index, 0);
    lemma_find_available(user_positions.positions@, 0);
}

/// Closing a position frees its slot: as soon as any slot is available,
/// resolution succeeds for every market.
pub proof fn lemma_freed_slot_accepts(user_positions: UserPositions, market_index: u64, k: int)
    requires
        user_positions.wf(),
        0 <= k < 5,
        user_positions.positions@[k].spec_is_available(),
    ensures
        user_positions.spec_resolve_slot(market_index) is Ok,
{
    lemma_find_available(user_positions.positions@, 0);
}

} // verus!

//! Index pools: the admin creates pools and adds weighted assets;
//! investors deposit for shares priced against the pool's value and
//! withdraw them again; a proposed rebalance moves every asset to its
//! target weight once the targets add up to 100%.
use vstd::prelude::*;
use std::collections::HashMap;
use crate::common::{Address, Text, fits_i128, tdiv_signed, div_trunc};

verus! {

broadcast use vstd::std_specs::hash::group_hash_axioms;

#[derive(Clone, Copy, Debug, PartialEq, Eq, Structural)]
pub enum IndexTokenError {
    NotInitialized,
    AlreadyInitialized,
    Unauthorized,
    InvalidParameters,
    PoolNotFound,
    AssetNotFound,
    InvalidWeight,
    RebalanceAlreadyActive,
    NoRebalancePending,
    SlippageExceeded,
    InsufficientBalance,
    AssetAlreadyExists,
    InvalidTargetWeight,
}

#[derive(Clone, Debug)]
pub struct Asset {
    pub address: Address,
    pub symbol: Text,
    pub current_weight_bps: u32,
    pub target_weight_bps: u32,
    pub balance: i128,
}

#[derive(Clone, Debug)]
pub struct IndexPool {
    pub id: u32,
    pub name: Text,
    pub admin: Address,
    pub total_supply: i128,
    pub asset_count: u32,
    pub rebalance_threshold_bps: u32,
    pub last_rebalance: u64,
    pub active: bool,
}

#[derive(Clone, Copy, Debug, PartialEq, Eq, Structural)]
pub struct RebalanceProposal {
    pub pool_id: u32,
    pub proposed_at: u64,
    pub executed: bool,
}

/// The index contract's storage.  Asset `a` of pool `p` is stored under
/// `asset_key(p, a)`, the shares of `investor` in pool `p` under
/// `share_key(p, investor)`.
pub struct IndexTokenContract {
    pub admin: Option<Address>,
    pub pool_count: u32,
    pub pools: HashMap<u32, IndexPool>,
    pub assets: HashMap<u64, Asset>,
    pub asset_counts: HashMap<u32, u32>,
    pub proposals: HashMap<u32, RebalanceProposal>,
    pub tvl: HashMap<u32, i128>,
    pub shares: HashMap<u128, i128>,
}

pub open spec fn asset_key(pool_id: u32, asset_id: u32) -> u64 {
    (pool_id as int * 0x1_0000_0000 + asset_id as int) as u64
}

fn asset_key_of(pool_id: u32, asset_id: u32) -> (k: u64)
    ensures
        k == asset_key(pool_id, asset_id),
{
    pool_id as u64 * 0x1_0000_0000 + asset_id as u64
}

pub open spec fn share_key(pool_id: u32, investor: Address) -> u128 {
    (pool_id as int * 0x1_0000_0000_0000_0000 + investor as int) as u128
}

fn share_key_of(pool_id: u32, investor: Address) -> (k: u128)
    ensures
        k == share_key(pool_id, investor),
{
    pool_id as u128 * 0x1_0000_0000_0000_0000 + investor as u128
}

/// Assets `1..=n` of the pool are all stored.
pub open spec fn assets_present(m: Map<u64, Asset>, pool_id: u32, n: nat) -> bool {
    forall|i: u32| 1 <= i <= n ==> #[trigger] m.contains_key(asset_key(pool_id, i))
}

/// The sum of the target weights of assets `1..=n` of the pool.
pub open spec fn target_sum(m: Map<u64, Asset>, pool_id: u32, n: nat) -> int
    decreases n,
{
    if n == 0 {
        0
    } else {
        target_sum(m, pool_id, (n - 1) as nat) + m[asset_key(pool_id, n as u32)].target_weight_bps
    }
}

/// The assets with assets `1..=n` of the pool moved to their target
/// weights.
pub open spec fn rebalanced(m: Map<u64, Asset>, pool_id: u32, n: nat) -> Map<u64, Asset>
    decreases n,
{
    if n == 0 {
        m
    } else {
        let k = asset_key(pool_id, n as u32);
        rebalanced(m, pool_id, (n - 1) as nat).insert(
            k,
            Asset { current_weight_bps: m[k].target_weight_bps, ..m[k] },
        )
    }
}

/// Rebalancing the first `n` assets leaves other keys alone.
proof fn lemma_rebalanced_other(m: Map<u64, Asset>, pool_id: u32, n: nat, k: u64)
    requires
        n < 0x1_0000_0000,
        forall|j: u32| 1 <= j <= n ==> #[trigger] asset_key(pool_id, j) != k,
    ensures
        rebalanced(m, pool_id, n).contains_key(k) == m.contains_key(k),
        m.contains_key(k) ==> rebalanced(m, pool_id, n)[k] == m[k],
    decreases n,
{
    if n > 0 {
        assert(asset_key(pool_id, n as u32) != k);
        lemma_rebalanced_other(m, pool_id, (n - 1) as nat, k);
    }
}

impl IndexTokenContract {
    pub open spec fn spec_tvl(&self, pool_id: u32) -> i128 {
        if self.tvl@.contains_key(pool_id) {
            self.tvl@[pool_id]
        } else {
            0
        }
    }

    pub open spec fn spec_shares(&self, pool_id: u32, investor: Address) -> i128 {
        let k = share_key(pool_id, investor);
        if self.shares@.contains_key(k) {
            self.shares@[k]
        } else {
            0
        }
    }

    pub open spec fn spec_asset_count(&self, pool_id: u32) -> u32 {
        if self.asset_counts@.contains_key(pool_id) {
            self.asset_counts@[pool_id]
        } else {
            0
        }
    }

    /// Empty storage.
    pub fn new() -> (s: Self)
        ensures
            s.admin is None,
            s.pool_count == 0,
            s.pools@ == Map::<u32, IndexPool>::empty(),
            s.assets@ == Map::<u64, Asset>::empty(),
            s.asset_counts@ == Map::<u32, u32>::empty(),
            s.proposals@ == Map::<u32, RebalanceProposal>::empty(),
            s.tvl@ == Map::<u32, i128>::empty(),
            s.shares@ == Map::<u128, i128>::empty(),
    {
        IndexTokenContract {
            admin: None,
            pool_count: 0,
            pools: HashMap::new(),
            assets: HashMap::new(),
            asset_counts: HashMap::new(),
            proposals: HashMap::new(),
            tvl: HashMap::new(),
            shares: HashMap::new(),
        }
    }

    pub fn initialize(&mut self, admin: Address) -> (r: Result<(), IndexTokenError>)
        ensures
            old(self).admin is Some ==> r == Err::<(), IndexTokenError>(IndexTokenError::AlreadyInitialized)
                && *final(self) == *old(self),
            old(self).admin is None ==> r is Ok && *final(self) == (IndexTokenContract {
                admin: Some(admin),
                pool_count: 0,
                ..*old(self)
            }),
    {
        if self.admin.is_some() {
            return Err(IndexTokenError::AlreadyInitialized);
        }
        self.admin = Some(admin);
        self.pool_count = 0;
        Ok(())
    }

    /// The admin creates an active pool with a rebalance threshold of 1 to
    /// 5 000 bps, no assets, no supply and zero value.  Returns its id.
    pub fn create_pool(&mut self, now: u64, name: Text, rebalance_threshold_bps: u32) -> (r: Result<
        u32,
        IndexTokenError,
    >)
        requires
            old(self).admin is Some && 0 < rebalance_threshold_bps <= 5000 ==> old(self).pool_count < u32::MAX,
        ensures
            old(self).admin is None ==> r == Err::<u32, IndexTokenError>(IndexTokenError::NotInitialized)
                && *final(self) == *old(self),
            old(self).admin is Some && (rebalance_threshold_bps == 0 || rebalance_threshold_bps > 5000) ==> r
                == Err::<u32, IndexTokenError>(IndexTokenError::InvalidParameters) && *final(self) == *old(self),
            old(self).admin is Some && 0 < rebalance_threshold_bps <= 5000 ==> {
                let id = (old(self).pool_count + 1) as u32;
                &&& r == Ok::<u32, IndexTokenError>(id)
                &&& final(self).pool_count == id
                &&& final(self).pools@ == old(self).pools@.insert(
                    id,
                    IndexPool {
                        id,
                        name,
                        admin: old(self).admin->0,
                        total_supply: 0,
                        asset_count: 0,
                        rebalance_threshold_bps,
                        last_rebalance: now,
                        active: true,
                    },
                )
                &&& final(self).asset_counts@ == old(self).asset_counts@.insert(id, 0)
                &&& final(self).tvl@ == old(self).tvl@.insert(id, 0)
                &&& final(self).assets@ == old(self).assets@
                &&& final(self).proposals@ == old(self).proposals@
                &&& final(self).shares@ == old(self).shares@
                &&& final(self).admin == old(self).admin
            },
    {
        let admin = match self.admin {
            Some(a) => a,
            None => return Err(IndexTokenError::NotInitialized),
        };
        if rebalance_threshold_bps == 0 || rebalance_threshold_bps > 5000 {
            return Err(IndexTokenError::InvalidParameters);
        }
        let id = self.pool_count + 1;
        self.pools.insert(
            id,
            IndexPool {
                id,
                name,
                admin,
                total_supply: 0,
                asset_count: 0,
                rebalance_threshold_bps,
                last_rebalance: now,
                active: true,
            },
        );
        self.pool_count = id;
        self.asset_counts.insert(id, 0);
        self.tvl.insert(id, 0);
        Ok(id)
    }

    /// Why `add_asset` fails, if it does.
    pub open spec fn add_asset_error(&self, pool_id: u32, target_weight_bps: u32) -> Option<IndexTokenError> {
        if self.admin is None {
            Some(IndexTokenError::NotInitialized)
        } else if target_weight_bps == 0 || target_weight_bps > 10000 {
            Some(IndexTokenError::InvalidWeight)
        } else if !self.pools@.contains_key(pool_id) {
            Some(IndexTokenError::PoolNotFound)
        } else if !self.pools@[pool_id].active {
            Some(IndexTokenError::InvalidParameters)
        } else {
            None
        }
    }

    /// The admin adds an asset with a target weight of 1 to 10 000 bps to
    /// an active pool.  Returns the asset's id within the pool.
    pub fn add_asset(&mut self, pool_id: u32, asset_address: Address, symbol: Text, target_weight_bps: u32) -> (r:
        Result<u32, IndexTokenError>)
        requires
            old(self).add_asset_error(pool_id, target_weight_bps) is None ==> old(self).spec_asset_count(pool_id)
                < u32::MAX,
        ensures
            match old(self).add_asset_error(pool_id, target_weight_bps) {
                Some(e) => r == Err::<u32, IndexTokenError>(e) && *final(self) == *old(self),
                None => {
                    let id = (old(self).spec_asset_count(pool_id) + 1) as u32;
                    let o = old(self).pools@[pool_id];
                    let n = final(self).pools@[pool_id];
                    &&& r == Ok::<u32, IndexTokenError>(id)
                    &&& final(self).assets@ == old(self).assets@.insert(
                        asset_key(pool_id, id),
                        Asset {
                            address: asset_address,
                            symbol,
                            current_weight_bps: 0,
                            target_weight_bps,
                            balance: 0,
                        },
                    )
                    &&& final(self).asset_counts@ == old(self).asset_counts@.insert(pool_id, id)
                    &&& final(self).pools@ == old(self).pools@.insert(pool_id, n)
                    &&& n.asset_count == id
                    &&& n.id == o.id && n.name == o.name && n.admin == o.admin && n.total_supply == o.total_supply
                    &&& n.rebalance_threshold_bps == o.rebalance_threshold_bps
                    &&& n.last_rebalance == o.last_rebalance && n.active == o.active
                    &&& final(self).proposals@ == old(self).proposals@
                    &&& final(self).tvl@ == old(self).tvl@
                    &&& final(self).shares@ == old(self).shares@
                    &&& final(self).pool_count == old(self).pool_count
                    &&& final(self).admin == old(self).admin
                },
            },
    {
        if self.admin.is_none() {
            return Err(IndexTokenError::NotInitialized);
        }
        if target_weight_bps == 0 || target_weight_bps > 10000 {
            return Err(IndexTokenError::InvalidWeight);
        }
        match self.pools.get(&pool_id) {
            None => return Err(IndexTokenError::PoolNotFound),
            Some(p) => {
                if !p.active {
                    return Err(IndexTokenError::InvalidParameters);
                }
            },
        }
        let count = match self.asset_counts.get(&pool_id) {
            Some(c) => *c,
            None => 0,
        };
        let id = count + 1;
        let k = asset_key_of(pool_id, id);
        self.assets.insert(
            k,
            Asset { address: asset_address, symbol, current_weight_bps: 0, target_weight_bps, balance: 0 },
        );
        self.asset_counts.insert(pool_id, id);
        let p = self.pools.remove(&pool_id).unwrap();
        self.pools.insert(
            pool_id,
            IndexPool {
                id: p.id,
                name: p.name,
                admin: p.admin,
                total_supply: p.total_supply,
                asset_count: id,
                rebalance_threshold_bps: p.rebalance_threshold_bps,
                last_rebalance: p.last_rebalance,
                active: p.active,
            },
        );
        proof {
            assert(self.pools@ =~= old(self).pools@.insert(pool_id, self.pools@[pool_id]));
        }
        Ok(id)
    }

    /// Replace a pool's supply and last rebalance time.
    fn update_pool(&mut self, pool_id: u32, total_supply: i128, last_rebalance: u64)
        requires
            old(self).pools@.contains_key(pool_id),
        ensures
            final(self).pools@ == old(self).pools@.insert(pool_id, final(self).pools@[pool_id]),
            Self::pool_updated(old(self).pools@[pool_id], final(self).pools@[pool_id], total_supply, last_rebalance),
            final(self).assets@ == old(self).assets@,
            final(self).asset_counts@ == old(self).asset_counts@,
            final(self).proposals@ == old(self).proposals@,
            final(self).tvl@ == old(self).tvl@,
            final(self).shares@ == old(self).shares@,
            final(self).pool_count == old(self).pool_count,
            final(self).admin == old(self).admin,
    {
        let p = self.pools.remove(&pool_id).unwrap();
        self.pools.insert(
            pool_id,
            IndexPool {
                id: p.id,
                name: p.name,
                admin: p.admin,
                total_supply,
                asset_count: p.asset_count,
                rebalance_threshold_bps: p.rebalance_threshold_bps,
                last_rebalance,
                active: p.active,
            },
        );
        proof {
            assert(self.pools@ =~= old(self).pools@.insert(pool_id, self.pools@[pool_id]));
        }
    }

    /// `n` is `o` with the given supply and last rebalance time.
    pub open spec fn pool_updated(o: IndexPool, n: IndexPool, total_supply: i128, last_rebalance: u64) -> bool {
        &&& n.total_supply == total_supply
        &&& n.last_rebalance == last_rebalance
        &&& n.id == o.id && n.name == o.name && n.admin == o.admin && n.asset_count == o.asset_count
        &&& n.rebalance_threshold_bps == o.rebalance_threshold_bps && n.active == o.active
    }

    /// Shares issued for a deposit: the amount itself into an empty pool,
    /// else `amount * supply / value` (truncated).
    pub open spec fn deposit_shares(amount: int, supply: int, tvl: int) -> int {
        if supply == 0 {
            amount
        } else {
            tdiv_signed(amount * supply, tvl)
        }
    }

    /// The deposit arithmetic is defined and stays in range.
    pub open spec fn deposit_fits(&self, pool_id: u32, depositor: Address, amount: i128) -> bool {
        let p = self.pools@[pool_id];
        let tvl = self.spec_tvl(pool_id);
        let s = Self::deposit_shares(amount as int, p.total_supply as int, tvl as int);
        &&& p.total_supply != 0 ==> tvl != 0 && fits_i128(amount * p.total_supply) && !(amount * p.total_supply
            == i128::MIN && tvl == -1)
        &&& fits_i128(p.total_supply + s)
        &&& fits_i128(self.spec_shares(pool_id, depositor) + s)
        &&& fits_i128(tvl + amount)
    }

    /// An investor deposits `amount` and receives shares.  Returns the
    /// shares issued; the pool's supply, the investor's shares and the
    /// pool's value grow accordingly.
    pub fn deposit(&mut self, pool_id: u32, depositor: Address, amount: i128) -> (r: Result<i128, IndexTokenError>)
        requires
            amount > 0 && old(self).pools@.contains_key(pool_id) ==> old(self).deposit_fits(pool_id, depositor, amount),
        ensures
            amount <= 0 ==> r == Err::<i128, IndexTokenError>(IndexTokenError::InvalidParameters) && *final(self)
                == *old(self),
            amount > 0 && !old(self).pools@.contains_key(pool_id) ==> r == Err::<i128, IndexTokenError>(
                IndexTokenError::PoolNotFound,
            ) && *final(self) == *old(self),
            amount > 0 && old(self).pools@.contains_key(pool_id) ==> {
                let p = old(self).pools@[pool_id];
                let tvl = old(self).spec_tvl(pool_id);
                let s = Self::deposit_shares(amount as int, p.total_supply as int, tvl as int);
                &&& r == Ok::<i128, IndexTokenError>(s as i128)
                &&& final(self).pools@ == old(self).pools@.insert(pool_id, final(self).pools@[pool_id])
                &&& Self::pool_updated(p, final(self).pools@[pool_id], (p.total_supply + s) as i128, p.last_rebalance)
                &&& final(self).shares@ == old(self).shares@.insert(
                    share_key(pool_id, depositor),
                    (old(self).spec_shares(pool_id, depositor) + s) as i128,
                )
                &&& final(self).tvl@ == old(self).tvl@.insert(pool_id, (tvl + amount) as i128)
                &&& final(self).assets@ == old(self).assets@
                &&& final(self).asset_counts@ == old(self).asset_counts@
                &&& final(self).proposals@ == old(self).proposals@
                &&& final(self).pool_count == old(self).pool_count
                &&& final(self).admin == old(self).admin
            },
    {
        if amount <= 0 {
            return Err(IndexTokenError::InvalidParameters);
        }
        let (supply, last) = match self.pools.get(&pool_id) {
            None => return Err(IndexTokenError::PoolNotFound),
            Some(p) => (p.total_supply, p.last_rebalance),
        };
        let tvl = self.load_tvl(pool_id);
        let shares = if supply == 0 {
            amount
        } else {
            div_trunc(amount * supply, tvl)
        };
        self.update_pool(pool_id, supply + shares, last);
        let current = self.load_shares(pool_id, depositor);
        let k = share_key_of(pool_id, depositor);
        self.shares.insert(k, current + shares);
        self.tvl.insert(pool_id, tvl + amount);
        Ok(shares)
    }

    fn load_tvl(&self, pool_id: u32) -> (t: i128)
        ensures
            t == self.spec_tvl(pool_id),
    {
        match self.tvl.get(&pool_id) {
            Some(t) => *t,
            None => 0,
        }
    }

    fn load_shares(&self, pool_id: u32, investor: Address) -> (s: i128)
        ensures
            s == self.spec_shares(pool_id, investor),
    {
        let k = share_key_of(pool_id, investor);
        match self.shares.get(&k) {
            Some(s) => *s,
            None => 0,
        }
    }

    /// The withdrawal arithmetic is defined and stays in range.
    pub open spec fn withdraw_fits(&self, pool_id: u32, investor: Address, shares: i128) -> bool {
        let p = self.pools@[pool_id];
        let tvl = self.spec_tvl(pool_id);
        let amount = tdiv_signed(shares * tvl, p.total_supply as int);
        &&& p.total_supply != 0
        &&& fits_i128(shares * tvl)
        &&& !(shares * tvl == i128::MIN && p.total_supply == -1)
        &&& fits_i128(p.total_supply - shares)
        &&& fits_i128(tvl - amount)
    }

    /// Why `withdraw` fails, if it does.
    pub open spec fn withdraw_error(&self, pool_id: u32, investor: Address, shares: i128) -> Option<IndexTokenError> {
        if shares <= 0 {
            Some(IndexTokenError::InvalidParameters)
        } else if self.spec_shares(pool_id, investor) < shares {
            Some(IndexTokenError::InsufficientBalance)
        } else if !self.pools@.contains_key(pool_id) {
            Some(IndexTokenError::PoolNotFound)
        } else {
            None
        }
    }

    /// An investor redeems shares for `shares * value / supply`
    /// (truncated).  Returns that amount; supply, shares and value shrink.
    pub fn withdraw(&mut self, pool_id: u32, investor: Address, shares: i128) -> (r: Result<i128, IndexTokenError>)
        requires
            old(self).withdraw_error(pool_id, investor, shares) is None ==> old(self).withdraw_fits(
                pool_id,
                investor,
                shares,
            ),
        ensures
            match old(self).withdraw_error(pool_id, investor, shares) {
                Some(e) => r == Err::<i128, IndexTokenError>(e) && *final(self) == *old(self),
                None => {
                    let p = old(self).pools@[pool_id];
                    let tvl = old(self).spec_tvl(pool_id);
                    let amount = tdiv_signed(shares * tvl, p.total_supply as int);
                    &&& r == Ok::<i128, IndexTokenError>(amount as i128)
                    &&& final(self).shares@ == old(self).shares@.insert(
                        share_key(pool_id, investor),
                        (old(self).spec_shares(pool_id, investor) - shares) as i128,
                    )
                    &&& final(self).pools@ == old(self).pools@.insert(pool_id, final(self).pools@[pool_id])
                    &&& Self::pool_updated(
                        p,
                        final(self).pools@[pool_id],
                        (p.total_supply - shares) as i128,
                        p.last_rebalance,
                    )
                    &&& final(self).tvl@ == old(self).tvl@.insert(pool_id, (tvl - amount) as i128)
                    &&& final(self).assets@ == old(self).assets@
                    &&& final(self).asset_counts@ == old(self).asset_counts@
                    &&& final(self).proposals@ == old(self).proposals@
                    &&& final(self).pool_count == old(self).pool_count
                    &&& final(self).admin == old(self).admin
                },
            },
    {
        if shares <= 0 {
            return Err(IndexTokenError::InvalidParameters);
        }
        let current = self.load_shares(pool_id, investor);
        if current < shares {
            return Err(IndexTokenError::InsufficientBalance);
        }
        let (supply, last) = match self.pools.get(&pool_id) {
            None => return Err(IndexTokenError::PoolNotFound),
            Some(p) => (p.total_supply, p.last_rebalance),
        };
        let tvl = self.load_tvl(pool_id);
        let amount = div_trunc(shares * tvl, supply);
        let k = share_key_of(pool_id, investor);
        self.shares.insert(k, current - shares);
        self.update_pool(pool_id, supply - shares, last);
        self.tvl.insert(pool_id, tvl - amount);
        Ok(amount)
    }

    /// The admin proposes a rebalance of a pool that never had one
    /// proposed.
    pub fn propose_rebalance(&mut self, now: u64, pool_id: u32) -> (r: Result<(), IndexTokenError>)
        ensures
            old(self).admin is None ==> r == Err::<(), IndexTokenError>(IndexTokenError::NotInitialized)
                && *final(self) == *old(self),
            old(self).admin is Some && old(self).proposals@.contains_key(pool_id) ==> r == Err::<(), IndexTokenError>(
                IndexTokenError::RebalanceAlreadyActive,
            ) && *final(self) == *old(self),
            old(self).admin is Some && !old(self).proposals@.contains_key(pool_id) ==> {
                &&& r is Ok
                &&& final(self).proposals@ == old(self).proposals@.insert(
                    pool_id,
                    RebalanceProposal { pool_id, proposed_at: now, executed: false },
                )
                &&& final(self).pools@ == old(self).pools@
                &&& final(self).assets@ == old(self).assets@
                &&& final(self).asset_counts@ == old(self).asset_counts@
                &&& final(self).tvl@ == old(self).tvl@
                &&& final(self).shares@ == old(self).shares@
                &&& final(self).pool_count == old(self).pool_count
                &&& final(self).admin == old(self).admin
            },
    {
        if self.admin.is_none() {
            return Err(IndexTokenError::NotInitialized);
        }
        if self.proposals.contains_key(&pool_id) {
            return Err(IndexTokenError::RebalanceAlreadyActive);
        }
        self.proposals.insert(pool_id, RebalanceProposal { pool_id, proposed_at: now, executed: false });
        Ok(())
    }

    /// Why `execute_rebalance` fails, if it does.
    pub open spec fn rebalance_error(&self, pool_id: u32) -> Option<IndexTokenError> {
        if self.admin is None {
            Some(IndexTokenError::NotInitialized)
        } else if !self.proposals@.contains_key(pool_id) {
            Some(IndexTokenError::NoRebalancePending)
        } else if self.proposals@[pool_id].executed {
            Some(IndexTokenError::RebalanceAlreadyActive)
        } else if !self.pools@.contains_key(pool_id) {
            Some(IndexTokenError::PoolNotFound)
        } else if target_sum(self.assets@, pool_id, self.pools@[pool_id].asset_count as nat) != 10000 {
            Some(IndexTokenError::InvalidTargetWeight)
        } else {
            None
        }
    }

    /// The pool's assets can all be read and their target weights summed
    /// in a `u32`.
    pub open spec fn rebalance_readable(&self, pool_id: u32) -> bool {
        let n = self.pools@[pool_id].asset_count;
        &&& n < u32::MAX
        &&& assets_present(self.assets@, pool_id, n as nat)
        &&& target_sum(self.assets@, pool_id, n as nat) <= u32::MAX
    }

    /// Execute the pending rebalance: when the pool's target weights add up
    /// to exactly 10 000 bps every asset takes its target weight, the
    /// pool's last rebalance becomes `now` and the proposal is marked
    /// executed.
    pub fn execute_rebalance(&mut self, now: u64, pool_id: u32, max_slippage_bps: u32) -> (r: Result<
        (),
        IndexTokenError,
    >)
        requires
            old(self).admin is Some && old(self).proposals@.contains_key(pool_id)
                && !old(self).proposals@[pool_id].executed && old(self).pools@.contains_key(pool_id) ==> old(
                self,
            ).rebalance_readable(pool_id),
        ensures
            match old(self).rebalance_error(pool_id) {
                Some(e) => r == Err::<(), IndexTokenError>(e) && *final(self) == *old(self),
                None => {
                    let p = old(self).pools@[pool_id];
                    &&& r is Ok
                    &&& final(self).assets@ == rebalanced(old(self).assets@, pool_id, p.asset_count as nat)
                    &&& final(self).pools@ == old(self).pools@.insert(pool_id, final(self).pools@[pool_id])
                    &&& Self::pool_updated(p, final(self).pools@[pool_id], p.total_supply, now)
                    &&& final(self).proposals@ == old(self).proposals@.insert(
                        pool_id,
                        RebalanceProposal { executed: true, ..old(self).proposals@[pool_id] },
                    )
                    &&& final(self).asset_counts@ == old(self).asset_counts@
                    &&& final(self).tvl@ == old(self).tvl@
                    &&& final(self).shares@ == old(self).shares@
                    &&& final(self).pool_count == old(self).pool_count
                    &&& final(self).admin == old(self).admin
                },
            },
    {
        if self.admin.is_none() {
            return Err(IndexTokenError::NotInitialized);
        }
        let proposal = match self.proposals.get(&pool_id) {
            None => return Err(IndexTokenError::NoRebalancePending),
            Some(p) => *p,
        };
        if proposal.executed {
            return Err(IndexTokenError::RebalanceAlreadyActive);
        }
        let (count, supply) = match self.pools.get(&pool_id) {
            None => return Err(IndexTokenError::PoolNotFound),
            Some(p) => (p.asset_count, p.total_supply),
        };
        let ghost a0 = self.assets@;
        let mut total: u32 = 0;
        let mut i: u32 = 1;
        while i <= count
            invariant
                1 <= i <= count + 1,
                count < u32::MAX,
                self.assets@ == a0,
                assets_present(a0, pool_id, count as nat),
                target_sum(a0, pool_id, count as nat) <= u32::MAX,
                total == target_sum(a0, pool_id, (i - 1) as nat),
            decreases count + 1 - i,
        {
            let k = asset_key_of(pool_id, i);
            proof {
                assert(a0.contains_key(asset_key(pool_id, i)));
                lemma_target_sum_mono(a0, pool_id, i as nat, count as nat);
            }
            let w = match self.assets.get(&k) {
                Some(a) => a.target_weight_bps,
                None => 0,
            };
            total = total + w;
            i = i + 1;
        }
        if total != 10000 {
            return Err(IndexTokenError::InvalidTargetWeight);
        }
        let mut j: u32 = 1;
        while j <= count
            invariant
                1 <= j <= count + 1,
                count < u32::MAX,
                assets_present(a0, pool_id, count as nat),
                self.assets@ == rebalanced(a0, pool_id, (j - 1) as nat),
                self.pools@ == old(self).pools@,
                self.asset_counts@ == old(self).asset_counts@,
                self.proposals@ == old(self).proposals@,
                self.tvl@ == old(self).tvl@,
                self.shares@ == old(self).shares@,
                self.pool_count == old(self).pool_count,
                self.admin == old(self).admin,
            decreases count + 1 - j,
        {
            let k = asset_key_of(pool_id, j);
            proof {
                assert(a0.contains_key(asset_key(pool_id, j)));
                lemma_rebalanced_other(a0, pool_id, (j - 1) as nat, k);
            }
            let a = self.assets.remove(&k).unwrap();
            self.assets.insert(
                k,
                Asset {
                    address: a.address,
                    symbol: a.symbol,
                    current_weight_bps: a.target_weight_bps,
                    target_weight_bps: a.target_weight_bps,
                    balance: a.balance,
                },
            );
            proof {
                assert(self.assets@ =~= rebalanced(a0, pool_id, j as nat));
            }
            j = j + 1;
        }
        self.update_pool(pool_id, supply, now);
        self.proposals.insert(pool_id, RebalanceProposal { executed: true, ..proposal });
        Ok(())
    }

    pub fn get_pool(&self, pool_id: u32) -> (r: Result<&IndexPool, IndexTokenError>)
        ensures
            self.pools@.contains_key(pool_id) ==> r == Ok::<&IndexPool, IndexTokenError>(&self.pools@[pool_id]),
            !self.pools@.contains_key(pool_id) ==> r == Err::<&IndexPool, IndexTokenError>(
                IndexTokenError::PoolNotFound,
            ),
    {
        match self.pools.get(&pool_id) {
            Some(p) => Ok(p),
            None => Err(IndexTokenError::PoolNotFound),
        }
    }

    pub fn get_asset(&self, pool_id: u32, asset_id: u32) -> (r: Result<&Asset, IndexTokenError>)
        ensures
            self.assets@.contains_key(asset_key(pool_id, asset_id)) ==> r == Ok::<&Asset, IndexTokenError>(
                &self.assets@[asset_key(pool_id, asset_id)],
            ),
            !self.assets@.contains_key(asset_key(pool_id, asset_id)) ==> r == Err::<&Asset, IndexTokenError>(
                IndexTokenError::AssetNotFound,
            ),
    {
        let k = asset_key_of(pool_id, asset_id);
        match self.assets.get(&k) {
            Some(a) => Ok(a),
            None => Err(IndexTokenError::AssetNotFound),
        }
    }

    pub fn get_shares(&self, pool_id: u32, investor: Address) -> (s: i128)
        ensures
            s == self.spec_shares(pool_id, investor),
    {
        self.load_shares(pool_id, investor)
    }

    pub fn get_tvl(&self, pool_id: u32) -> (t: i128)
        ensures
            t == self.spec_tvl(pool_id),
    {
        self.load_tvl(pool_id)
    }
}

/// Partial sums of non-negative weights never exceed the full sum.
proof fn lemma_target_sum_mono(m: Map<u64, Asset>, pool_id: u32, i: nat, n: nat)
    requires
        i <= n,
    ensures
        target_sum(m, pool_id, i) <= target_sum(m, pool_id, n),
    decreases n - i,
{
    if i < n {
        lemma_target_sum_mono(m, pool_id, i, (n - 1) as nat);
    }
}

/// After a successful rebalance every asset of the pool sits at its
/// target weight, and those weights add up to 100%.
pub proof fn lemma_rebalance_reaches_targets(
    before: IndexTokenContract,
    after_assets: Map<u64, Asset>,
    pool_id: u32,
    asset_id: u32,
)
    requires
        before.rebalance_error(pool_id) is None,
        before.rebalance_readable(pool_id),
        after_assets == rebalanced(before.assets@, pool_id, before.pools@[pool_id].asset_count as nat),
        1 <= asset_id <= before.pools@[pool_id].asset_count,
    ensures
        target_sum(before.assets@, pool_id, before.pools@[pool_id].asset_count as nat) == 10000,
        after_assets.contains_key(asset_key(pool_id, asset_id)),
        after_assets[asset_key(pool_id, asset_id)].current_weight_bps == after_assets[asset_key(
            pool_id,
            asset_id,
        )].target_weight_bps,
{
    lemma_rebalanced_at(before.assets@, pool_id, before.pools@[pool_id].asset_count as nat, asset_id);
}

proof fn lemma_rebalanced_at(m: Map<u64, Asset>, pool_id: u32, n: nat, asset_id: u32)
    requires
        n < 0x1_0000_0000,
        1 <= asset_id <= n,
        assets_present(m, pool_id, n),
    ensures
        rebalanced(m, pool_id, n).contains_key(asset_key(pool_id, asset_id)),
        rebalanced(m, pool_id, n)[asset_key(pool_id, asset_id)].current_weight_bps == rebalanced(
            m,
            pool_id,
            n,
        )[asset_key(pool_id, asset_id)].target_weight_bps,
    decreases n,
{
    if asset_id < n {
        lemma_rebalanced_at(m, pool_id, (n - 1) as nat, asset_id);
        assert(asset_key(pool_id, n as u32) != asset_key(pool_id, asset_id));
    }
}

} // verus!

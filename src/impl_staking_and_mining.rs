use vstd::prelude::*;

use crate::contract::{DEFAULT_PRICE_PER_SLOT, JoyError, JoychiV1, MAX_MINING_TOOLS};
use crate::impl_pet::{alive_spec, floor_sub};
use crate::item_factory::{ItemMetadata, ItemType};
use crate::ledger::LedgerCall;
use crate::pet::PetMetadata;
use crate::staking_and_mining::{MiningData, NFTInfo, PetCountUser, PoolInfo, PoolMetadata, StakingAndMining};
use crate::store::{by_id, next_id, slot};

verus! {

/// Mining points earned per unit of mining power at each charge.
pub const POINTS_PER_POWER: u128 = 10;

/// `r` is the rig `old` with the tool `t`, of id `tool_id`, attached at `now`:
/// the tool joins the list, its power and charge time add to the totals, and
/// the mining clock starts at `now` when this is the rig's first tool or the
/// clock never ran.
pub open spec fn attached_to(old: MiningData, r: MiningData, t: ItemMetadata, tool_id: int, now: int) -> bool {
    &&& r == (MiningData {
        total_mining_power: (old.total_mining_power + t.prototype_itemmining_power) as u128,
        total_mining_charge_time: (old.total_mining_charge_time + t.prototype_itemmining_charge_time) as u128,
        last_mining_time: if old.last_mining_time == 0 || old.mining_tool_used@.len() == 0 {
            now as u128
        } else {
            old.last_mining_time
        },
        mining_tool_used: r.mining_tool_used,
        ..old
    })
    &&& r.mining_tool_used@ == old.mining_tool_used@.push(tool_id as u128)
}

/// `r` is the rig of `account` after the tool `t`, of id `tool_id`, was
/// attached at `now` to its rig `old`; without a rig before, `r` is a new rig
/// that holds that tool alone, its clock started at `now`.
pub open spec fn attached(old: Option<MiningData>, account: String, r: MiningData, t: ItemMetadata, tool_id: int, now: int) -> bool {
    match old {
        Some(o) => attached_to(o, r, t, tool_id, now),
        None => {
            &&& r == (MiningData {
                account_id: account,
                mining_points: 0,
                total_mining_power: t.prototype_itemmining_power,
                total_mining_charge_time: t.prototype_itemmining_charge_time,
                last_mining_time: now as u128,
                mining_tool_used: r.mining_tool_used,
            })
            &&& r.mining_tool_used@ == seq![tool_id as u128]
        },
    }
}

/// `r` is the rig `old` with the tool `t`, at position `j` of its list,
/// detached: the totals lose the tool's power and charge time, floored at
/// zero.
pub open spec fn detached(old: MiningData, r: MiningData, t: ItemMetadata, j: int) -> bool {
    &&& r == (MiningData {
        total_mining_power: floor_sub(old.total_mining_power as int, t.prototype_itemmining_power as int) as u128,
        total_mining_charge_time: floor_sub(old.total_mining_charge_time as int, t.prototype_itemmining_charge_time as int) as u128,
        mining_tool_used: r.mining_tool_used,
        ..old
    })
    &&& r.mining_tool_used@ == old.mining_tool_used@.remove(j)
}

/// `j` is the first position of `x` in `s`.
pub open spec fn first_at(s: Seq<u128>, x: u128, j: int) -> bool {
    &&& 0 <= j < s.len()
    &&& s[j] == x
    &&& forall|m: int| 0 <= m < j ==> #[trigger] s[m] != x
}

/// The first position of `x` in `v`.
fn position_of(v: &Vec<u128>, x: u128) -> (r: Option<usize>)
    ensures
        r matches Some(j) ==> first_at(v@, x, j as int),
        r is None ==> !v@.contains(x),
{
    let mut j: usize = 0;
    while j < v.len()
        invariant
            j <= v@.len(),
            forall|m: int| 0 <= m < j ==> #[trigger] v@[m] != x,
        decreases v.len() - j,
    {
        if v[j] == x {
            return Some(j);
        }
        j = j + 1;
    }
    None
}

fn attach(rig: &mut MiningData, tool_id: u64, power: u128, charge: u128, now: u64, t: Ghost<ItemMetadata>)
    requires
        old(rig).total_mining_power + power <= u128::MAX,
        old(rig).total_mining_charge_time + charge <= u128::MAX,
        power == t@.prototype_itemmining_power,
        charge == t@.prototype_itemmining_charge_time,
    ensures
        attached_to(*old(rig), *final(rig), t@, tool_id as int, now as int),
{
    if rig.last_mining_time == 0 || rig.mining_tool_used.len() == 0 {
        rig.last_mining_time = now as u128;
    }
    rig.mining_tool_used.push(tool_id as u128);
    rig.total_mining_power = rig.total_mining_power + power;
    rig.total_mining_charge_time = rig.total_mining_charge_time + charge;
}

impl JoychiV1 {
    /// `account` has a mining rig.
    pub open spec fn has_rig(&self, account: Seq<char>) -> bool {
        exists|i: int| 0 <= i < self.mining_data_by_account_id@.len() && (#[trigger] self.mining_data_by_account_id@[i]).account_id@ == account
    }

    /// The position of the rig of `account`.
    pub open spec fn rig_index(&self, account: Seq<char>) -> int {
        choose|i: int| 0 <= i < self.mining_data_by_account_id@.len() && (#[trigger] self.mining_data_by_account_id@[i]).account_id@ == account
    }

    /// The rig of `account`, if it has one.
    pub open spec fn rig(&self, account: Seq<char>) -> Option<MiningData> {
        if self.has_rig(account) {
            Some(self.mining_data_by_account_id@[self.rig_index(account)])
        } else {
            None
        }
    }

    /// The position of the rig of `account`, if it has one.
    pub fn find_rig(&self, account: &String) -> (r: Option<usize>)
        requires
            self.wf(),
        ensures
            r is Some <==> self.has_rig(account@),
            r matches Some(i) ==> i == self.rig_index(account@) && i < self.mining_data_by_account_id@.len()
                && self.mining_data_by_account_id@[i as int].account_id@ == account@,
    {
        let mut i: usize = 0;
        while i < self.mining_data_by_account_id.len()
            invariant
                self.wf(),
                i <= self.mining_data_by_account_id@.len(),
                forall|m: int| 0 <= m < i ==> (#[trigger] self.mining_data_by_account_id@[m]).account_id@ != account@,
            decreases self.mining_data_by_account_id.len() - i,
        {
            if self.mining_data_by_account_id[i].account_id == *account {
                proof {
                    assert(self.has_rig(account@));
                    let c = self.rig_index(account@);
                    if c < i {
                        assert(self.mining_data_by_account_id@[c]
                            .account_id@ != self.mining_data_by_account_id@[i as int].account_id@);
                    } else if c > i {
                        assert(self.mining_data_by_account_id@[i as int]
                            .account_id@ != self.mining_data_by_account_id@[c].account_id@);
                    }
                }
                return Some(i);
            }
            i = i + 1;
        }
        None
    }

    /// Takes the rig out of slot `i`, leaving a placeholder that the caller
    /// overwrites.
    fn take_rig(&mut self, i: usize) -> (r: MiningData)
        requires
            i < old(self).mining_data_by_account_id@.len(),
        ensures
            r == old(self).mining_data_by_account_id@[i as int],
            final(self).mining_data_by_account_id@ == old(self).mining_data_by_account_id@.update(i as int, final(self).mining_data_by_account_id@[i as int]),
            *final(self) == (JoychiV1 { mining_data_by_account_id: final(self).mining_data_by_account_id, ..*old(self) }),
    {
        let mut out = MiningData {
            account_id: String::new(),
            mining_points: 0,
            total_mining_power: 0,
            total_mining_charge_time: 0,
            last_mining_time: 0,
            mining_tool_used: Vec::new(),
        };
        self.mining_data_by_account_id.set_and_swap(i, &mut out);
        out
    }

    /// The rigs after the rig of `account` became `r`.
    pub open spec fn rigs_with(&self, account: String, r: MiningData) -> Seq<MiningData> {
        if self.has_rig(account@) {
            self.mining_data_by_account_id@.update(self.rig_index(account@), r)
        } else {
            self.mining_data_by_account_id@.push(r)
        }
    }

    /// Why `add_mining_tool` refuses, if it does; the checks in their order.
    pub open spec fn add_tool_error(&self, caller: String, tool_id: int) -> Option<JoyError> {
        if self.tool(tool_id) is None {
            Some(JoyError::NotFound)
        } else {
            let t = self.tool(tool_id)->0;
            if t.prototype_item_type != ItemType::MineTool {
                Some(JoyError::NotMiningTool)
            } else if t.is_lock {
                Some(JoyError::ToolLocked)
            } else if self.rig(caller@) matches Some(rig) && rig.mining_tool_used@.len() >= MAX_MINING_TOOLS {
                Some(JoyError::ToolLimitReached)
            } else if self.rig(caller@) matches Some(rig) && (rig.total_mining_power + t.prototype_itemmining_power > u128::MAX
                || rig.total_mining_charge_time + t.prototype_itemmining_charge_time > u128::MAX) {
                Some(JoyError::Overflow)
            } else {
                None
            }
        }
    }


    /// Why `remove_mining_tool` refuses, if it does.
    pub open spec fn remove_tool_error(&self, caller: String, tool_id: int) -> Option<JoyError> {
        if self.tool(tool_id) is None || self.rig(caller@) is None {
            Some(JoyError::NotFound)
        } else if !self.rig(caller@)->0.mining_tool_used@.contains(tool_id as u128)
            || self.tool(tool_id)->0.owner@ != caller@ {
            Some(JoyError::NotOwner)
        } else {
            None
        }
    }


    /// Why `mining` refuses, if it does; the checks in their order.
    pub open spec fn mining_error(&self, caller: String, now: int) -> Option<JoyError> {
        if self.rig(caller@) is None {
            Some(JoyError::NotFound)
        } else {
            let rig = self.rig(caller@)->0;
            if rig.total_mining_power == 0 {
                Some(JoyError::NoMiningPower)
            } else if now < rig.last_mining_time + rig.total_mining_charge_time {
                Some(JoyError::MiningCooldown)
            } else if rig.mining_points + POINTS_PER_POWER * rig.total_mining_power > u128::MAX {
                Some(JoyError::Overflow)
            } else {
                None
            }
        }
    }


    /// Why `redemn_mining_points` refuses, if it does.
    pub open spec fn redeem_points_error(&self, caller: String) -> Option<JoyError> {
        if self.rig(caller@) is None {
            Some(JoyError::NotFound)
        } else if self.rig(caller@)->0.mining_points <= self.points_used_per_redemn {
            Some(JoyError::NotEnoughPoints)
        } else {
            None
        }
    }


}




/// How many pets `user` has staked in pool `pool`, summed over the counter
/// entries of `s`.
pub open spec fn count_of(s: Seq<PetCountUser>, user: Seq<char>, pool: int) -> int
    decreases s.len(),
{
    if s.len() == 0 {
        0
    } else {
        count_of(s.drop_last(), user, pool) + if s.last().user@ == user && s.last().pool_id == pool {
            s.last().pet_count as int
        } else {
            0
        }
    }
}

proof fn lemma_count_update(s: Seq<PetCountUser>, i: int, e: PetCountUser, user: Seq<char>, pool: int)
    requires
        0 <= i < s.len(),
        e.user@ == s[i].user@,
        e.pool_id == s[i].pool_id,
        e.pet_count == s[i].pet_count + 1,
    ensures
        count_of(s.update(i, e), user, pool) == count_of(s, user, pool) + if e.user@ == user && e.pool_id == pool { 1int } else { 0int },
    decreases s.len(),
{
    if i < s.len() - 1 {
        lemma_count_update(s.drop_last(), i, e, user, pool);
        assert(s.update(i, e).drop_last() =~= s.drop_last().update(i, e));
    } else {
        assert(s.update(i, e).drop_last() =~= s.drop_last());
    }
}

/// Some counter entry of `user` for pool `pool` can grow no further.
pub open spec fn counter_full(s: Seq<PetCountUser>, user: Seq<char>, pool: int) -> bool {
    exists|i: int|
        0 <= i < s.len() && (#[trigger] s[i]).user@ == user && s[i].pool_id == pool && s[i].pet_count
            == u64::MAX
}

/// `a` is a copy of the pool `b`: equal in every field, its lists equal in
/// content.
pub open spec fn pool_copy(a: PoolMetadata, b: PoolMetadata) -> bool {
    &&& a == (PoolMetadata {
        pool_info: PoolInfo { reward_nft_ids: a.pool_info.reward_nft_ids, ..b.pool_info },
        staked_pets: a.staked_pets,
        ..b
    })
    &&& a.pool_info.reward_nft_ids@ == b.pool_info.reward_nft_ids@
    &&& a.staked_pets@ == b.staked_pets@
}

/// `e` records the pet `pet_id` staked by `owner`.
pub open spec fn is_stake_of(e: NFTInfo, pet_id: int, owner: Seq<char>) -> bool {
    e.nft_id == pet_id && e.owner@ == owner
}

/// The ledger calls that mint one token of each reward prototype to `to`.
pub open spec fn reward_mints(ids: Seq<u128>, tools: Seq<ItemMetadata>, to: String, now: u64) -> Seq<LedgerCall> {
    ids.map_values(|id: u128| LedgerCall::ItemMint {
        token_id: id as u64,
        receiver: to,
        attribute: by_id(tools, id as int)->0.attribute_spec(),
        timestamp: now,
    })
}

/// The first entry of `list` that records the pet `pet_id` staked by `owner`.
fn find_stake(list: &Vec<NFTInfo>, pet_id: u64, owner: &String) -> (r: Option<usize>)
    ensures
        r matches Some(j) ==> j < list@.len() && is_stake_of(list@[j as int], pet_id as int, owner@)
            && forall|m: int| 0 <= m < j ==> !is_stake_of(#[trigger] list@[m], pet_id as int, owner@),
        r is None ==> forall|m: int| 0 <= m < list@.len() ==> !is_stake_of(#[trigger] list@[m], pet_id as int, owner@),
{
    let mut j: usize = 0;
    while j < list.len()
        invariant
            j <= list@.len(),
            forall|m: int| 0 <= m < j ==> !is_stake_of(#[trigger] list@[m], pet_id as int, owner@),
        decreases list.len() - j,
    {
        if list[j].nft_id == pet_id as u128 && list[j].owner == *owner {
            return Some(j);
        }
        j = j + 1;
    }
    None
}

/// How many records of the pet `pet_id` staked by `owner` the list holds.
pub open spec fn pair_count(s: Seq<NFTInfo>, pet_id: int, owner: Seq<char>) -> nat
    decreases s.len(),
{
    if s.len() == 0 {
        0
    } else {
        pair_count(s.drop_last(), pet_id, owner) + if is_stake_of(s.last(), pet_id, owner) { 1nat } else { 0nat }
    }
}

proof fn lemma_pair_count_zero(s: Seq<NFTInfo>, pet_id: int, owner: Seq<char>)
    requires
        pair_count(s, pet_id, owner) == 0,
    ensures
        forall|j: int| 0 <= j < s.len() ==> !is_stake_of(#[trigger] s[j], pet_id, owner),
    decreases s.len(),
{
    if s.len() > 0 {
        lemma_pair_count_zero(s.drop_last(), pet_id, owner);
        assert forall|j: int| 0 <= j < s.len() implies !is_stake_of(#[trigger] s[j], pet_id, owner) by {
            if j < s.len() - 1 {
                assert(s[j] == s.drop_last()[j]);
            }
        }
    }
}

proof fn lemma_pair_count_none(s: Seq<NFTInfo>, pet_id: int, owner: Seq<char>)
    requires
        forall|j: int| 0 <= j < s.len() ==> !is_stake_of(#[trigger] s[j], pet_id, owner),
    ensures
        pair_count(s, pet_id, owner) == 0,
    decreases s.len(),
{
    if s.len() > 0 {
        assert forall|j: int| 0 <= j < s.drop_last().len() implies !is_stake_of(#[trigger] s.drop_last()[j], pet_id, owner) by {
            assert(s.drop_last()[j] == s[j]);
        }
        lemma_pair_count_none(s.drop_last(), pet_id, owner);
        assert(!is_stake_of(s[s.len() - 1], pet_id, owner));
    }
}

proof fn lemma_pair_count_remove(s: Seq<NFTInfo>, j: int, pet_id: int, owner: Seq<char>)
    requires
        0 <= j < s.len(),
        is_stake_of(s[j], pet_id, owner),
    ensures
        pair_count(s.remove(j), pet_id, owner) + 1 == pair_count(s, pet_id, owner),
    decreases s.len(),
{
    if j == s.len() - 1 {
        assert(s.remove(j) =~= s.drop_last());
    } else {
        lemma_pair_count_remove(s.drop_last(), j, pet_id, owner);
        assert(s.remove(j).drop_last() =~= s.drop_last().remove(j));
        assert(s.remove(j).last() == s.last());
    }
}

/// A stake cannot be released before the pool's end time: right after it,
/// `un_stake` refuses with `PoolNotEnded`. After the end time it is released
/// (when the pet is still alive and the pool's rewards exist), and each
/// release takes exactly one record of the pair off the pool's staked list,
/// which the stake added as its only record; so the stake is released once,
/// and a second `un_stake` refuses with `NotStaked`.
pub proof fn lemma_stake_then_unstake(
    s1: JoychiV1,
    s2: JoychiV1,
    s3: JoychiV1,
    caller: String,
    pet_id: int,
    pool_id: int,
    t1: int,
    t2: int,
    t3: int,
)
    requires
        s1.wf(),
        s1.stake_error(caller, pet_id, pool_id, t1) is None,
        s1.stake_post(s2, caller, pet_id, pool_id),
    ensures
        pair_count(s1.pool(pool_id)->0.staked_pets@, pet_id, caller@) == 0,
        pair_count(s2.pool(pool_id)->0.staked_pets@, pet_id, caller@) == 1,
        t2 <= s1.pool(pool_id)->0.pool_info.staking_end_time ==> s2.unstake_error(caller, pet_id, pool_id, t2)
            == Some(JoyError::PoolNotEnded),
        t2 > s1.pool(pool_id)->0.pool_info.staking_end_time && alive_spec(s2.pet(pet_id)->0, t2) && s2.rewards_exist(
            s2.pool(pool_id)->0.pool_info.reward_nft_ids@,
        ) ==> s2.unstake_error(caller, pet_id, pool_id, t2) is None,
        s2.unstake_post(s3, caller, pet_id, pool_id, t2 as u64) ==> pair_count(s3.pool(pool_id)->0.staked_pets@, pet_id, caller@) + 1
            == pair_count(s2.pool(pool_id)->0.staked_pets@, pet_id, caller@),
        s2.unstake_post(s3, caller, pet_id, pool_id, t2 as u64) ==> s3.unstake_error(caller, pet_id, pool_id, t3)
            == Some(JoyError::NotStaked),
{
    let l1 = s1.pool(pool_id)->0.staked_pets@;
    let l2 = s2.pool(pool_id)->0.staked_pets@;
    assert forall|j: int| 0 <= j < l1.len() implies !is_stake_of(#[trigger] l1[j], pet_id, caller@) by {
        assert(s1.pool_metadata_by_id@[pool_id - 1].staked_pets@[j] == l1[j]);
    }
    lemma_pair_count_none(l1, pet_id, caller@);
    let e = NFTInfo { nft_id: pet_id as u128, owner: caller };
    assert(l2.drop_last() =~= l1);
    assert(l2.last() == e);
    assert(is_stake_of(l2[l2.len() - 1], pet_id, caller@));
    assert(s2.has_pet(pet_id));
    assert(s2.pool(pool_id) is Some);
    if s2.unstake_post(s3, caller, pet_id, pool_id, t2 as u64) {
        let l3 = s3.pool(pool_id)->0.staked_pets@;
        let j = choose|j: int| {
            &&& 0 <= j < l2.len()
            &&& is_stake_of(#[trigger] l2[j], pet_id, caller@)
            &&& forall|m: int| 0 <= m < j ==> !is_stake_of(#[trigger] l2[m], pet_id, caller@)
            &&& l3 == l2.remove(j)
        };
        lemma_pair_count_remove(l2, j, pet_id, caller@);
        lemma_pair_count_zero(l3, pet_id, caller@);
        assert(s3.has_pet(pet_id));
        assert(s3.pool(pool_id) is Some);
    }
}

fn copy_pool(p: &PoolMetadata) -> (r: PoolMetadata)
    ensures
        pool_copy(r, *p),
{
    let r = PoolMetadata {
        pool_id: p.pool_id,
        price_per_slot: p.price_per_slot,
        pool_info: PoolInfo {
            name: p.pool_info.name.clone(),
            reward_nft_ids: p.pool_info.reward_nft_ids.clone(),
            staking_start_time: p.pool_info.staking_start_time,
            staking_end_time: p.pool_info.staking_end_time,
            max_slot_in_pool: p.pool_info.max_slot_in_pool,
            token_reward_per_slot: p.pool_info.token_reward_per_slot,
            max_slot_per_wallet: p.pool_info.max_slot_per_wallet,
            total_staked_slot: p.pool_info.total_staked_slot,
        },
        staked_pets: p.staked_pets.clone(),
    };
    assert(r.pool_info.reward_nft_ids@ =~= p.pool_info.reward_nft_ids@);
    assert(r.staked_pets@ =~= p.staked_pets@);
    r
}

impl JoychiV1 {

    /// The pets that `user` has staked in pool `pool`.
    pub open spec fn staked_count(&self, user: Seq<char>, pool: int) -> int {
        count_of(self.user_staked_pet_count@, user, pool)
    }

    /// The store `new` is this one after `caller` staked the pet `pet_id` in
    /// pool `pool_id`.
    pub open spec fn stake_post(&self, new: JoychiV1, caller: String, pet_id: int, pool_id: int) -> bool {
        let p = self.pet(pet_id)->0;
        let pool = self.pool(pool_id)->0;
        let np = new.pool(pool_id)->0;
        &&& new.pets() == self.pets().update(pet_id - 1, Some(PetMetadata { is_lock: true, ..p }))
        &&& new.pool_metadata_by_id@.len() == self.pool_metadata_by_id@.len()
        &&& forall|k: int| k != pool_id ==> #[trigger] new.pool(k) == self.pool(k)
        &&& np == (PoolMetadata {
            pool_info: PoolInfo { total_staked_slot: (pool.pool_info.total_staked_slot + 1) as u128, ..pool.pool_info },
            staked_pets: np.staked_pets,
            ..pool
        })
        &&& np.staked_pets@ == pool.staked_pets@.push(NFTInfo { nft_id: pet_id as u128, owner: caller })
        &&& forall|u: Seq<char>, k: int| #[trigger] new.staked_count(u, k) == self.staked_count(u, k)
            + if u == caller@ && k == pool_id { 1int } else { 0int }
        &&& new == (JoychiV1 {
            pet_metadata_by_id: new.pet_metadata_by_id,
            pool_metadata_by_id: new.pool_metadata_by_id,
            user_staked_pet_count: new.user_staked_pet_count,
            ..*self
        })
    }

    /// The store `new` is this one after `caller` released the pet `pet_id`
    /// from pool `pool_id` at `now`.
    pub open spec fn unstake_post(&self, new: JoychiV1, caller: String, pet_id: int, pool_id: int, now: u64) -> bool {
        let p = self.pet(pet_id)->0;
        let pool = self.pool(pool_id)->0;
        let np = new.pool(pool_id)->0;
        &&& new.pets() == self.pets().update(pet_id - 1, Some(PetMetadata { is_lock: false, ..p }))
        &&& new.pool_metadata_by_id@.len() == self.pool_metadata_by_id@.len()
        &&& forall|k: int| k != pool_id ==> #[trigger] new.pool(k) == self.pool(k)
        &&& np == (PoolMetadata { staked_pets: np.staked_pets, ..pool })
        &&& exists|j: int| {
            &&& 0 <= j < pool.staked_pets@.len()
            &&& is_stake_of(#[trigger] pool.staked_pets@[j], pet_id, caller@)
            &&& forall|m: int| 0 <= m < j ==> !is_stake_of(#[trigger] pool.staked_pets@[m], pet_id, caller@)
            &&& np.staked_pets@ == pool.staked_pets@.remove(j)
        }
        &&& new.outbox@ == self.outbox@ + reward_mints(
            pool.pool_info.reward_nft_ids@,
            self.item_metadata_by_id@,
            caller,
            now,
        ).push(LedgerCall::FtTransfer { receiver: p.owner_id, amount: pool.price_per_slot })
        &&& new == (JoychiV1 {
            pet_metadata_by_id: new.pet_metadata_by_id,
            pool_metadata_by_id: new.pool_metadata_by_id,
            outbox: new.outbox,
            ..*self
        })
    }

    /// Why `stake` refuses, if it does; the checks in their order.
    pub open spec fn stake_error(&self, caller: String, pet_id: int, pool_id: int, now: int) -> Option<JoyError> {
        if !self.has_pet(pet_id) || self.pool(pool_id) is None {
            Some(JoyError::NotFound)
        } else {
            let p = self.pet(pet_id)->0;
            let pool = self.pool(pool_id)->0;
            if pool.pool_info.staking_start_time >= now {
                Some(JoyError::PoolNotStarted)
            } else if caller@ != p.owner_id@ {
                Some(JoyError::NotOwner)
            } else if !alive_spec(p, now) {
                Some(JoyError::PetNotAlive)
            } else if p.is_lock {
                Some(JoyError::PetLocked)
            } else if pool.pool_info.total_staked_slot >= pool.pool_info.max_slot_in_pool {
                Some(JoyError::PoolFull)
            } else if counter_full(self.user_staked_pet_count@, caller@, pool_id) {
                Some(JoyError::Overflow)
            } else {
                None
            }
        }
    }


    /// The first counter entry of `user` for pool `pool_id`; refused with
    /// `Overflow` when a counter of `user` for that pool can grow no further.
    fn find_counter(&self, user: &String, pool_id: u64) -> (r: Result<Option<usize>, JoyError>)
        ensures
            r is Err <==> counter_full(self.user_staked_pet_count@, user@, pool_id as int),
            r is Err ==> r == Err::<Option<usize>, JoyError>(JoyError::Overflow),
            r matches Ok(Some(f)) ==> f < self.user_staked_pet_count@.len() && self.user_staked_pet_count@[f as int].user@ == user@
                && self.user_staked_pet_count@[f as int].pool_id == pool_id,
            r matches Ok(None) ==> forall|i: int| 0 <= i < self.user_staked_pet_count@.len() ==> !((#[trigger] self.user_staked_pet_count@[i]).user@ == user@
                && self.user_staked_pet_count@[i].pool_id == pool_id),
    {
        let mut found: Option<usize> = None;
        let mut j: usize = 0;
        while j < self.user_staked_pet_count.len()
            invariant
                j <= self.user_staked_pet_count@.len(),
                forall|m: int| 0 <= m < j && (#[trigger] self.user_staked_pet_count@[m]).user@ == user@
                    && self.user_staked_pet_count@[m].pool_id == pool_id ==> self.user_staked_pet_count@[m].pet_count != u64::MAX,
                found matches Some(f) ==> f < j && self.user_staked_pet_count@[f as int].user@ == user@
                    && self.user_staked_pet_count@[f as int].pool_id == pool_id,
                found is None ==> forall|m: int| 0 <= m < j ==> !((#[trigger] self.user_staked_pet_count@[m]).user@ == user@
                    && self.user_staked_pet_count@[m].pool_id == pool_id),
            decreases self.user_staked_pet_count.len() - j,
        {
            let e = &self.user_staked_pet_count[j];
            if e.user == *user && e.pool_id == pool_id {
                if e.pet_count == u64::MAX {
                    return Err(JoyError::Overflow);
                }
                if found.is_none() {
                    found = Some(j);
                }
            }
            j = j + 1;
        }
        Ok(found)
    }

    /// Why `un_stake` refuses, if it does; the checks in their order.
    pub open spec fn unstake_error(&self, caller: String, pet_id: int, pool_id: int, now: int) -> Option<JoyError> {
        if !self.has_pet(pet_id) || self.pool(pool_id) is None {
            Some(JoyError::NotFound)
        } else {
            let p = self.pet(pet_id)->0;
            let pool = self.pool(pool_id)->0;
            if !(exists|j: int| 0 <= j < pool.staked_pets@.len() && is_stake_of(#[trigger] pool.staked_pets@[j], pet_id, caller@)) {
                Some(JoyError::NotStaked)
            } else if pool.pool_info.staking_end_time >= now {
                Some(JoyError::PoolNotEnded)
            } else if caller@ != p.owner_id@ {
                Some(JoyError::NotOwner)
            } else if !alive_spec(p, now) {
                Some(JoyError::PetNotAlive)
            } else if !p.is_lock {
                Some(JoyError::PetNotLocked)
            } else if !self.rewards_exist(pool.pool_info.reward_nft_ids@) {
                Some(JoyError::NotFound)
            } else {
                None
            }
        }
    }

    /// Every id of `ids` names a tool prototype.
    pub open spec fn rewards_exist(&self, ids: Seq<u128>) -> bool {
        forall|k: int| 0 <= k < ids.len() ==> #[trigger] ids[k] <= u64::MAX && self.tool(ids[k] as int) is Some
    }

    fn check_rewards(&self, ids: &Vec<u128>) -> (r: bool)
        ensures
            r == self.rewards_exist(ids@),
    {
        let mut k: usize = 0;
        while k < ids.len()
            invariant
                k <= ids@.len(),
                forall|m: int| 0 <= m < k ==> #[trigger] ids@[m] <= u64::MAX && self.tool(ids@[m] as int) is Some,
            decreases ids.len() - k,
        {
            let id = ids[k];
            if id > u64::MAX as u128 || slot(id as u64, self.item_metadata_by_id.len()).is_none() {
                return false;
            }
            k = k + 1;
        }
        true
    }


    /// Why `owner_withdraw_redundant_token` refuses, if it does.
    pub open spec fn withdraw_error(&self, caller: String, pool_id: int, now: int) -> Option<JoyError> {
        if caller@ != self.owner_id@ {
            Some(JoyError::NotOwner)
        } else if self.pool(pool_id) is None {
            Some(JoyError::NotFound)
        } else {
            let info = self.pool(pool_id)->0.pool_info;
            if info.staking_end_time >= now {
                Some(JoyError::PoolNotEnded)
            } else if info.token_reward_per_slot * info.max_slot_in_pool > u128::MAX {
                Some(JoyError::Overflow)
            } else {
                None
            }
        }
    }






    /// Takes the pool out of slot `i`, leaving a placeholder that the caller
    /// overwrites.
    pub(crate) fn take_pool(&mut self, i: usize) -> (r: PoolMetadata)
        requires
            i < old(self).pool_metadata_by_id@.len(),
        ensures
            r == old(self).pool_metadata_by_id@[i as int],
            final(self).pool_metadata_by_id@.len() == old(self).pool_metadata_by_id@.len(),
            forall|j: int| 0 <= j < old(self).pool_metadata_by_id@.len() && j != i ==> #[trigger] final(self).pool_metadata_by_id@[j] == old(self).pool_metadata_by_id@[j],
            *final(self) == (JoychiV1 { pool_metadata_by_id: final(self).pool_metadata_by_id, ..*old(self) }),
    {
        let mut out = PoolMetadata {
            pool_id: 0,
            price_per_slot: 0,
            pool_info: PoolInfo {
                name: String::new(),
                reward_nft_ids: Vec::new(),
                staking_start_time: 0,
                staking_end_time: 0,
                max_slot_in_pool: 0,
                token_reward_per_slot: 0,
                max_slot_per_wallet: 0,
                total_staked_slot: 0,
            },
            staked_pets: Vec::new(),
        };
        self.pool_metadata_by_id.set_and_swap(i, &mut out);
        out
    }
}

impl StakingAndMining for JoychiV1 {
    open spec fn inv(&self) -> bool {
        self.wf()
    }

    /// Opens a staking pool under the next pool id, at the default price per
    /// slot and with no slot taken; the contract owner alone may. Returns a
    /// copy of the stored pool.
    fn create_new_staking_pool(
        &mut self,
        caller: &String,
        name: String,
        reward_nft_ids: Vec<u128>,
        staking_start_time: u128,
        staking_end_time: u128,
        max_slot_in_pool: u128,
        token_reward_per_slot: u128,
        max_slot_per_wallet: u128,
    ) -> (r: Result<PoolMetadata, JoyError>)
        ensures
            caller@ != old(self).owner_id@ ==> r == Err::<PoolMetadata, JoyError>(JoyError::NotOwner),
            caller@ == old(self).owner_id@ && old(self).pool_metadata_by_id@.len() >= u64::MAX
                ==> r == Err::<PoolMetadata, JoyError>(JoyError::Overflow),
            r is Ok <==> caller@ == old(self).owner_id@ && old(self).pool_metadata_by_id@.len() < u64::MAX,
            r is Err ==> *final(self) == *old(self),
            r matches Ok(q) ==> {
                let p = final(self).pool_metadata_by_id@.last();
                &&& final(self).pool_metadata_by_id@.drop_last() == old(self).pool_metadata_by_id@
                &&& final(self).pool_metadata_by_id@.len() == old(self).pool_metadata_by_id@.len() + 1
                &&& p == (PoolMetadata {
                    pool_id: (old(self).pool_metadata_by_id@.len() + 1) as u64,
                    price_per_slot: DEFAULT_PRICE_PER_SLOT,
                    pool_info: PoolInfo {
                        name,
                        reward_nft_ids,
                        staking_start_time,
                        staking_end_time,
                        max_slot_in_pool,
                        token_reward_per_slot,
                        max_slot_per_wallet,
                        total_staked_slot: 0,
                    },
                    staked_pets: p.staked_pets,
                })
                &&& p.staked_pets@.len() == 0
                &&& pool_copy(q, p)
                &&& *final(self) == (JoychiV1 { pool_metadata_by_id: final(self).pool_metadata_by_id, ..*old(self) })
            },
    {
        if *caller != self.owner_id {
            return Err(JoyError::NotOwner);
        }
        let pool_id = match next_id(self.pool_metadata_by_id.len()) {
            Some(k) => k,
            None => return Err(JoyError::Overflow),
        };
        let pool = PoolMetadata {
            pool_id,
            price_per_slot: DEFAULT_PRICE_PER_SLOT,
            pool_info: PoolInfo {
                name,
                reward_nft_ids,
                staking_start_time,
                staking_end_time,
                max_slot_in_pool,
                token_reward_per_slot,
                max_slot_per_wallet,
                total_staked_slot: 0,
            },
            staked_pets: Vec::new(),
        };
        let q = copy_pool(&pool);
        let ghost old_store = *self;
        self.pool_metadata_by_id.push(pool);
        assert(self.pool_metadata_by_id@.drop_last() =~= old_store.pool_metadata_by_id@);
        Ok(q)
    }

    /// Stakes the caller's pet `pet_id` in pool `pool_id`, whose start time
    /// must be behind `now`. The pet is locked, a slot of the pool is taken,
    /// the pair of pet and caller joins the pool's staked list, and the
    /// caller's count of pets in that pool grows by one. Returns a copy of
    /// the updated pool.
    fn stake(&mut self, caller: &String, pet_id: u64, pool_id: u64, now: u64) -> (r: Result<PoolMetadata, JoyError>)
        ensures
            r is Err <==> old(self).stake_error(*caller, pet_id as int, pool_id as int, now as int) is Some,
            r matches Err(e) ==> Some(e) == old(self).stake_error(*caller, pet_id as int, pool_id as int, now as int),
            r is Err ==> *final(self) == *old(self),
            r matches Ok(q) ==> old(self).stake_post(*final(self), *caller, pet_id as int, pool_id as int)
                && pool_copy(q, final(self).pool(pool_id as int)->0),
    {
        let (pi, qi) = match (self.pet_slot(pet_id), slot(pool_id, self.pool_metadata_by_id.len())) {
            (Some(pi), Some(qi)) => (pi, qi),
            _ => return Err(JoyError::NotFound),
        };
        let p = self.pet_metadata_by_id[pi].as_ref().unwrap();
        let pool = &self.pool_metadata_by_id[qi];
        if pool.pool_info.staking_start_time >= now as u128 {
            return Err(JoyError::PoolNotStarted);
        }
        if *caller != p.owner_id {
            return Err(JoyError::NotOwner);
        }
        if p.time_until_starving < now as u128 {
            return Err(JoyError::PetNotAlive);
        }
        if p.is_lock {
            return Err(JoyError::PetLocked);
        }
        if pool.pool_info.total_staked_slot >= pool.pool_info.max_slot_in_pool {
            return Err(JoyError::PoolFull);
        }
        let found = match self.find_counter(caller, pool_id) {
            Ok(f) => f,
            Err(e) => return Err(e),
        };
        let ghost old_store = *self;
        let mut pet = self.take_pet(pi);
        pet.is_lock = true;
        self.pet_metadata_by_id.set(pi, Some(pet));
        let mut pool = self.take_pool(qi);
        pool.pool_info.total_staked_slot = pool.pool_info.total_staked_slot + 1;
        pool.staked_pets.push(NFTInfo { nft_id: pet_id as u128, owner: caller.clone() });
        let q = copy_pool(&pool);
        self.pool_metadata_by_id.set(qi, pool);
        match found {
            Some(f) => {
                let e = &self.user_staked_pet_count[f];
                let bumped = PetCountUser { user: e.user.clone(), pool_id: e.pool_id, pet_count: e.pet_count + 1 };
                proof {
                    assert forall|u: Seq<char>, k: int| count_of(self.user_staked_pet_count@.update(f as int, bumped), u, k)
                        == count_of(self.user_staked_pet_count@, u, k) + if u == caller@ && k == pool_id { 1int } else { 0int } by {
                        lemma_count_update(self.user_staked_pet_count@, f as int, bumped, u, k);
                    }
                }
                self.user_staked_pet_count.set(f, bumped);
            },
            None => {
                let entry = PetCountUser { user: caller.clone(), pool_id, pet_count: 1 };
                proof {
                    assert forall|u: Seq<char>, k: int| count_of(self.user_staked_pet_count@.push(entry), u, k)
                        == count_of(self.user_staked_pet_count@, u, k) + if u == caller@ && k == pool_id { 1int } else { 0int } by {
                        assert(self.user_staked_pet_count@.push(entry).drop_last() =~= self.user_staked_pet_count@);
                    }
                }
                self.user_staked_pet_count.push(entry);
            },
        }
        proof {
            assert forall|k: int| k != pool_id implies #[trigger] self.pool(k) == old_store.pool(k) by {
                if 1 <= k <= self.pool_metadata_by_id@.len() {
                    assert(self.pool_metadata_by_id@[k - 1] == old_store.pool_metadata_by_id@[k - 1]);
                }
            }
            assert forall|i: int| 0 <= i < self.pets().len() && (#[trigger] self.pets()[i]) is Some implies crate::contract::pet_wf(self.pets()[i]->0, i) by {
                assert(old_store.pets()[i] is Some);
            }
            assert forall|u: Seq<char>, k: int| #[trigger] self.staked_count(u, k) == old_store.staked_count(u, k)
                + if u == caller@ && k == pool_id { 1int } else { 0int } by {
            }
            assert(self.pets() =~= old_store.pets().update(pet_id - 1, Some(PetMetadata { is_lock: true, ..old_store.pet(pet_id as int)->0 })));
            assert(self.pool(pool_id as int)->0.staked_pets@ =~= old_store.pool(pool_id as int)->0.staked_pets@.push(NFTInfo { nft_id: pet_id as u128, owner: *caller }));
            assert(old_store.stake_post(*self, *caller, pet_id as int, pool_id as int));
        }
        Ok(q)
    }

    /// Releases the caller's pet `pet_id` from pool `pool_id`, whose end time
    /// must be behind `now`. The pet is unlocked and its pair leaves the
    /// pool's staked list; a token of each reward prototype of the pool is
    /// minted to the caller, and the pool's price per slot is transferred to
    /// the pet's owner.
    fn un_stake(&mut self, caller: &String, pet_id: u64, pool_id: u64, now: u64) -> (r: Result<(), JoyError>)
        ensures
            r == match old(self).unstake_error(*caller, pet_id as int, pool_id as int, now as int) {
                Some(e) => Err(e),
                None => Ok(()),
            },
            r is Err ==> *final(self) == *old(self),
            r is Ok ==> old(self).unstake_post(*final(self), *caller, pet_id as int, pool_id as int, now),
    {
        let (pi, qi) = match (self.pet_slot(pet_id), slot(pool_id, self.pool_metadata_by_id.len())) {
            (Some(pi), Some(qi)) => (pi, qi),
            _ => return Err(JoyError::NotFound),
        };
        let p = self.pet_metadata_by_id[pi].as_ref().unwrap();
        let pool = &self.pool_metadata_by_id[qi];
        let j = match find_stake(&pool.staked_pets, pet_id, caller) {
            Some(j) => j,
            None => return Err(JoyError::NotStaked),
        };
        assert(self.pool(pool_id as int)->0 == *pool);
        assert(is_stake_of(self.pool(pool_id as int)->0.staked_pets@[j as int], pet_id as int, caller@));
        if pool.pool_info.staking_end_time >= now as u128 {
            return Err(JoyError::PoolNotEnded);
        }
        if *caller != p.owner_id {
            return Err(JoyError::NotOwner);
        }
        if p.time_until_starving < now as u128 {
            return Err(JoyError::PetNotAlive);
        }
        if !p.is_lock {
            return Err(JoyError::PetNotLocked);
        }
        if !self.check_rewards(&pool.pool_info.reward_nft_ids) {
            return Err(JoyError::NotFound);
        }
        let rewards = pool.pool_info.reward_nft_ids.clone();
        let price = pool.price_per_slot;
        let owner = p.owner_id.clone();
        let ghost old_store = *self;
        let mut pet = self.take_pet(pi);
        pet.is_lock = false;
        self.pet_metadata_by_id.set(pi, Some(pet));
        let mut pool = self.take_pool(qi);
        pool.staked_pets.remove(j);
        self.pool_metadata_by_id.set(qi, pool);
        proof {
            let op = old_store.pool(pool_id as int)->0;
            assert(is_stake_of(op.staked_pets@[j as int], pet_id as int, caller@));
            assert(self.pool(pool_id as int)->0.staked_pets@ == op.staked_pets@.remove(j as int));
            assert(rewards@ =~= old_store.pool(pool_id as int)->0.pool_info.reward_nft_ids@);
            assert forall|k: int| k != pool_id implies #[trigger] self.pool(k) == old_store.pool(k) by {
                if 1 <= k <= self.pool_metadata_by_id@.len() {
                    assert(self.pool_metadata_by_id@[k - 1] == old_store.pool_metadata_by_id@[k - 1]);
                }
            }
            assert forall|i: int| 0 <= i < self.pets().len() && (#[trigger] self.pets()[i]) is Some implies crate::contract::pet_wf(self.pets()[i]->0, i) by {
                assert(old_store.pets()[i] is Some);
            }
        }
        let ghost mid = *self;
        let mut k: usize = 0;
        while k < rewards.len()
            invariant
                k <= rewards@.len(),
                mid.wf(),
                old_store.rewards_exist(rewards@),
                mid.item_metadata_by_id == old_store.item_metadata_by_id,
                *self == (JoychiV1 { outbox: self.outbox, ..mid }),
                self.outbox@ == mid.outbox@ + reward_mints(rewards@.take(k as int), old_store.item_metadata_by_id@, *caller, now),
            decreases rewards.len() - k,
        {
            let id = rewards[k];
            let ghost before = self.outbox@;
            let _ = self.schedule_item_mint(caller.clone(), id as u64, now);
            proof {
                assert(rewards@.take(k as int + 1) =~= rewards@.take(k as int).push(id));
                assert(reward_mints(rewards@.take(k as int + 1), old_store.item_metadata_by_id@, *caller, now)
                    =~= reward_mints(rewards@.take(k as int), old_store.item_metadata_by_id@, *caller, now).push(
                        LedgerCall::ItemMint {
                            token_id: id as u64,
                            receiver: *caller,
                            attribute: by_id(old_store.item_metadata_by_id@, id as int)->0.attribute_spec(),
                            timestamp: now,
                        },
                    ));
            }
            k = k + 1;
        }
        self.outbox.push(LedgerCall::FtTransfer { receiver: owner, amount: price });
        proof {
            assert(rewards@.take(rewards@.len() as int) =~= rewards@);
            assert(self.pets() =~= old_store.pets().update(pet_id - 1, Some(PetMetadata { is_lock: false, ..old_store.pet(pet_id as int)->0 })));
            let rm = reward_mints(old_store.pool(pool_id as int)->0.pool_info.reward_nft_ids@, old_store.item_metadata_by_id@, *caller, now);
            let tr = LedgerCall::FtTransfer { receiver: old_store.pet(pet_id as int)->0.owner_id, amount: old_store.pool(pool_id as int)->0.price_per_slot };
            assert(self.outbox@ =~= old_store.outbox@ + rm.push(tr));
        }
        Ok(())
    }

    /// After the end of pool `pool_id`, transfers to the contract owner the
    /// rewards of the slots that were never taken: the reward per slot times
    /// the slots left free. The contract owner alone may. Returns the amount.
    fn owner_withdraw_redundant_token(&mut self, caller: &String, pool_id: u64, now: u64) -> (r: Result<u128, JoyError>)
        ensures
            r is Err <==> old(self).withdraw_error(*caller, pool_id as int, now as int) is Some,
            r matches Err(e) ==> Some(e) == old(self).withdraw_error(*caller, pool_id as int, now as int),
            r is Err ==> *final(self) == *old(self),
            r matches Ok(amount) ==> {
                let info = old(self).pool(pool_id as int)->0.pool_info;
                &&& amount == info.token_reward_per_slot * info.max_slot_in_pool - info.token_reward_per_slot * info.total_staked_slot
                &&& final(self).outbox@ == old(self).outbox@.push(LedgerCall::FtTransfer { receiver: *caller, amount })
                &&& *final(self) == (JoychiV1 { outbox: final(self).outbox, ..*old(self) })
            },
    {
        if *caller != self.owner_id {
            return Err(JoyError::NotOwner);
        }
        let i = match slot(pool_id, self.pool_metadata_by_id.len()) {
            Some(i) => i,
            None => return Err(JoyError::NotFound),
        };
        let info = &self.pool_metadata_by_id[i].pool_info;
        if info.staking_end_time >= now as u128 {
            return Err(JoyError::PoolNotEnded);
        }
        let per = info.token_reward_per_slot;
        let max = info.max_slot_in_pool;
        let filled = info.total_staked_slot;
        if per != 0 && max > u128::MAX / per {
            assert(per * max > u128::MAX) by (nonlinear_arith)
                requires
                    per != 0,
                    max > u128::MAX / per,
            ;
            return Err(JoyError::Overflow);
        }
        proof {
            assert(per * max <= u128::MAX) by (nonlinear_arith)
                requires
                    per == 0 || max <= u128::MAX / per,
            ;
            assert(per * filled <= per * max) by (nonlinear_arith)
                requires
                    filled <= max,
            ;
        }
        let amount = per * max - per * filled;
        self.outbox.push(LedgerCall::FtTransfer { receiver: caller.clone(), amount });
        Ok(amount)
    }

    /// Names the mining pool and sets its multipliers.
    fn configure_mining_pool(&mut self, name: String, mining_power_multiplier: u128, charge_of_time_multiplier: u128)
        ensures
            *final(self) == (JoychiV1 {
                mining_pool_name: name,
                mining_power_multiplier,
                charge_of_time_multiplier,
                ..*old(self)
            }),
    {
        self.mining_pool_name = name;
        self.mining_power_multiplier = mining_power_multiplier;
        self.charge_of_time_multiplier = charge_of_time_multiplier;
    }

    /// Sets the mining points that one redemption consumes.
    fn set_mining_points_used_per_redemn(&mut self, points: u128)
        ensures
            *final(self) == (JoychiV1 { points_used_per_redemn: points, ..*old(self) }),
    {
        self.points_used_per_redemn = points;
    }

    /// Sets the tokens that one redemption pays.
    fn set_token_earned_per_redemn(&mut self, token: u128)
        ensures
            *final(self) == (JoychiV1 { token_earned_per_redemn: token, ..*old(self) }),
    {
        self.token_earned_per_redemn = token;
    }

    /// Sets the configured price per slot.
    fn set_price_per_slot(&mut self, price_per_slot: u128)
        ensures
            *final(self) == (JoychiV1 { price_per_slot, ..*old(self) }),
    {
        self.price_per_slot = price_per_slot;
    }

    /// Attaches the mining tool `tool_id` to the caller's rig, creating the
    /// rig with the first tool. The tool must be of the mining type and not
    /// attached already, and the rig must hold fewer than three tools. The
    /// tool is locked and held by the caller, and the rig takes it (see
    /// `attached`).
    fn add_mining_tool(&mut self, caller: &String, tool_id: u64, now: u64) -> (r: Result<(), JoyError>)
        ensures
            r == match old(self).add_tool_error(*caller, tool_id as int) {
                Some(e) => Err(e),
                None => Ok(()),
            },
            r is Err ==> *final(self) == *old(self),
            r is Ok ==> {
                let t = old(self).tool(tool_id as int)->0;
                &&& final(self).item_metadata_by_id@ == old(self).item_metadata_by_id@.update(
                    tool_id - 1,
                    ItemMetadata { is_lock: true, owner: *caller, ..t },
                )
                &&& final(self).rig(caller@) is Some
                &&& final(self).mining_data_by_account_id@ == old(self).rigs_with(*caller, final(self).rig(caller@)->0)
                &&& attached(old(self).rig(caller@), *caller, final(self).rig(caller@)->0, t, tool_id as int, now as int)
                &&& *final(self) == (JoychiV1 {
                    item_metadata_by_id: final(self).item_metadata_by_id,
                    mining_data_by_account_id: final(self).mining_data_by_account_id,
                    ..*old(self)
                })
            },
    {
        let ti = match slot(tool_id, self.item_metadata_by_id.len()) {
            Some(i) => i,
            None => return Err(JoyError::NotFound),
        };
        let t = &self.item_metadata_by_id[ti];
        if t.prototype_item_type != ItemType::MineTool {
            return Err(JoyError::NotMiningTool);
        }
        if t.is_lock {
            return Err(JoyError::ToolLocked);
        }
        let power = t.prototype_itemmining_power;
        let charge = t.prototype_itemmining_charge_time;
        let ghost tg = *t;
        let found = self.find_rig(caller);
        if let Some(ri) = found {
            let rig = &self.mining_data_by_account_id[ri];
            if rig.mining_tool_used.len() >= MAX_MINING_TOOLS {
                return Err(JoyError::ToolLimitReached);
            }
            if rig.total_mining_power > u128::MAX - power || rig.total_mining_charge_time > u128::MAX - charge {
                return Err(JoyError::Overflow);
            }
        }
        let ghost old_store = *self;
        let mut tool = self.take_tool(ti);
        tool.is_lock = true;
        tool.owner = caller.clone();
        self.item_metadata_by_id.set(ti, tool);
        proof {
            assert(self.item_metadata_by_id@ =~= old_store.item_metadata_by_id@.update(
                tool_id - 1,
                ItemMetadata { is_lock: true, owner: *caller, ..tg },
            ));
        }
        let ghost mid = *self;
        match found {
            Some(ri) => {
                let mut rig = self.take_rig(ri);
                attach(&mut rig, tool_id, power, charge, now, Ghost(tg));
                self.mining_data_by_account_id.set(ri, rig);
                proof {
                    assert(self.mining_data_by_account_id@ =~= old_store.mining_data_by_account_id@.update(ri as int, self.mining_data_by_account_id@[ri as int]));
                    assert(self.mining_data_by_account_id@[ri as int].account_id@ == caller@);
                    assert(self.has_rig(caller@));
                    let c = self.rig_index(caller@);
                    if c != ri {
                        if c < ri {
                            assert(self.mining_data_by_account_id@[c].account_id@ != self.mining_data_by_account_id@[ri as int].account_id@);
                        } else {
                            assert(self.mining_data_by_account_id@[ri as int].account_id@ != self.mining_data_by_account_id@[c].account_id@);
                        }
                    }
                }
            },
            None => {
                let mut rig = MiningData {
                    account_id: caller.clone(),
                    mining_points: 0,
                    total_mining_power: 0,
                    total_mining_charge_time: 0,
                    last_mining_time: 0,
                    mining_tool_used: Vec::new(),
                };
                let ghost fresh = rig;
                attach(&mut rig, tool_id, power, charge, now, Ghost(tg));
                self.mining_data_by_account_id.push(rig);
                proof {
                    let n = old_store.mining_data_by_account_id@.len() as int;
                    assert(self.mining_data_by_account_id@[n].account_id@ == caller@);
                    assert(self.has_rig(caller@));
                    let c = self.rig_index(caller@);
                    assert(c == n);
                    assert(self.mining_data_by_account_id@[n].mining_tool_used@ =~= seq![tool_id as u128]);
                    assert(self.mining_data_by_account_id@ =~= old_store.mining_data_by_account_id@.push(self.mining_data_by_account_id@[n]));
                }
            },
        }
        Ok(())
    }

    /// Detaches the tool `tool_id` from the caller's rig; the caller must own
    /// the tool and the rig must hold it. The tool leaves the list, the totals lose its power and charge time (floored
    /// at zero), and the tool is unlocked.
    fn remove_mining_tool(&mut self, caller: &String, tool_id: u64) -> (r: Result<(), JoyError>)
        ensures
            r == match old(self).remove_tool_error(*caller, tool_id as int) {
                Some(e) => Err(e),
                None => Ok(()),
            },
            r is Err ==> *final(self) == *old(self),
            r is Ok ==> {
                let t = old(self).tool(tool_id as int)->0;
                let ri = old(self).rig_index(caller@);
                let rig = old(self).rig(caller@)->0;
                &&& final(self).item_metadata_by_id@ == old(self).item_metadata_by_id@.update(tool_id - 1, ItemMetadata { is_lock: false, ..t })
                &&& final(self).mining_data_by_account_id@ == old(self).mining_data_by_account_id@.update(ri, final(self).mining_data_by_account_id@[ri])
                &&& exists|j: int| first_at(rig.mining_tool_used@, tool_id as u128, j) && detached(rig, final(self).mining_data_by_account_id@[ri], t, j)
                &&& *final(self) == (JoychiV1 {
                    item_metadata_by_id: final(self).item_metadata_by_id,
                    mining_data_by_account_id: final(self).mining_data_by_account_id,
                    ..*old(self)
                })
            },
    {
        let ti = match slot(tool_id, self.item_metadata_by_id.len()) {
            Some(i) => i,
            None => return Err(JoyError::NotFound),
        };
        let ri = match self.find_rig(caller) {
            Some(i) => i,
            None => return Err(JoyError::NotFound),
        };
        let j = match position_of(&self.mining_data_by_account_id[ri].mining_tool_used, tool_id as u128) {
            Some(j) => j,
            None => return Err(JoyError::NotOwner),
        };
        if self.item_metadata_by_id[ti].owner != *caller {
            return Err(JoyError::NotOwner);
        }
        let ghost old_store = *self;
        let power = self.item_metadata_by_id[ti].prototype_itemmining_power;
        let charge = self.item_metadata_by_id[ti].prototype_itemmining_charge_time;
        let mut tool = self.take_tool(ti);
        tool.is_lock = false;
        self.item_metadata_by_id.set(ti, tool);
        let mut rig = self.take_rig(ri);
        rig.total_mining_power = if rig.total_mining_power >= power { rig.total_mining_power - power } else { 0 };
        rig.total_mining_charge_time = if rig.total_mining_charge_time >= charge {
            rig.total_mining_charge_time - charge
        } else {
            0
        };
        rig.mining_tool_used.remove(j);
        self.mining_data_by_account_id.set(ri, rig);
        proof {
            assert(self.item_metadata_by_id@ =~= old_store.item_metadata_by_id@.update(tool_id - 1, ItemMetadata { is_lock: false, ..old_store.item_metadata_by_id@[ti as int] }));
            assert(self.mining_data_by_account_id@ =~= old_store.mining_data_by_account_id@.update(ri as int, self.mining_data_by_account_id@[ri as int]));
            assert(first_at(old_store.mining_data_by_account_id@[ri as int].mining_tool_used@, tool_id as u128, j as int));
            let t = old_store.item_metadata_by_id@[ti as int];
            assert(t.prototype_itemmining_power == power);
            assert(detached(old_store.mining_data_by_account_id@[ri as int], self.mining_data_by_account_id@[ri as int], t, j as int));
        }
        Ok(())
    }

    /// Mines with the caller's rig: once the rig's total charge time has
    /// passed since it last mined, it earns `POINTS_PER_POWER` points per unit
    /// of power, and its clock restarts at `now`.
    fn mining(&mut self, caller: &String, now: u64) -> (r: Result<(), JoyError>)
        ensures
            r == match old(self).mining_error(*caller, now as int) {
                Some(e) => Err(e),
                None => Ok(()),
            },
            r is Err ==> *final(self) == *old(self),
            r is Ok ==> {
                let rig = old(self).rig(caller@)->0;
                &&& final(self).mining_data_by_account_id@ == old(self).mining_data_by_account_id@.update(
                    old(self).rig_index(caller@),
                    MiningData {
                        mining_points: (rig.mining_points + POINTS_PER_POWER * rig.total_mining_power) as u128,
                        last_mining_time: now as u128,
                        ..rig
                    },
                )
                &&& *final(self) == (JoychiV1 { mining_data_by_account_id: final(self).mining_data_by_account_id, ..*old(self) })
            },
    {
        let ri = match self.find_rig(caller) {
            Some(i) => i,
            None => return Err(JoyError::NotFound),
        };
        let rig = &self.mining_data_by_account_id[ri];
        if rig.total_mining_power == 0 {
            return Err(JoyError::NoMiningPower);
        }
        if (now as u128) < rig.last_mining_time || (now as u128) - rig.last_mining_time < rig.total_mining_charge_time {
            return Err(JoyError::MiningCooldown);
        }
        if rig.total_mining_power > (u128::MAX - rig.mining_points) / POINTS_PER_POWER {
            return Err(JoyError::Overflow);
        }
        let mut rig = self.take_rig(ri);
        rig.mining_points = rig.mining_points + POINTS_PER_POWER * rig.total_mining_power;
        rig.last_mining_time = now as u128;
        self.mining_data_by_account_id.set(ri, rig);
        Ok(())
    }

    /// Redeems mining points of the caller: the rig must hold more than the
    /// points one redemption consumes; those are deducted, and the tokens one
    /// redemption pays are transferred to the caller.
    fn redemn_mining_points(&mut self, caller: &String) -> (r: Result<(), JoyError>)
        ensures
            r == match old(self).redeem_points_error(*caller) {
                Some(e) => Err(e),
                None => Ok(()),
            },
            r is Err ==> *final(self) == *old(self),
            r is Ok ==> {
                let rig = old(self).rig(caller@)->0;
                &&& final(self).mining_data_by_account_id@ == old(self).mining_data_by_account_id@.update(
                    old(self).rig_index(caller@),
                    MiningData { mining_points: (rig.mining_points - old(self).points_used_per_redemn) as u128, ..rig },
                )
                &&& final(self).outbox@ == old(self).outbox@.push(LedgerCall::FtTransfer { receiver: *caller, amount: old(self).token_earned_per_redemn })
                &&& *final(self) == (JoychiV1 {
                    mining_data_by_account_id: final(self).mining_data_by_account_id,
                    outbox: final(self).outbox,
                    ..*old(self)
                })
            },
    {
        let ri = match self.find_rig(caller) {
            Some(i) => i,
            None => return Err(JoyError::NotFound),
        };
        if self.mining_data_by_account_id[ri].mining_points <= self.points_used_per_redemn {
            return Err(JoyError::NotEnoughPoints);
        }
        let mut rig = self.take_rig(ri);
        rig.mining_points = rig.mining_points - self.points_used_per_redemn;
        self.mining_data_by_account_id.set(ri, rig);
        self.outbox.push(LedgerCall::FtTransfer { receiver: caller.clone(), amount: self.token_earned_per_redemn });
        Ok(())
    }

    /// Takes the first `value` out of the caller's tool list, leaving the
    /// totals and the tool's lock as they are.
    fn remove_item_from_list_tool(&mut self, caller: &String, value: u128) -> (r: Result<(), JoyError>)
        ensures
            r is Ok <==> old(self).rig(caller@) is Some && old(self).rig(caller@)->0.mining_tool_used@.contains(value),
            r is Err ==> r == Err::<(), JoyError>(JoyError::NotFound) && *final(self) == *old(self),
            r is Ok ==> {
                let ri = old(self).rig_index(caller@);
                let rig = old(self).rig(caller@)->0;
                let nr = final(self).mining_data_by_account_id@[ri];
                &&& final(self).mining_data_by_account_id@ == old(self).mining_data_by_account_id@.update(ri, nr)
                &&& nr == (MiningData { mining_tool_used: nr.mining_tool_used, ..rig })
                &&& exists|j: int| first_at(rig.mining_tool_used@, value, j) && nr.mining_tool_used@ == rig.mining_tool_used@.remove(j)
                &&& *final(self) == (JoychiV1 { mining_data_by_account_id: final(self).mining_data_by_account_id, ..*old(self) })
            },
    {
        let ri = match self.find_rig(caller) {
            Some(i) => i,
            None => return Err(JoyError::NotFound),
        };
        let j = match position_of(&self.mining_data_by_account_id[ri].mining_tool_used, value) {
            Some(j) => j,
            None => return Err(JoyError::NotFound),
        };
        let ghost old_store = *self;
        let mut rig = self.take_rig(ri);
        rig.mining_tool_used.remove(j);
        self.mining_data_by_account_id.set(ri, rig);
        proof {
            assert(self.mining_data_by_account_id@ =~= old_store.mining_data_by_account_id@.update(ri as int, self.mining_data_by_account_id@[ri as int]));
            assert(first_at(old_store.mining_data_by_account_id@[ri as int].mining_tool_used@, value, j as int));
        }
        Ok(())
    }
}

} // verus!

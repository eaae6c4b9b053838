use vstd::prelude::*;
use crate::contract::JoyError;

verus! {

/// How many pets one account has staked in one pool.
#[derive(Clone)]
pub struct PetCountUser {
    pub user: String,
    pub pool_id: u64,
    pub pet_count: u64,
}

/// A staked pet and the account that staked it.
pub struct NFTInfo {
    pub nft_id: u128,
    pub owner: String,
}

impl Clone for NFTInfo {
    fn clone(&self) -> (r: Self)
        ensures
            r == *self,
    {
        NFTInfo { nft_id: self.nft_id, owner: self.owner.clone() }
    }
}

/// The configuration and fill state of a staking pool.
#[derive(Clone)]
pub struct PoolInfo {
    pub name: String,
    /// Tool prototypes minted to a staker when the stake is released.
    pub reward_nft_ids: Vec<u128>,
    pub staking_start_time: u128,
    pub staking_end_time: u128,
    pub max_slot_in_pool: u128,
    pub token_reward_per_slot: u128,
    pub max_slot_per_wallet: u128,
    pub total_staked_slot: u128,
}

#[derive(Clone)]
pub struct PoolMetadata {
    pub pool_id: u64,
    pub price_per_slot: u128,
    pub pool_info: PoolInfo,
    pub staked_pets: Vec<NFTInfo>,
}

/// The mining rig of one account.
#[derive(Clone)]
pub struct MiningData {
    pub account_id: String,
    pub mining_points: u128,
    pub total_mining_power: u128,
    pub total_mining_charge_time: u128,
    pub last_mining_time: u128,
    pub mining_tool_used: Vec<u128>,
}

/// Staking pools and mining rigs.
pub trait StakingAndMining {
    /// The invariant of the store that these operations work on.
    spec fn inv(&self) -> bool;

    fn create_new_staking_pool(
        &mut self,
        caller: &String,
        name: String,
        reward_nft_ids: Vec<u128>,
        staking_start_time: u128,
        staking_end_time: u128,
        max_slot_in_pool: u128,
        token_reward_per_slot: u128,
        max_slot_per_wallet: u128,
    ) -> (r: Result<PoolMetadata, JoyError>)
        requires
            old(self).inv(),
        ensures
            final(self).inv(),
    ;

    fn stake(&mut self, caller: &String, pet_id: u64, pool_id: u64, now: u64) -> (r: Result<PoolMetadata, JoyError>)
        requires
            old(self).inv(),
        ensures
            final(self).inv(),
    ;

    fn un_stake(&mut self, caller: &String, pet_id: u64, pool_id: u64, now: u64) -> (r: Result<(), JoyError>)
        requires
            old(self).inv(),
        ensures
            final(self).inv(),
    ;

    fn add_mining_tool(&mut self, caller: &String, tool_id: u64, now: u64) -> (r: Result<(), JoyError>)
        requires
            old(self).inv(),
        ensures
            final(self).inv(),
    ;

    fn remove_mining_tool(&mut self, caller: &String, tool_id: u64) -> (r: Result<(), JoyError>)
        requires
            old(self).inv(),
        ensures
            final(self).inv(),
    ;

    fn mining(&mut self, caller: &String, now: u64) -> (r: Result<(), JoyError>)
        requires
            old(self).inv(),
        ensures
            final(self).inv(),
    ;

    fn redemn_mining_points(&mut self, caller: &String) -> (r: Result<(), JoyError>)
        requires
            old(self).inv(),
        ensures
            final(self).inv(),
    ;

    fn owner_withdraw_redundant_token(&mut self, caller: &String, pool_id: u64, now: u64) -> (r: Result<u128, JoyError>)
        requires
            old(self).inv(),
        ensures
            final(self).inv(),
    ;

    fn configure_mining_pool(&mut self, name: String, mining_power_multiplier: u128, charge_of_time_multiplier: u128)
        requires
            old(self).inv(),
        ensures
            final(self).inv(),
    ;

    fn set_mining_points_used_per_redemn(&mut self, points: u128)
        requires
            old(self).inv(),
        ensures
            final(self).inv(),
    ;

    fn set_token_earned_per_redemn(&mut self, token: u128)
        requires
            old(self).inv(),
        ensures
            final(self).inv(),
    ;

    fn set_price_per_slot(&mut self, price_per_slot: u128)
        requires
            old(self).inv(),
        ensures
            final(self).inv(),
    ;

    fn remove_item_from_list_tool(&mut self, caller: &String, value: u128) -> (r: Result<(), JoyError>)
        requires
            old(self).inv(),
        ensures
            final(self).inv(),
    ;
}

/// Queries on mining rigs.
pub trait StakingAndMiningEnum {
    /// The invariant of the store that these operations work on.
    spec fn inv(&self) -> bool;

    fn get_mining_data_by_account_id(&self, account_id: &String) -> (r: Option<MiningData>)
        requires
            self.inv(),
    ;
}

} // verus!

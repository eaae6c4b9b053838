use vstd::prelude::*;
use crate::contract::{BattleMetadata, JoyError};
use crate::ledger::TokenMetadata;

use crate::item_immidiate::ItemImmidiateMetadata;
use crate::status::Status;

verus! {

/// One stage of a species' evolution track.
pub struct PetEvolution {
    pub image: String,
    pub name: String,
    pub attack_win_rate: u128,
    /// The level at which a pet in this stage advances to the next one.
    pub next_evolution_level: u128,
}

impl Clone for PetEvolution {
    fn clone(&self) -> (r: Self)
        ensures
            r == *self,
    {
        PetEvolution {
            image: self.image.clone(),
            name: self.name.clone(),
            attack_win_rate: self.attack_win_rate,
            next_evolution_level: self.next_evolution_level,
        }
    }
}

/// A species template: its name, the item it needs to evolve, and its stages.
#[derive(Clone)]
pub struct PetSpecies {
    pub species_id: u64,
    pub species_name: String,
    pub need_evolution_item: bool,
    pub evolution_item_id: u128,
    pub pet_evolution: Vec<PetEvolution>,
}

/// The stored record of a pet.
#[derive(Clone)]
pub struct PetMetadata {
    pub pet_id: u64,
    pub name: String,
    pub owner_id: String,
    pub time_pet_born: u128,
    /// The starving deadline: the pet is alive while it is not behind now.
    pub time_until_starving: u128,
    pub items: Vec<ItemImmidiateMetadata>,
    pub score: u128,
    pub level: u128,
    pub status: Status,
    pub star: u64,
    pub reward_debt: u128,
    pub pet_species: u128,
    pub pet_shield: u128,
    pub last_attack_used: u128,
    pub last_attacked: u128,
    pub pet_evolution_item_id: u128,
    pub pet_need_evolution_item: bool,
    pub pet_has_evolution_item: bool,
    /// The current evolution stage, counted from 1.
    pub pet_evolution_phase: u128,
    /// Accounts allowed to push attribute and metadata updates for this pet.
    pub extra_permission: Vec<String>,
    pub category: String,
    /// Set while the pet is staked in a pool.
    pub is_lock: bool,
    /// The evolution track copied from the species when the pet was created.
    pub pet_evolution: Vec<PetEvolution>,
}

/// The display attributes of a pet, as pushed to the NFT ledger.
pub struct PetAttribute {
    pub pet_name: String,
    pub image: String,
    pub score: u128,
    pub level: u128,
    pub status: Status,
    pub star: u64,
}

impl Clone for PetAttribute {
    fn clone(&self) -> (r: Self)
        ensures
            r == *self,
    {
        PetAttribute {
            pet_name: self.pet_name.clone(),
            image: self.image.clone(),
            score: self.score,
            level: self.level,
            status: self.status,
            star: self.star,
        }
    }
}

impl PetMetadata {
    /// The evolution phase lies within the pet's evolution track.
    pub open spec fn phase_in_track(&self) -> bool {
        1 <= self.pet_evolution_phase <= self.pet_evolution@.len()
    }

    /// The stage that the pet is in now.
    pub open spec fn current_stage(&self) -> PetEvolution {
        self.pet_evolution@[self.pet_evolution_phase - 1]
    }
}

/// Pet lifecycle operations.
pub trait PetFeature {
    /// The invariant of the store that these operations work on.
    spec fn inv(&self) -> bool;

    fn set_manager(&mut self, caller: &String, manager_addr: String) -> (r: Result<(), JoyError>)
    ;

    fn create_pet(&mut self, caller: &String, name: String, now: u64, seed: u64) -> (r: Result<PetMetadata, JoyError>)
        requires
            old(self).inv(),
        ensures
            final(self).inv(),
    ;

    fn change_name_pet(&mut self, caller: &String, pet_id: u64, name: String) -> (r: Result<(), JoyError>)
        requires
            old(self).inv(),
        ensures
            final(self).inv(),
    ;

    fn buy_item(&mut self, caller: &String, pet_id: u64, item_id: u64, now: u64) -> (r: Result<(), JoyError>)
        requires
            old(self).inv(),
        ensures
            final(self).inv(),
    ;

    fn attack(&mut self, caller: &String, from_id: u64, to_id: u64, now: u64, seed: u64) -> (r: Result<BattleMetadata, JoyError>)
        requires
            old(self).inv(),
        ensures
            final(self).inv(),
    ;

    fn kill_pet(&mut self, caller: &String, pet_kill: u64, pet_receive: u64, now: u64) -> (r: Result<(), JoyError>)
        requires
            old(self).inv(),
        ensures
            final(self).inv(),
    ;

    fn level_pet(&mut self, pet_id: u64) -> (r: Result<u128, JoyError>)
        requires
            old(self).inv(),
        ensures
            final(self).inv(),
    ;

    fn is_pet_alive(&self, pet_id: u64, now: u64) -> (r: Result<bool, JoyError>)
    ;

    fn create_species(
        &mut self,
        caller: &String,
        need_evol_item: bool,
        evol_item_id: u128,
        name_spec: String,
        pet_evolution: Vec<PetEvolution>,
    ) -> (r: Result<(), JoyError>)
        requires
            old(self).inv(),
        ensures
            final(self).inv(),
    ;

    fn redeem(&mut self, pet_id: u64, to_addr: String) -> (r: Result<(), JoyError>)
        requires
            old(self).inv(),
        ensures
            final(self).inv(),
    ;

    fn token_uri(&mut self, pet_id: u64, now: u64) -> (r: Result<PetAttribute, JoyError>)
        requires
            old(self).inv(),
        ensures
            final(self).inv(),
    ;

    fn check_role_update_pet(&self, pet_id: u64, user_id: &String) -> (r: bool)
    ;

    fn add_access_update_pet(&mut self, caller: &String, pet_id: u64, user_id: String) -> (r: Result<PetMetadata, JoyError>)
        requires
            old(self).inv(),
        ensures
            final(self).inv(),
    ;

    fn delegate_update_attribute(&mut self, caller: &String, pet_id: u64, pet_attribute: PetAttribute) -> (r: Result<(), JoyError>)
        requires
            old(self).inv(),
        ensures
            final(self).inv(),
    ;

    fn delegate_update_metadata(&mut self, caller: &String, pet_id: u64, token_metadata: TokenMetadata) -> (r: Result<(), JoyError>)
        requires
            old(self).inv(),
        ensures
            final(self).inv(),
    ;

    fn check_evol_pet_if_needed(&mut self, pet_id: u64) -> (r: Result<(), JoyError>)
        requires
            old(self).inv(),
        ensures
            final(self).inv(),
    ;
}

/// Queries on pets and battles.
pub trait PetEnum {
    /// The invariant of the store that these operations work on.
    spec fn inv(&self) -> bool;

    fn get_all_pet_metadata(&self, start: Option<u32>, limit: Option<u32>) -> (r: Vec<PetMetadata>)
    ;

    fn get_pet_by_pet_id(&self, pet_id: u64) -> (r: Option<PetMetadata>)
    ;

    fn get_all_battle_metadata(&self, start: Option<u32>, limit: Option<u32>) -> (r: Vec<BattleMetadata>)
    ;

    fn get_battle_by_pet_id(&self, battle_id: u64) -> (r: Option<BattleMetadata>)
    ;

    fn get_status_pet(&self, pet_id: u64, now: u64) -> (r: Option<Status>)
    ;

    fn get_pet_evolution_item(&self, pet_id: u64) -> (r: Option<PetEvolution>)
        requires
            self.inv(),
    ;

    fn get_pet_attack_winrate(&self, pet_id: u64) -> (r: Option<u128>)
        requires
            self.inv(),
    ;

    fn get_pet_image(&self, pet_id: u64) -> (r: Option<String>)
        requires
            self.inv(),
    ;

    fn get_pet_evolution_phase(&self, pet_id: u64, current_evo_phase: u128) -> (r: Result<u128, JoyError>)
    ;
}

} // verus!

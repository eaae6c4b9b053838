use vstd::prelude::*;

use crate::item_factory::ItemMetadata;
use crate::item_immidiate::ItemImmidiateMetadata;
use crate::leveling::level_spec;
use crate::ledger::LedgerCall;
use crate::pet::{PetMetadata, PetSpecies};
use crate::staking_and_mining::{MiningData, PetCountUser, PoolMetadata};

verus! {

/// An entry of the append-only battle log.
#[derive(Clone, Copy, PartialEq, Eq, Structural, Debug)]
pub struct BattleMetadata {
    pub battle_id: u64,
    pub winner: u64,
    pub attacker: u64,
    pub loser: u64,
    pub time: u64,
}

/// Why an operation was refused. A refused operation changes nothing.
#[derive(Clone, Copy, PartialEq, Eq, Structural, Debug)]
pub enum JoyError {
    /// An id names no record.
    NotFound,
    /// The caller lacks the ownership or permission the operation needs.
    NotOwner,
    /// The pet's starving deadline is behind the current time.
    PetNotAlive,
    /// The pet is staked.
    PetLocked,
    /// The pet is not staked.
    PetNotLocked,
    /// The item has no stock left.
    OutOfStock,
    /// Every slot of the pool is taken.
    PoolFull,
    /// The mining rig already holds the most tools it can.
    ToolLimitReached,
    /// The attacker attacked less than 15 minutes ago.
    AttackCooldown,
    /// The defender was attacked less than an hour ago.
    DefenderCooldown,
    /// The mining rig has not charged since it last mined.
    MiningCooldown,
    /// The attacker's level is not below the defender's.
    LevelGate,
    /// Both ids of a two-pet operation name the same pet.
    SelfTarget,
    /// No species has been registered.
    NoSpecies,
    /// A species needs at least one evolution stage.
    EmptyEvolution,
    /// The pool's start time is not yet behind the current time.
    PoolNotStarted,
    /// The pool's end time is not yet behind the current time.
    PoolNotEnded,
    /// The pet is not staked by the caller in that pool.
    NotStaked,
    /// The item is not a mining tool.
    NotMiningTool,
    /// The tool is already attached to a mining rig.
    ToolLocked,
    /// The mining rig has no power.
    NoMiningPower,
    /// The mining points do not exceed the redemption threshold.
    NotEnoughPoints,
    /// A quantity or an id would not fit its integer type.
    Overflow,
}

/// Pet creation fee, burned from the creator's fungible tokens.
pub const CREATION_FEE: u128 = 10_000_000_000;

/// Native amount sent to the receiving account when a pet is redeemed:
/// 0.0001 of the native coin, in yocto units.
pub const REDEEM_TRANSFER: u128 = 100_000_000_000_000_000_000;

/// Points moved from the loser to the winner of a battle.
pub const BATTLE_POINTS: u128 = 1000;

/// Price per slot of a newly created pool.
pub const DEFAULT_PRICE_PER_SLOT: u128 = 37;

/// The most tools that one mining rig holds.
pub const MAX_MINING_TOOLS: usize = 3;

/// The entity store: every record of the game, and the ledger calls that the
/// operations have scheduled and that have not been taken for sending yet.
/// Records of a table are stored in order of id, id `k` at index `k - 1`; a
/// killed pet leaves an empty slot, so that no id is reused. The tables are
/// held in memory; keeping them across calls is the host's storage concern.
pub struct JoychiV1 {
    pub owner_id: String,
    pub nft_address: String,
    pub nft_item_address: String,
    pub manager_address: String,
    pub total_score: u128,
    pub ft_address: String,
    pub item_immidiate_metadata_by_id: Vec<ItemImmidiateMetadata>,
    pub item_metadata_by_id: Vec<ItemMetadata>,
    pub pet_metadata_by_id: Vec<Option<PetMetadata>>,
    pub battle_metadata_by_id: Vec<BattleMetadata>,
    pub pet_species_metadata_by_id: Vec<PetSpecies>,
    pub pool_metadata_by_id: Vec<PoolMetadata>,
    pub user_staked_pet_count: Vec<PetCountUser>,
    pub mining_data_by_account_id: Vec<MiningData>,
    pub mining_pool_name: String,
    pub mining_power_multiplier: u128,
    pub charge_of_time_multiplier: u128,
    pub points_used_per_redemn: u128,
    pub token_earned_per_redemn: u128,
    pub price_per_slot: u128,
    pub outbox: Vec<LedgerCall>,
}

/// A stored pet is well formed: its id matches its slot, its phase lies in
/// its evolution track, and its level is the one its score gives.
pub open spec fn pet_wf(p: PetMetadata, slot: int) -> bool {
    &&& p.pet_id == slot + 1
    &&& p.phase_in_track()
    &&& p.level == level_spec(p.score as int)
}

/// The pet with id `id` among the slots `pets`.
pub open spec fn pet_at(pets: Seq<Option<PetMetadata>>, id: int) -> Option<PetMetadata> {
    if 1 <= id <= pets.len() {
        pets[id - 1]
    } else {
        None
    }
}

/// Every entry of a pool's staked list names a stored pet that is locked, and
/// no pet has two entries, in one pool or across pools.
pub open spec fn stakes_ok(pets: Seq<Option<PetMetadata>>, pools: Seq<PoolMetadata>) -> bool {
    &&& forall|q: int, j: int|
        #![trigger pools[q].staked_pets@[j]]
        0 <= q < pools.len() && 0 <= j < pools[q].staked_pets@.len() ==> pet_at(
            pets,
            pools[q].staked_pets@[j].nft_id as int,
        ) is Some && pet_at(pets, pools[q].staked_pets@[j].nft_id as int)->0.is_lock
    &&& forall|q1: int, j1: int, q2: int, j2: int|
        #![trigger pools[q1].staked_pets@[j1], pools[q2].staked_pets@[j2]]
        0 <= q1 < pools.len() && 0 <= j1 < pools[q1].staked_pets@.len() && 0 <= q2 < pools.len()
            && 0 <= j2 < pools[q2].staked_pets@.len() && (q1 != q2 || j1 != j2)
            ==> pools[q1].staked_pets@[j1].nft_id != pools[q2].staked_pets@[j2].nft_id
}

impl JoychiV1 {
    pub open spec fn pets(&self) -> Seq<Option<PetMetadata>> {
        self.pet_metadata_by_id@
    }

    /// The pet with id `id`, if there is one.
    pub open spec fn pet(&self, id: int) -> Option<PetMetadata> {
        if 1 <= id <= self.pets().len() {
            self.pets()[id - 1]
        } else {
            None
        }
    }

    pub open spec fn has_pet(&self, id: int) -> bool {
        self.pet(id) is Some
    }

    /// The store invariant.
    pub open spec fn wf(&self) -> bool {
        &&& forall|i: int|
            0 <= i < self.pets().len() && (#[trigger] self.pets()[i]) is Some ==> pet_wf(
                self.pets()[i]->0,
                i,
            )
        &&& forall|i: int|
            0 <= i < self.pet_species_metadata_by_id@.len() ==> {
                let s = #[trigger] self.pet_species_metadata_by_id@[i];
                s.species_id == i + 1 && s.pet_evolution@.len() > 0
            }
        &&& forall|i: int|
            0 <= i < self.item_immidiate_metadata_by_id@.len() ==> (#[trigger]
            self.item_immidiate_metadata_by_id@[i]).item_id == i + 1
        &&& forall|i: int|
            0 <= i < self.item_metadata_by_id@.len() ==> (#[trigger]
            self.item_metadata_by_id@[i]).item_id == i + 1
        &&& forall|i: int|
            0 <= i < self.battle_metadata_by_id@.len() ==> (#[trigger]
            self.battle_metadata_by_id@[i]).battle_id == i + 1
        &&& forall|i: int|
            0 <= i < self.pool_metadata_by_id@.len() ==> {
                let p = #[trigger] self.pool_metadata_by_id@[i];
                p.pool_id == i + 1 && p.pool_info.total_staked_slot
                    <= p.pool_info.max_slot_in_pool
            }
        &&& forall|i: int|
            0 <= i < self.mining_data_by_account_id@.len()
                ==> (#[trigger] self.mining_data_by_account_id@[i]).mining_tool_used@.len()
                <= MAX_MINING_TOOLS
        &&& forall|i: int, j: int|
            0 <= i < j < self.mining_data_by_account_id@.len() ==> (#[trigger]
            self.mining_data_by_account_id@[i]).account_id@ != (#[trigger]
            self.mining_data_by_account_id@[j]).account_id@
        &&& stakes_ok(self.pets(), self.pool_metadata_by_id@)
    }

    /// A store owned by `owner_id`, with every table empty and the manager
    /// set to the account that deploys it.
    pub fn new(
        signer: &String,
        owner_id: String,
        nft_addr: String,
        nft_item_addr: String,
        ft_addr: String,
    ) -> (r: Self)
        ensures
            r.wf(),
            r.owner_id == owner_id,
            r.manager_address == *signer,
            r.nft_address == nft_addr,
            r.nft_item_address == nft_item_addr,
            r.ft_address == ft_addr,
            r.total_score == 0,
            r.item_immidiate_metadata_by_id@.len() == 0,
            r.item_metadata_by_id@.len() == 0,
            r.pets().len() == 0,
            r.battle_metadata_by_id@.len() == 0,
            r.pet_species_metadata_by_id@.len() == 0,
            r.pool_metadata_by_id@.len() == 0,
            r.user_staked_pet_count@.len() == 0,
            r.mining_data_by_account_id@.len() == 0,
            r.mining_pool_name@.len() == 0,
            r.mining_power_multiplier == 0,
            r.charge_of_time_multiplier == 0,
            r.points_used_per_redemn == 0,
            r.token_earned_per_redemn == 0,
            r.price_per_slot == 0,
            r.outbox@.len() == 0,
    {
        JoychiV1 {
            owner_id,
            nft_address: nft_addr,
            nft_item_address: nft_item_addr,
            manager_address: signer.clone(),
            total_score: 0,
            ft_address: ft_addr,
            item_immidiate_metadata_by_id: Vec::new(),
            item_metadata_by_id: Vec::new(),
            pet_metadata_by_id: Vec::new(),
            battle_metadata_by_id: Vec::new(),
            pet_species_metadata_by_id: Vec::new(),
            pool_metadata_by_id: Vec::new(),
            user_staked_pet_count: Vec::new(),
            mining_data_by_account_id: Vec::new(),
            mining_pool_name: String::new(),
            mining_power_multiplier: 0,
            charge_of_time_multiplier: 0,
            points_used_per_redemn: 0,
            token_earned_per_redemn: 0,
            price_per_slot: 0,
            outbox: Vec::new(),
        }
    }

    /// A store owned by the account that deploys it.
    pub fn init(signer: &String, nft_addr: String, nft_item_addr: String, ft_addr: String) -> (r:
        Self)
        ensures
            r.wf(),
            r.owner_id == *signer,
            r.manager_address == *signer,
            r.nft_address == nft_addr,
            r.nft_item_address == nft_item_addr,
            r.ft_address == ft_addr,
            r.total_score == 0,
            r.item_immidiate_metadata_by_id@.len() == 0,
            r.item_metadata_by_id@.len() == 0,
            r.pets().len() == 0,
            r.battle_metadata_by_id@.len() == 0,
            r.pet_species_metadata_by_id@.len() == 0,
            r.pool_metadata_by_id@.len() == 0,
            r.user_staked_pet_count@.len() == 0,
            r.mining_data_by_account_id@.len() == 0,
            r.mining_pool_name@.len() == 0,
            r.mining_power_multiplier == 0,
            r.charge_of_time_multiplier == 0,
            r.points_used_per_redemn == 0,
            r.token_earned_per_redemn == 0,
            r.price_per_slot == 0,
            r.outbox@.len() == 0,
    {
        JoychiV1::new(signer, signer.clone(), nft_addr, nft_item_addr, ft_addr)
    }

    /// Hands over the scheduled ledger calls, oldest first, and empties the
    /// outbox.
    pub fn take_outbox(&mut self) -> (r: Vec<LedgerCall>)
        ensures
            r@ == old(self).outbox@,
            final(self).outbox@.len() == 0,
            *final(self) == (JoychiV1 { outbox: final(self).outbox, ..*old(self) }),
    {
        let mut calls: Vec<LedgerCall> = Vec::new();
        std::mem::swap(&mut calls, &mut self.outbox);
        calls
    }

}


} // verus!

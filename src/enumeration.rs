use vstd::prelude::*;
use crate::item_factory::ItemEnum;
use crate::pet::PetEnum;
use crate::staking_and_mining::StakingAndMiningEnum;

use crate::contract::{BattleMetadata, JoyError, JoychiV1};
use crate::evolution::{advance_phase, advanced_phase};
use crate::item_factory::ItemMetadata;
use crate::item_immidiate::{ItemImmidiateEnum, ItemImmidiateMetadata};
use crate::pet::{PetEvolution, PetMetadata};
use crate::staking_and_mining::MiningData;
use crate::status::{status_at, status_spec, Status};
use crate::store::slot;

verus! {

/// Page size used when a listing names none.
pub const DEFAULT_PAGE_LIMIT: u32 = 20;

/// The first position of a page: `start` records are skipped.
pub open spec fn page_lo(start: Option<u32>, n: int) -> int {
    let s = match start { Some(v) => v as int, None => 0 };
    if s < n { s } else { n }
}

/// The end of a page: at most `limit` records follow its first position.
pub open spec fn page_hi(start: Option<u32>, limit: Option<u32>, n: int) -> int {
    let s = match start { Some(v) => v as int, None => 0 };
    let l = match limit { Some(v) => v as int, None => DEFAULT_PAGE_LIMIT as int };
    if s + l < n { s + l } else { n }
}

/// The records of `s` that a page covers.
pub open spec fn page<T>(s: Seq<T>, start: Option<u32>, limit: Option<u32>) -> Seq<T> {
    s.subrange(page_lo(start, s.len() as int), page_hi(start, limit, s.len() as int))
}

/// The live pets of the slots `s`, in order of id.
pub open spec fn live(s: Seq<Option<PetMetadata>>) -> Seq<PetMetadata>
    decreases s.len(),
{
    if s.len() == 0 {
        Seq::empty()
    } else {
        match s.last() {
            Some(p) => live(s.drop_last()).push(p),
            None => live(s.drop_last()),
        }
    }
}

/// `a` is a copy of the pet `b`: equal in every field, its lists equal in content.
pub open spec fn pet_copy(a: PetMetadata, b: PetMetadata) -> bool {
    &&& a == (PetMetadata {
        items: a.items,
        extra_permission: a.extra_permission,
        pet_evolution: a.pet_evolution,
        ..b
    })
    &&& a.items@ == b.items@
    &&& a.extra_permission@ == b.extra_permission@
    &&& a.pet_evolution@ == b.pet_evolution@
}

/// `a` is a copy of the prototype `b`.
pub open spec fn tool_copy(a: ItemMetadata, b: ItemMetadata) -> bool {
    &&& a == (ItemMetadata { list_prototype_items_of_rarity: a.list_prototype_items_of_rarity, ..b })
    &&& a.list_prototype_items_of_rarity@ == b.list_prototype_items_of_rarity@
}

/// `a` is a copy of the rig `b`.
pub open spec fn rig_copy(a: MiningData, b: MiningData) -> bool {
    &&& a == (MiningData { mining_tool_used: a.mining_tool_used, ..b })
    &&& a.mining_tool_used@ == b.mining_tool_used@
}

fn page_bounds(start: Option<u32>, limit: Option<u32>, n: usize) -> (r: (usize, usize))
    ensures
        r.0 == page_lo(start, n as int),
        r.1 == page_hi(start, limit, n as int),
        r.0 <= r.1 <= n,
{
    let s: u64 = match start { Some(v) => v as u64, None => 0 };
    let l: u64 = match limit { Some(v) => v as u64, None => DEFAULT_PAGE_LIMIT as u64 };
    let lo: usize = if (s as u128) < (n as u128) { s as usize } else { n };
    let hi: usize = if ((s + l) as u128) < (n as u128) { (s + l) as usize } else { n };
    (lo, hi)
}

fn copy_pet(p: &PetMetadata) -> (r: PetMetadata)
    ensures
        pet_copy(r, *p),
{
    let r = PetMetadata {
        pet_id: p.pet_id,
        name: p.name.clone(),
        owner_id: p.owner_id.clone(),
        time_pet_born: p.time_pet_born,
        time_until_starving: p.time_until_starving,
        items: p.items.clone(),
        score: p.score,
        level: p.level,
        status: p.status,
        star: p.star,
        reward_debt: p.reward_debt,
        pet_species: p.pet_species,
        pet_shield: p.pet_shield,
        last_attack_used: p.last_attack_used,
        last_attacked: p.last_attacked,
        pet_evolution_item_id: p.pet_evolution_item_id,
        pet_need_evolution_item: p.pet_need_evolution_item,
        pet_has_evolution_item: p.pet_has_evolution_item,
        pet_evolution_phase: p.pet_evolution_phase,
        extra_permission: p.extra_permission.clone(),
        category: p.category.clone(),
        is_lock: p.is_lock,
        pet_evolution: p.pet_evolution.clone(),
    };
    assert(r.items@ =~= p.items@);
    assert(r.extra_permission@ =~= p.extra_permission@);
    assert(r.pet_evolution@ =~= p.pet_evolution@);
    r
}

pub(crate) fn copy_tool(t: &ItemMetadata) -> (r: ItemMetadata)
    ensures
        tool_copy(r, *t),
{
    let r = ItemMetadata {
        item_id: t.item_id,
        item_rarity_amount: t.item_rarity_amount,
        list_prototype_items_of_rarity: t.list_prototype_items_of_rarity.clone(),
        prototype_item_image: t.prototype_item_image.clone(),
        prototype_item_type: t.prototype_item_type,
        prototype_item_cooldown_breed_time: t.prototype_item_cooldown_breed_time,
        prototype_item_reduce_breed_fee: t.prototype_item_reduce_breed_fee,
        prototype_item_points: t.prototype_item_points,
        prototype_item_rarity: t.prototype_item_rarity,
        prototype_itemmining_power: t.prototype_itemmining_power,
        prototype_itemmining_charge_time: t.prototype_itemmining_charge_time,
        owner: t.owner.clone(),
        is_lock: t.is_lock,
    };
    assert(r.list_prototype_items_of_rarity@ =~= t.list_prototype_items_of_rarity@);
    r
}

fn copy_rig(m: &MiningData) -> (r: MiningData)
    ensures
        rig_copy(r, *m),
{
    let r = MiningData {
        account_id: m.account_id.clone(),
        mining_points: m.mining_points,
        total_mining_power: m.total_mining_power,
        total_mining_charge_time: m.total_mining_charge_time,
        last_mining_time: m.last_mining_time,
        mining_tool_used: m.mining_tool_used.clone(),
    };
    assert(r.mining_tool_used@ =~= m.mining_tool_used@);
    r
}

impl ItemImmidiateEnum for JoychiV1 {
    /// A page of the consumable items, in order of id.
    fn get_all_item_immidiate_metadata(&self, start: Option<u32>, limit: Option<u32>) -> (r: Vec<ItemImmidiateMetadata>)
        ensures
            r@ == page(self.item_immidiate_metadata_by_id@, start, limit),
    {
        let (lo, hi) = page_bounds(start, limit, self.item_immidiate_metadata_by_id.len());
        let mut out: Vec<ItemImmidiateMetadata> = Vec::new();
        let mut k = lo;
        while k < hi
            invariant
                lo <= k <= hi <= self.item_immidiate_metadata_by_id@.len(),
                out@ == self.item_immidiate_metadata_by_id@.subrange(lo as int, k as int),
            decreases hi - k,
        {
            out.push(self.item_immidiate_metadata_by_id[k].clone());
            k = k + 1;
            assert(out@ =~= self.item_immidiate_metadata_by_id@.subrange(lo as int, k as int));
        }
        out
    }

    /// The consumable item `item_id`.
    fn get_item_immidiate_by_item_id(&self, item_id: u64) -> (r: Option<ItemImmidiateMetadata>)
        ensures
            r == self.item_imm(item_id as int),
    {
        match slot(item_id, self.item_immidiate_metadata_by_id.len()) {
            Some(i) => Some(self.item_immidiate_metadata_by_id[i].clone()),
            None => None,
        }
    }
}

impl JoychiV1 {











    /// The current stage of the live pet in slot `i`.
    fn current_stage_of(&self, i: usize) -> (r: &PetEvolution)
        requires
            self.wf(),
            i < self.pets().len(),
            self.pets()[i as int] is Some,
        ensures
            *r == self.pets()[i as int]->0.current_stage(),
    {
        let pet = self.pet_metadata_by_id[i].as_ref().unwrap();
        proof {
            assert(crate::contract::pet_wf(self.pets()[i as int]->0, i as int));
        }
        let n = pet.pet_evolution.len();
        assert(pet.pet_evolution_phase - 1 < n);
        &pet.pet_evolution[(pet.pet_evolution_phase - 1) as usize]
    }
}

impl PetEnum for JoychiV1 {
    open spec fn inv(&self) -> bool {
        self.wf()
    }

    /// A page of the live pets, in order of id.
    fn get_all_pet_metadata(&self, start: Option<u32>, limit: Option<u32>) -> (r: Vec<PetMetadata>)
        ensures
            r@.len() == page(live(self.pets()), start, limit).len(),
            forall|i: int| 0 <= i < r@.len() ==> pet_copy(#[trigger] r@[i], page(live(self.pets()), start, limit)[i]),
    {
        let s: u64 = match start { Some(v) => v as u64, None => 0 };
        let l: u64 = match limit { Some(v) => v as u64, None => DEFAULT_PAGE_LIMIT as u64 };
        let mut out: Vec<PetMetadata> = Vec::new();
        let mut seen: u64 = 0;
        let mut k: usize = 0;
        while k < self.pet_metadata_by_id.len()
            invariant
                k <= self.pets().len(),
                s == (match start { Some(v) => v as int, None => 0 }),
                l == (match limit { Some(v) => v as int, None => DEFAULT_PAGE_LIMIT as int }),
                seen == live(self.pets().take(k as int)).len(),
                seen <= k,
                out@.len() == page(live(self.pets().take(k as int)), start, limit).len(),
                forall|i: int| 0 <= i < out@.len() ==> pet_copy(#[trigger] out@[i], page(live(self.pets().take(k as int)), start, limit)[i]),
            decreases self.pets().len() - k,
        {
            let ghost before = live(self.pets().take(k as int));
            proof {
                assert(self.pets().take(k as int + 1).drop_last() =~= self.pets().take(k as int));
            }
            match &self.pet_metadata_by_id[k] {
                Some(p) => {
                    if seen >= s && seen < s + l {
                        out.push(copy_pet(p));
                    }
                    seen = seen + 1;
                    proof {
                        let after = live(self.pets().take(k as int + 1));
                        assert(after == before.push(*p));
                        assert forall|i: int| 0 <= i < page(before, start, limit).len() implies page(after, start, limit)[i] == #[trigger] page(before, start, limit)[i] by {
                        }
                    }
                },
                None => {},
            }
            k = k + 1;
        }
        proof {
            assert(self.pets().take(k as int) =~= self.pets());
        }
        out
    }

    /// The pet `pet_id`.
    fn get_pet_by_pet_id(&self, pet_id: u64) -> (r: Option<PetMetadata>)
        ensures
            r is Some <==> self.has_pet(pet_id as int),
            r matches Some(p) ==> pet_copy(p, self.pet(pet_id as int)->0),
    {
        match self.pet_slot(pet_id) {
            Some(i) => Some(copy_pet(self.pet_metadata_by_id[i].as_ref().unwrap())),
            None => None,
        }
    }

    /// A page of the battle log, oldest first.
    fn get_all_battle_metadata(&self, start: Option<u32>, limit: Option<u32>) -> (r: Vec<BattleMetadata>)
        ensures
            r@ == page(self.battle_metadata_by_id@, start, limit),
    {
        let (lo, hi) = page_bounds(start, limit, self.battle_metadata_by_id.len());
        let mut out: Vec<BattleMetadata> = Vec::new();
        let mut k = lo;
        while k < hi
            invariant
                lo <= k <= hi <= self.battle_metadata_by_id@.len(),
                out@ == self.battle_metadata_by_id@.subrange(lo as int, k as int),
            decreases hi - k,
        {
            out.push(self.battle_metadata_by_id[k]);
            k = k + 1;
            assert(out@ =~= self.battle_metadata_by_id@.subrange(lo as int, k as int));
        }
        out
    }

    /// The battle `battle_id`.
    fn get_battle_by_pet_id(&self, battle_id: u64) -> (r: Option<BattleMetadata>)
        ensures
            r == crate::store::by_id(self.battle_metadata_by_id@, battle_id as int),
    {
        match slot(battle_id, self.battle_metadata_by_id.len()) {
            Some(i) => Some(self.battle_metadata_by_id[i]),
            None => None,
        }
    }

    /// The status of the pet `pet_id` at `now`, classified afresh.
    fn get_status_pet(&self, pet_id: u64, now: u64) -> (r: Option<Status>)
        ensures
            r is Some <==> self.has_pet(pet_id as int),
            r matches Some(st) ==> st == status_spec(self.pet(pet_id as int)->0.time_until_starving as int, now as int),
    {
        match self.pet_slot(pet_id) {
            Some(i) => Some(status_at(self.pet_metadata_by_id[i].as_ref().unwrap().time_until_starving, now)),
            None => None,
        }
    }

    /// The evolution stage that the pet `pet_id` is in.
    fn get_pet_evolution_item(&self, pet_id: u64) -> (r: Option<PetEvolution>)
        ensures
            r is Some <==> self.has_pet(pet_id as int),
            r matches Some(e) ==> e == self.pet(pet_id as int)->0.current_stage(),
    {
        match self.pet_slot(pet_id) {
            Some(i) => Some(self.current_stage_of(i).clone()),
            None => None,
        }
    }

    /// The attack win rate of the stage that the pet `pet_id` is in.
    fn get_pet_attack_winrate(&self, pet_id: u64) -> (r: Option<u128>)
        ensures
            r is Some <==> self.has_pet(pet_id as int),
            r matches Some(w) ==> w == self.pet(pet_id as int)->0.current_stage().attack_win_rate,
    {
        match self.pet_slot(pet_id) {
            Some(i) => Some(self.current_stage_of(i).attack_win_rate),
            None => None,
        }
    }

    /// The image of the stage that the pet `pet_id` is in.
    fn get_pet_image(&self, pet_id: u64) -> (r: Option<String>)
        ensures
            r is Some <==> self.has_pet(pet_id as int),
            r matches Some(img) ==> img == self.pet(pet_id as int)->0.current_stage().image,
    {
        match self.pet_slot(pet_id) {
            Some(i) => Some(self.current_stage_of(i).image.clone()),
            None => None,
        }
    }

    /// The phase that the pet `pet_id` reaches from `current_evo_phase` at
    /// its level (see `advanced_phase`).
    fn get_pet_evolution_phase(&self, pet_id: u64, current_evo_phase: u128) -> (r: Result<u128, JoyError>)
        ensures
            r is Err <==> !self.has_pet(pet_id as int),
            r is Err ==> r == Err::<u128, JoyError>(JoyError::NotFound),
            r matches Ok(ph) ==> {
                let p = self.pet(pet_id as int)->0;
                ph == advanced_phase(p.pet_evolution@, p.level as int, current_evo_phase as int)
            },
    {
        match self.pet_slot(pet_id) {
            Some(i) => {
                let pet = self.pet_metadata_by_id[i].as_ref().unwrap();
                Ok(advance_phase(&pet.pet_evolution, pet.level, current_evo_phase))
            },
            None => Err(JoyError::NotFound),
        }
    }
}

impl ItemEnum for JoychiV1 {
    /// A page of the tool prototypes, in order of id.
    fn get_all_item_metadata(&self, start: Option<u32>, limit: Option<u32>) -> (r: Vec<ItemMetadata>)
        ensures
            r@.len() == page(self.item_metadata_by_id@, start, limit).len(),
            forall|i: int| 0 <= i < r@.len() ==> tool_copy(#[trigger] r@[i], page(self.item_metadata_by_id@, start, limit)[i]),
    {
        let (lo, hi) = page_bounds(start, limit, self.item_metadata_by_id.len());
        let mut out: Vec<ItemMetadata> = Vec::new();
        let mut k = lo;
        while k < hi
            invariant
                lo <= k <= hi <= self.item_metadata_by_id@.len(),
                lo == page_lo(start, self.item_metadata_by_id@.len() as int),
                hi == page_hi(start, limit, self.item_metadata_by_id@.len() as int),
                out@.len() == k - lo,
                forall|i: int| 0 <= i < out@.len() ==> tool_copy(#[trigger] out@[i], self.item_metadata_by_id@[lo + i]),
            decreases hi - k,
        {
            out.push(copy_tool(&self.item_metadata_by_id[k]));
            k = k + 1;
        }
        out
    }

    /// The tool prototype `item_id`.
    fn get_item_by_item_id(&self, item_id: u64) -> (r: Option<ItemMetadata>)
        ensures
            r is Some <==> self.tool(item_id as int) is Some,
            r matches Some(t) ==> tool_copy(t, self.tool(item_id as int)->0),
    {
        match slot(item_id, self.item_metadata_by_id.len()) {
            Some(i) => Some(copy_tool(&self.item_metadata_by_id[i])),
            None => None,
        }
    }
}

impl StakingAndMiningEnum for JoychiV1 {
    open spec fn inv(&self) -> bool {
        self.wf()
    }

    /// The mining rig of `account_id`.
    fn get_mining_data_by_account_id(&self, account_id: &String) -> (r: Option<MiningData>)
        ensures
            r is Some <==> self.rig(account_id@) is Some,
            r matches Some(m) ==> rig_copy(m, self.rig(account_id@)->0),
    {
        match self.find_rig(account_id) {
            Some(i) => Some(copy_rig(&self.mining_data_by_account_id[i])),
            None => None,
        }
    }
}

} // verus!

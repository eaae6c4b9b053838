use vstd::prelude::*;
use crate::pet::PetFeature;

use crate::contract::{BattleMetadata, JoyError, JoychiV1, BATTLE_POINTS, CREATION_FEE, REDEEM_TRANSFER};
use crate::evolution::{advance_phase, advanced_phase, lemma_advance_bounds};
use crate::ledger::TokenMetadata;
use crate::pet::{PetAttribute, PetEvolution, PetSpecies};
use crate::random::{random_in_range, roll_spec};
use crate::status::{DAY, HOUR, MINUTE};
use crate::store::{by_id, next_id};
use crate::item_immidiate::ItemImmidiateMetadata;
use crate::leveling::{level_of, level_spec};
use crate::ledger::LedgerCall;
use crate::pet::PetMetadata;
use crate::status::{status_at, status_spec, Status};
use crate::store::slot;

verus! {

/// A pet is alive while its starving deadline is not behind the current time.
pub open spec fn alive_spec(p: PetMetadata, now: int) -> bool {
    p.time_until_starving >= now
}

/// Whether feeding `item` to `p` at `now` keeps every quantity in range.
pub open spec fn feed_fits(total_score: int, p: PetMetadata, item: ItemImmidiateMetadata, now: int) -> bool {
    &&& total_score + item.points <= u128::MAX
    &&& p.score + item.points <= u128::MAX
    &&& p.pet_shield + item.shield <= u128::MAX
    &&& now + item.time_extension <= u128::MAX
    &&& item.price + item.price_delta <= u128::MAX
}

/// The pet after it has been fed `item`, the item with id `item_id`, at
/// `now`; its inventory is stated apart, by `fed_pet`.
pub open spec fn fed_fields(p: PetMetadata, item: ItemImmidiateMetadata, item_id: int, now: int, items: Vec<ItemImmidiateMetadata>) -> PetMetadata {
    let score = p.score + item.points;
    let deadline = now + item.time_extension;
    PetMetadata {
        items,
        score: score as u128,
        level: level_spec(score) as u128,
        pet_shield: (p.pet_shield + item.shield) as u128,
        time_until_starving: deadline as u128,
        status: status_spec(deadline, now),
        pet_has_evolution_item: if p.pet_need_evolution_item && p.pet_evolution_item_id == item_id {
            true
        } else {
            p.pet_has_evolution_item
        },
        ..p
    }
}

/// `q` is `p` fed with `item` at `now`: score, shield and deadline grow by
/// what the item grants, the level and the status follow, the evolution
/// item is marked as held when it is the one the pet needs, and the item is
/// appended to the inventory.
pub open spec fn fed_pet(p: PetMetadata, item: ItemImmidiateMetadata, item_id: int, now: int, q: PetMetadata) -> bool {
    &&& q == fed_fields(p, item, item_id, now, q.items)
    &&& q.items@ == p.items@.push(item)
}

/// The item after one purchase: one less in stock, the price raised by its delta.
pub open spec fn sold_item(item: ItemImmidiateMetadata) -> ItemImmidiateMetadata {
    ItemImmidiateMetadata {
        stock: (item.stock - 1) as u128,
        price: (item.price + item.price_delta) as u128,
        ..item
    }
}

/// Whether the attacker wins: the seed picks a value between the two ids,
/// and the attacker wins when it lies above their midpoint.
pub open spec fn attacker_wins(from_id: int, to_id: int, seed: int) -> bool {
    let lo = if from_id <= to_id { from_id } else { to_id };
    let hi = if from_id <= to_id { to_id } else { from_id };
    roll_spec(lo, hi, seed) > (from_id + to_id) / 2
}

/// The winner of a battle: it gains the battle points and has just attacked.
pub open spec fn battle_winner(p: PetMetadata, now: int) -> PetMetadata {
    let score = p.score + BATTLE_POINTS;
    PetMetadata {
        score: score as u128,
        level: level_spec(score) as u128,
        last_attack_used: now as u128,
        ..p
    }
}

/// The loser of a battle: it loses the battle points, floored at zero, and is
/// marked dying when it had fewer; it has just been attacked.
pub open spec fn battle_loser(p: PetMetadata, now: int) -> PetMetadata {
    if p.score < BATTLE_POINTS {
        PetMetadata { score: 0, level: 1, status: Status::DYING, last_attacked: now as u128, ..p }
    } else {
        let score = p.score - BATTLE_POINTS;
        PetMetadata {
            score: score as u128,
            level: level_spec(score) as u128,
            last_attacked: now as u128,
            ..p
        }
    }
}

/// The attacker may attack again: it never attacked, or 15 minutes have passed.
pub open spec fn attack_ready(p: PetMetadata, now: int) -> bool {
    p.last_attack_used == 0 || now >= p.last_attack_used + 15 * MINUTE
}

/// The defender may be attacked again: more than an hour has passed.
pub open spec fn defend_ready(p: PetMetadata, now: int) -> bool {
    now > p.last_attacked + HOUR
}

/// The pet that `create_pet` makes: id `pet_id`, of the species `sp`, owned by
/// `owner`, born at `now` with a day before it starves, at level 1 in the
/// first evolution phase, with no score, items, stars or delegates.
pub open spec fn hatched(q: PetMetadata, pet_id: int, name: String, owner: String, sp: crate::pet::PetSpecies, now: int) -> bool {
    &&& q.pet_id == pet_id
    &&& q.name == name
    &&& q.owner_id == owner
    &&& q.time_pet_born == now
    &&& q.time_until_starving == now + DAY
    &&& q.items@.len() == 0
    &&& q.score == 0
    &&& q.level == 1
    &&& q.status == Status::HAPPY
    &&& q.star == 0
    &&& q.reward_debt == 0
    &&& q.pet_species == sp.species_id
    &&& q.pet_shield == 0
    &&& q.last_attack_used == 0
    &&& q.last_attacked == 0
    &&& q.pet_evolution_item_id == sp.evolution_item_id
    &&& q.pet_need_evolution_item == sp.need_evolution_item
    &&& q.pet_has_evolution_item
    &&& q.pet_evolution_phase == 1
    &&& q.extra_permission@.len() == 0
    &&& q.category == sp.species_name
    &&& !q.is_lock
    &&& q.pet_evolution@ == sp.pet_evolution@
}

/// A pet after redemption: no score, no reward debt, back at level 1.
pub open spec fn redeemed(p: PetMetadata) -> PetMetadata {
    PetMetadata { score: 0, reward_debt: 0, level: 1, ..p }
}

/// `a - b`, floored at zero.
pub open spec fn floor_sub(a: int, b: int) -> int {
    if a >= b { a - b } else { 0 }
}

impl JoychiV1 {
    /// Why `buy_item` refuses, if it does; the checks in their order.
    pub open spec fn buy_item_error(&self, caller: String, pet_id: int, item_id: int, now: int) -> Option<JoyError> {
        if !self.has_pet(pet_id) || self.item_imm(item_id) is None {
            Some(JoyError::NotFound)
        } else {
            let p = self.pet(pet_id)->0;
            let item = self.item_imm(item_id)->0;
            if p.is_lock {
                Some(JoyError::PetLocked)
            } else if caller@ != p.owner_id@ {
                Some(JoyError::NotOwner)
            } else if !alive_spec(p, now) && !item.is_revival {
                Some(JoyError::PetNotAlive)
            } else if item.stock == 0 {
                Some(JoyError::OutOfStock)
            } else if !feed_fits(self.total_score as int, p, item, now) {
                Some(JoyError::Overflow)
            } else {
                None
            }
        }
    }


    /// Why `attack` refuses, if it does; the checks in their order.
    pub open spec fn attack_error(&self, caller: String, from_id: int, to_id: int, now: int, seed: int) -> Option<JoyError> {
        if from_id == to_id {
            Some(JoyError::SelfTarget)
        } else if !self.has_pet(from_id) || !self.has_pet(to_id) {
            Some(JoyError::NotFound)
        } else {
            let a = self.pet(from_id)->0;
            let d = self.pet(to_id)->0;
            let winner = if attacker_wins(from_id, to_id, seed) { a } else { d };
            if a.is_lock || d.is_lock {
                Some(JoyError::PetLocked)
            } else if !alive_spec(a, now) {
                Some(JoyError::PetNotAlive)
            } else if caller@ != a.owner_id@ {
                Some(JoyError::NotOwner)
            } else if !attack_ready(a, now) {
                Some(JoyError::AttackCooldown)
            } else if !defend_ready(d, now) {
                Some(JoyError::DefenderCooldown)
            } else if a.level >= d.level {
                Some(JoyError::LevelGate)
            } else if self.battle_metadata_by_id@.len() >= u64::MAX || winner.score + BATTLE_POINTS > u128::MAX {
                Some(JoyError::Overflow)
            } else {
                None
            }
        }
    }


    /// Builds the pet that `create_pet` stores.
    fn hatch(pet_id: u64, name: &String, owner: &String, sp: &crate::pet::PetSpecies, now: u64) -> (q: PetMetadata)
        ensures
            hatched(q, pet_id as int, *name, *owner, *sp, now as int),
    {
        PetMetadata {
            pet_id,
            name: name.clone(),
            owner_id: owner.clone(),
            time_pet_born: now as u128,
            time_until_starving: now as u128 + DAY,
            items: Vec::new(),
            score: 0,
            level: 1,
            status: Status::HAPPY,
            star: 0,
            reward_debt: 0,
            pet_species: sp.species_id as u128,
            pet_shield: 0,
            last_attack_used: 0,
            last_attacked: 0,
            pet_evolution_item_id: sp.evolution_item_id,
            pet_need_evolution_item: sp.need_evolution_item,
            pet_has_evolution_item: true,
            pet_evolution_phase: 1,
            extra_permission: Vec::new(),
            category: sp.species_name.clone(),
            is_lock: false,
            pet_evolution: sp.pet_evolution.clone(),
        }
    }

    /// The species that `create_pet` draws with `seed`.
    pub open spec fn drawn_species(&self, seed: int) -> crate::pet::PetSpecies {
        by_id(self.pet_species_metadata_by_id@, roll_spec(1, self.pet_species_metadata_by_id@.len() as int, seed))->0
    }


    /// Why `redeem` refuses, if it does.
    pub open spec fn redeem_error(&self, pet_id: int) -> Option<JoyError> {
        if !self.has_pet(pet_id) {
            Some(JoyError::NotFound)
        } else if self.pet(pet_id)->0.is_lock {
            Some(JoyError::PetLocked)
        } else {
            None
        }
    }


    /// Why `kill_pet` refuses, if it does; the checks in their order.
    pub open spec fn kill_pet_error(&self, caller: String, pet_kill: int, pet_receive: int, now: int) -> Option<JoyError> {
        if pet_kill == pet_receive {
            Some(JoyError::SelfTarget)
        } else if !self.has_pet(pet_kill) || !self.has_pet(pet_receive) {
            Some(JoyError::NotFound)
        } else {
            let k = self.pet(pet_kill)->0;
            let v = self.pet(pet_receive)->0;
            if k.is_lock {
                Some(JoyError::PetLocked)
            } else if !alive_spec(k, now) || !alive_spec(v, now) {
                Some(JoyError::PetNotAlive)
            } else if caller@ != k.owner_id@ {
                Some(JoyError::NotOwner)
            } else if v.star == u64::MAX {
                Some(JoyError::Overflow)
            } else {
                None
            }
        }
    }













    /// `user` owns the pet `pet_id` or has been granted the right to update it.
    pub open spec fn check_role_update_pet_spec(&self, pet_id: int, user: String) -> bool {
        self.has_pet(pet_id) && (user@ == self.pet(pet_id)->0.owner_id@
            || exists|j: int| 0 <= j < self.pet(pet_id)->0.extra_permission@.len()
                && (#[trigger] self.pet(pet_id)->0.extra_permission@[j])@ == user@)
    }
}

/// A purchase takes exactly one unit of stock and never goes below zero: an
/// item out of stock cannot be bought, and when nothing else refuses the
/// purchase, the refusal is `OutOfStock`.
pub proof fn lemma_buy_stock(s: JoychiV1, caller: String, pet_id: int, item_id: int, now: int)
    requires
        s.item_imm(item_id) is Some,
    ensures
        s.item_imm(item_id)->0.stock == 0 ==> s.buy_item_error(caller, pet_id, item_id, now) is Some,
        s.item_imm(item_id)->0.stock == 0 && s.has_pet(pet_id) && !s.pet(pet_id)->0.is_lock
            && caller@ == s.pet(pet_id)->0.owner_id@ && (alive_spec(s.pet(pet_id)->0, now) || s.item_imm(item_id)->0.is_revival)
            ==> s.buy_item_error(caller, pet_id, item_id, now) == Some(JoyError::OutOfStock),
        s.buy_item_error(caller, pet_id, item_id, now) is None ==> s.item_imm(item_id)->0.stock >= 1
            && sold_item(s.item_imm(item_id)->0).stock == s.item_imm(item_id)->0.stock - 1,
{
}

/// A staked pet cannot be fed, attacked, killed or redeemed. Each of these
/// operations, named with a locked pet that is stored, refuses with
/// `PetLocked` whoever calls and whatever the time and the seed, once the
/// ids it takes name stored records and, for the two-pet operations, differ.
pub proof fn lemma_locked_pet_refused(s: JoychiV1, caller: String, pet_id: int, other: int, item_id: int, now: int, seed: int)
    requires
        s.has_pet(pet_id),
        s.pet(pet_id)->0.is_lock,
    ensures
        s.item_imm(item_id) is Some ==> s.buy_item_error(caller, pet_id, item_id, now) == Some(JoyError::PetLocked),
        other != pet_id && s.has_pet(other) ==> s.attack_error(caller, other, pet_id, now, seed) == Some(JoyError::PetLocked),
        other != pet_id && s.has_pet(other) ==> s.attack_error(caller, pet_id, other, now, seed) == Some(JoyError::PetLocked),
        other != pet_id && s.has_pet(other) ==> s.kill_pet_error(caller, pet_id, other, now) == Some(JoyError::PetLocked),
        s.redeem_error(pet_id) == Some(JoyError::PetLocked),
        s.buy_item_error(caller, pet_id, item_id, now) is Some,
        s.attack_error(caller, other, pet_id, now, seed) is Some,
        s.attack_error(caller, pet_id, other, now, seed) is Some,
        s.kill_pet_error(caller, pet_id, other, now) is Some,
{
}

/// Applies the winner's side of a battle to `p`.
fn win_battle(p: &mut PetMetadata, now: u64)
    requires
        old(p).score + BATTLE_POINTS <= u128::MAX,
    ensures
        *final(p) == battle_winner(*old(p), now as int),
        final(p).level == level_spec(final(p).score as int),
{
    p.score = p.score + BATTLE_POINTS;
    p.level = level_of(p.score);
    p.last_attack_used = now as u128;
}

/// Applies the loser's side of a battle to `p`.
fn lose_battle(p: &mut PetMetadata, now: u64)
    ensures
        *final(p) == battle_loser(*old(p), now as int),
        final(p).level == level_spec(final(p).score as int),
{
    if p.score < BATTLE_POINTS {
        p.score = 0;
        p.status = Status::DYING;
    } else {
        p.score = p.score - BATTLE_POINTS;
    }
    p.level = level_of(p.score);
    p.last_attacked = now as u128;
}

impl PetFeature for JoychiV1 {
    open spec fn inv(&self) -> bool {
        self.wf()
    }

    /// Creates a pet for the caller, of a species that `seed` draws uniformly
    /// from the registered ones (see `hatched`), stores it under the next
    /// pet id and returns it. Schedules the mint of its token to the caller,
    /// showing the first stage of its species, and the burn of the creation
    /// fee from the caller's tokens. Refused when no species exists.
    fn create_pet(&mut self, caller: &String, name: String, now: u64, seed: u64) -> (r: Result<PetMetadata, JoyError>)
        ensures
            old(self).pet_species_metadata_by_id@.len() == 0 ==> r == Err::<PetMetadata, JoyError>(JoyError::NoSpecies),
            old(self).pet_species_metadata_by_id@.len() > 0 && old(self).pets().len() >= u64::MAX ==> r == Err::<PetMetadata, JoyError>(JoyError::Overflow),
            old(self).pet_species_metadata_by_id@.len() > 0 && old(self).pets().len() < u64::MAX <==> r is Ok,
            r is Err ==> *final(self) == *old(self),
            r matches Ok(q) ==> {
                let sp = old(self).drawn_species(seed as int);
                let id = old(self).pets().len() as int + 1;
                &&& hatched(q, id, name, *caller, sp, now as int)
                &&& final(self).pets().len() == id
                &&& final(self).pets().drop_last() == old(self).pets()
                &&& final(self).pet(id) is Some
                &&& hatched(final(self).pet(id)->0, id, name, *caller, sp, now as int)
                &&& final(self).outbox@ == old(self).outbox@.push(LedgerCall::PetMint {
                    token_id: id as u64,
                    receiver: *caller,
                    attribute: PetAttribute {
                        pet_name: name,
                        image: sp.pet_evolution@[0].image,
                        score: 0,
                        level: 1,
                        status: Status::HAPPY,
                        star: 0,
                    },
                    timestamp: now,
                }).push(LedgerCall::FtBurn { account: *caller, amount: CREATION_FEE })
                &&& *final(self) == (JoychiV1 {
                    pet_metadata_by_id: final(self).pet_metadata_by_id,
                    outbox: final(self).outbox,
                    ..*old(self)
                })
            },
    {
        let n = self.pet_species_metadata_by_id.len();
        if n == 0 {
            return Err(JoyError::NoSpecies);
        }
        let pet_id = match next_id(self.pet_metadata_by_id.len()) {
            Some(k) => k,
            None => return Err(JoyError::Overflow),
        };
        let species_id = random_in_range(1, n as u64, seed);
        let sp = &self.pet_species_metadata_by_id[(species_id - 1) as usize];
        let stored = JoychiV1::hatch(pet_id, &name, caller, sp, now);
        let q = JoychiV1::hatch(pet_id, &name, caller, sp, now);
        let attribute = PetAttribute {
            pet_name: name,
            image: sp.pet_evolution[0].image.clone(),
            score: 0,
            level: 1,
            status: Status::HAPPY,
            star: 0,
        };
        let ghost old_store = *self;
        proof {
            crate::leveling::lemma_level_monotone(0, 0);
        }
        self.pet_metadata_by_id.push(Some(stored));
        self.outbox.push(LedgerCall::PetMint { token_id: pet_id, receiver: caller.clone(), attribute, timestamp: now });
        self.outbox.push(LedgerCall::FtBurn { account: caller.clone(), amount: CREATION_FEE });
        proof {
            assert(self.pets().drop_last() =~= old_store.pets());
            assert forall|i: int| 0 <= i < self.pets().len() && (#[trigger] self.pets()[i]) is Some implies crate::contract::pet_wf(self.pets()[i]->0, i) by {
                if i < old_store.pets().len() {
                    assert(self.pets()[i] == old_store.pets()[i]);
                }
            }
        }
        Ok(q)
    }

    /// Renames the caller's pet.
    fn change_name_pet(&mut self, caller: &String, pet_id: u64, name: String) -> (r: Result<(), JoyError>)
        ensures
            !old(self).has_pet(pet_id as int) ==> r == Err::<(), JoyError>(JoyError::NotFound),
            old(self).has_pet(pet_id as int) && caller@ != old(self).pet(pet_id as int)->0.owner_id@
                ==> r == Err::<(), JoyError>(JoyError::NotOwner),
            r is Ok <==> old(self).has_pet(pet_id as int) && caller@ == old(self).pet(pet_id as int)->0.owner_id@,
            r is Err ==> *final(self) == *old(self),
            r is Ok ==> final(self).pets() == old(self).pets().update(pet_id - 1, Some(PetMetadata { name, ..old(self).pet(pet_id as int)->0 }))
                && *final(self) == (JoychiV1 { pet_metadata_by_id: final(self).pet_metadata_by_id, ..*old(self) }),
    {
        let i = match self.pet_slot(pet_id) {
            Some(i) => i,
            None => return Err(JoyError::NotFound),
        };
        if *caller != self.pet_metadata_by_id[i].as_ref().unwrap().owner_id {
            return Err(JoyError::NotOwner);
        }
        let mut pet = self.take_pet(i);
        pet.name = name;
        self.pet_metadata_by_id.set(i, Some(pet));
        Ok(())
    }

    /// Feeds the item `item_id` to the pet `pet_id` of the caller. The pet
    /// must be alive unless the item revives, and the item must be in stock.
    /// The pet takes the item's effects, the item loses one unit of stock and
    /// its price rises by its delta, the running total of points grows by the
    /// item's points, and a burn of the price before the rise is scheduled
    /// from the pet owner's tokens.
    fn buy_item(&mut self, caller: &String, pet_id: u64, item_id: u64, now: u64) -> (r: Result<(), JoyError>)
        ensures
            r == match old(self).buy_item_error(*caller, pet_id as int, item_id as int, now as int) {
                Some(e) => Err(e),
                None => Ok(()),
            },
            r is Err ==> *final(self) == *old(self),
            old(self).item_imm(item_id as int) matches Some(it) && it.stock == 0 ==> r is Err,
            old(self).has_pet(pet_id as int) && old(self).pet(pet_id as int)->0.is_lock ==> r is Err,
            r is Ok ==> final(self).item_imm(item_id as int)->0.stock == old(self).item_imm(item_id as int)->0.stock - 1,
            r is Ok ==> {
                let p = old(self).pet(pet_id as int)->0;
                let item = old(self).item_imm(item_id as int)->0;
                &&& fed_pet(p, item, item_id as int, now as int, final(self).pet(pet_id as int)->0)
                &&& final(self).has_pet(pet_id as int)
                &&& final(self).pets().len() == old(self).pets().len()
                &&& forall|k: int| k != pet_id ==> #[trigger] final(self).pet(k) == old(self).pet(k)
                &&& final(self).item_immidiate_metadata_by_id@ == old(self).item_immidiate_metadata_by_id@.update(item_id - 1, sold_item(item))
                &&& final(self).total_score == old(self).total_score + item.points
                &&& final(self).outbox@ == old(self).outbox@.push(LedgerCall::FtBurn { account: p.owner_id, amount: item.price })
                &&& *final(self) == (JoychiV1 {
                    pet_metadata_by_id: final(self).pet_metadata_by_id,
                    item_immidiate_metadata_by_id: final(self).item_immidiate_metadata_by_id,
                    total_score: final(self).total_score,
                    outbox: final(self).outbox,
                    ..*old(self)
                })
            },
    {
        let pi = match self.pet_slot(pet_id) {
            Some(i) => i,
            None => return Err(JoyError::NotFound),
        };
        let ii = match slot(item_id, self.item_immidiate_metadata_by_id.len()) {
            Some(i) => i,
            None => return Err(JoyError::NotFound),
        };
        let item = self.item_immidiate_metadata_by_id[ii].clone();
        let p = self.pet_metadata_by_id[pi].as_ref().unwrap();
        if p.is_lock {
            return Err(JoyError::PetLocked);
        }
        if *caller != p.owner_id {
            return Err(JoyError::NotOwner);
        }
        let alive = p.time_until_starving >= now as u128;
        if !alive && !item.is_revival {
            return Err(JoyError::PetNotAlive);
        }
        if item.stock == 0 {
            return Err(JoyError::OutOfStock);
        }
        if self.total_score > u128::MAX - item.points || p.score > u128::MAX - item.points
            || p.pet_shield > u128::MAX - item.shield || now as u128 > u128::MAX - item.time_extension
            || item.price > u128::MAX - item.price_delta {
            return Err(JoyError::Overflow);
        }
        let ghost old_store = *self;
        let mut pet = self.take_pet(pi);
        if pet.pet_need_evolution_item && pet.pet_evolution_item_id == item_id as u128 {
            pet.pet_has_evolution_item = true;
        }
        pet.items.push(item.clone());
        pet.score = pet.score + item.points;
        pet.level = level_of(pet.score);
        pet.pet_shield = pet.pet_shield + item.shield;
        let deadline = now as u128 + item.time_extension;
        pet.time_until_starving = deadline;
        pet.status = status_at(deadline, now);
        let owner = pet.owner_id.clone();
        self.pet_metadata_by_id.set(pi, Some(pet));
        self.total_score = self.total_score + item.points;
        let price = item.price;
        let mut sold = item;
        sold.stock = sold.stock - 1;
        sold.price = sold.price + sold.price_delta;
        self.item_immidiate_metadata_by_id.set(ii, sold);
        self.outbox.push(LedgerCall::FtBurn { account: owner, amount: price });
        proof {
            assert forall|k: int| k != pet_id implies #[trigger] self.pet(k) == old_store.pet(k) by {
                if 1 <= k <= self.pets().len() {
                    assert(self.pets()[k - 1] == old_store.pets()[k - 1]);
                }
            }
        }
        Ok(())
    }

    /// The pet `from_id` of the caller attacks the pet `to_id`, whose level
    /// must be higher. `seed` decides the winner (see `attacker_wins`). The
    /// winner takes the battle points from the loser, the cooldowns of both
    /// start, and the battle is appended to the log and returned.
    fn attack(&mut self, caller: &String, from_id: u64, to_id: u64, now: u64, seed: u64) -> (r: Result<BattleMetadata, JoyError>)
        ensures
            r is Err <==> old(self).attack_error(*caller, from_id as int, to_id as int, now as int, seed as int) is Some,
            r matches Err(e) ==> Some(e) == old(self).attack_error(*caller, from_id as int, to_id as int, now as int, seed as int),
            r is Err ==> *final(self) == *old(self),
            r matches Ok(b) ==> {
                let a = old(self).pet(from_id as int)->0;
                let d = old(self).pet(to_id as int)->0;
                let wins = attacker_wins(from_id as int, to_id as int, seed as int);
                &&& final(self).pet(from_id as int) == Some(if wins { battle_winner(a, now as int) } else { battle_loser(a, now as int) })
                &&& final(self).pet(to_id as int) == Some(if wins { battle_loser(d, now as int) } else { battle_winner(d, now as int) })
                &&& final(self).pets().len() == old(self).pets().len()
                &&& forall|k: int| k != from_id && k != to_id ==> #[trigger] final(self).pet(k) == old(self).pet(k)
                &&& b == (BattleMetadata {
                    battle_id: (old(self).battle_metadata_by_id@.len() + 1) as u64,
                    winner: if wins { from_id } else { to_id },
                    attacker: from_id,
                    loser: if wins { to_id } else { from_id },
                    time: now,
                })
                &&& final(self).battle_metadata_by_id@ == old(self).battle_metadata_by_id@.push(b)
                &&& *final(self) == (JoychiV1 {
                    pet_metadata_by_id: final(self).pet_metadata_by_id,
                    battle_metadata_by_id: final(self).battle_metadata_by_id,
                    ..*old(self)
                })
            },
    {
        if from_id == to_id {
            return Err(JoyError::SelfTarget);
        }
        let (fi, ti) = match (self.pet_slot(from_id), self.pet_slot(to_id)) {
            (Some(fi), Some(ti)) => (fi, ti),
            _ => return Err(JoyError::NotFound),
        };
        let lo = if from_id <= to_id { from_id } else { to_id };
        let hi = if from_id <= to_id { to_id } else { from_id };
        let ods = random_in_range(lo, hi, seed);
        let wins = ods as u128 > (from_id as u128 + to_id as u128) / 2;
        let a = self.pet_metadata_by_id[fi].as_ref().unwrap();
        let d = self.pet_metadata_by_id[ti].as_ref().unwrap();
        if a.is_lock || d.is_lock {
            return Err(JoyError::PetLocked);
        }
        if a.time_until_starving < now as u128 {
            return Err(JoyError::PetNotAlive);
        }
        if *caller != a.owner_id {
            return Err(JoyError::NotOwner);
        }
        if !(a.last_attack_used == 0 || (now as u128 >= a.last_attack_used && now as u128 - a.last_attack_used >= 15 * MINUTE)) {
            return Err(JoyError::AttackCooldown);
        }
        if !(now as u128 > d.last_attacked && now as u128 - d.last_attacked > HOUR) {
            return Err(JoyError::DefenderCooldown);
        }
        if a.level >= d.level {
            return Err(JoyError::LevelGate);
        }
        let winner_score = if wins { a.score } else { d.score };
        let battle_id = match next_id(self.battle_metadata_by_id.len()) {
            Some(k) => k,
            None => return Err(JoyError::Overflow),
        };
        if winner_score > u128::MAX - BATTLE_POINTS {
            return Err(JoyError::Overflow);
        }
        let ghost old_store = *self;
        let mut pa = self.take_pet(fi);
        let mut pd = self.take_pet(ti);
        if wins {
            win_battle(&mut pa, now);
            lose_battle(&mut pd, now);
        } else {
            win_battle(&mut pd, now);
            lose_battle(&mut pa, now);
        }
        self.pet_metadata_by_id.set(fi, Some(pa));
        self.pet_metadata_by_id.set(ti, Some(pd));
        let battle = BattleMetadata {
            battle_id,
            winner: if wins { from_id } else { to_id },
            attacker: from_id,
            loser: if wins { to_id } else { from_id },
            time: now,
        };
        self.battle_metadata_by_id.push(battle);
        proof {
            assert forall|k: int| k != from_id && k != to_id implies #[trigger] self.pet(k) == old_store.pet(k) by {
                if 1 <= k <= self.pets().len() {
                    assert(self.pets()[k - 1] == old_store.pets()[k - 1]);
                }
            }
            assert forall|i: int| 0 <= i < self.pets().len() && (#[trigger] self.pets()[i]) is Some implies crate::contract::pet_wf(self.pets()[i]->0, i) by {
                assert(old_store.pets()[i] is Some);
                assert(crate::contract::pet_wf(old_store.pets()[i]->0, i));
            }
        }
        Ok(battle)
    }

    /// The caller's pet `pet_kill` is redeemed to its owner and removed for
    /// good; the pet `pet_receive` gains a star. Both must be alive.
    fn kill_pet(&mut self, caller: &String, pet_kill: u64, pet_receive: u64, now: u64) -> (r: Result<(), JoyError>)
        ensures
            r == match old(self).kill_pet_error(*caller, pet_kill as int, pet_receive as int, now as int) {
                Some(e) => Err(e),
                None => Ok(()),
            },
            r is Err ==> *final(self) == *old(self),
            r is Ok ==> {
                let k = old(self).pet(pet_kill as int)->0;
                let v = old(self).pet(pet_receive as int)->0;
                &&& final(self).pets() == old(self).pets().update(pet_kill - 1, None).update(pet_receive - 1, Some(PetMetadata { star: (v.star + 1) as u64, ..v }))
                &&& final(self).total_score == floor_sub(old(self).total_score as int, k.score as int)
                &&& final(self).outbox@ == old(self).outbox@.push(LedgerCall::NativeTransfer { receiver: k.owner_id, amount: REDEEM_TRANSFER })
                &&& *final(self) == (JoychiV1 {
                    pet_metadata_by_id: final(self).pet_metadata_by_id,
                    total_score: final(self).total_score,
                    outbox: final(self).outbox,
                    ..*old(self)
                })
            },
    {
        if pet_kill == pet_receive {
            return Err(JoyError::SelfTarget);
        }
        let (ki, vi) = match (self.pet_slot(pet_kill), self.pet_slot(pet_receive)) {
            (Some(ki), Some(vi)) => (ki, vi),
            _ => return Err(JoyError::NotFound),
        };
        let k = self.pet_metadata_by_id[ki].as_ref().unwrap();
        let v = self.pet_metadata_by_id[vi].as_ref().unwrap();
        if k.is_lock {
            return Err(JoyError::PetLocked);
        }
        if k.time_until_starving < now as u128 || v.time_until_starving < now as u128 {
            return Err(JoyError::PetNotAlive);
        }
        if *caller != k.owner_id {
            return Err(JoyError::NotOwner);
        }
        if v.star == u64::MAX {
            return Err(JoyError::Overflow);
        }
        let owner = k.owner_id.clone();
        let ghost old_store = *self;
        let _ = self.redeem(pet_kill, owner);
        let _ = self.take_pet(ki);
        let mut receiver = self.take_pet(vi);
        receiver.star = receiver.star + 1;
        self.pet_metadata_by_id.set(vi, Some(receiver));
        proof {
            assert(self.pets() =~= old_store.pets().update(pet_kill - 1, None).update(pet_receive - 1, Some(PetMetadata { star: (old_store.pets()[pet_receive - 1]->0.star + 1) as u64, ..old_store.pets()[pet_receive - 1]->0 })));
        }
        Ok(())
    }

    /// The level of the pet `pet_id`, recomputed from its score and stored.
    fn level_pet(&mut self, pet_id: u64) -> (r: Result<u128, JoyError>)
        ensures
            *final(self) == *old(self),
            r is Err <==> !old(self).has_pet(pet_id as int),
            r is Err ==> r == Err::<u128, JoyError>(JoyError::NotFound),
            r matches Ok(l) ==> l == level_spec(old(self).pet(pet_id as int)->0.score as int),
    {
        let i = match self.pet_slot(pet_id) {
            Some(i) => i,
            None => return Err(JoyError::NotFound),
        };
        let level = level_of(self.pet_metadata_by_id[i].as_ref().unwrap().score);
        Ok(level)
    }

    /// Whether the pet `pet_id` is alive at `now`.
    fn is_pet_alive(&self, pet_id: u64, now: u64) -> (r: Result<bool, JoyError>)
        ensures
            r is Err <==> !self.has_pet(pet_id as int),
            r is Err ==> r == Err::<bool, JoyError>(JoyError::NotFound),
            r matches Ok(b) ==> b == alive_spec(self.pet(pet_id as int)->0, now as int),
    {
        match self.pet_slot(pet_id) {
            Some(i) => Ok(self.pet_metadata_by_id[i].as_ref().unwrap().time_until_starving >= now as u128),
            None => Err(JoyError::NotFound),
        }
    }

    /// Registers a species under the next species id; the contract owner
    /// alone may, and the evolution track must not be empty.
    fn create_species(
        &mut self,
        caller: &String,
        need_evol_item: bool,
        evol_item_id: u128,
        name_spec: String,
        pet_evolution: Vec<PetEvolution>,
    ) -> (r: Result<(), JoyError>)
        ensures
            caller@ != old(self).owner_id@ ==> r == Err::<(), JoyError>(JoyError::NotOwner),
            caller@ == old(self).owner_id@ && pet_evolution@.len() == 0 ==> r == Err::<(), JoyError>(JoyError::EmptyEvolution),
            caller@ == old(self).owner_id@ && pet_evolution@.len() > 0 && old(self).pet_species_metadata_by_id@.len() >= u64::MAX
                ==> r == Err::<(), JoyError>(JoyError::Overflow),
            r is Ok <==> caller@ == old(self).owner_id@ && pet_evolution@.len() > 0 && old(self).pet_species_metadata_by_id@.len() < u64::MAX,
            r is Err ==> *final(self) == *old(self),
            r is Ok ==> final(self).pet_species_metadata_by_id@ == old(self).pet_species_metadata_by_id@.push(PetSpecies {
                species_id: (old(self).pet_species_metadata_by_id@.len() + 1) as u64,
                species_name: name_spec,
                need_evolution_item: need_evol_item,
                evolution_item_id: evol_item_id,
                pet_evolution,
            }) && *final(self) == (JoychiV1 { pet_species_metadata_by_id: final(self).pet_species_metadata_by_id, ..*old(self) }),
    {
        if *caller != self.owner_id {
            return Err(JoyError::NotOwner);
        }
        if pet_evolution.len() == 0 {
            return Err(JoyError::EmptyEvolution);
        }
        let species_id = match next_id(self.pet_species_metadata_by_id.len()) {
            Some(k) => k,
            None => return Err(JoyError::Overflow),
        };
        self.pet_species_metadata_by_id.push(PetSpecies {
            species_id,
            species_name: name_spec,
            need_evolution_item: need_evol_item,
            evolution_item_id: evol_item_id,
            pet_evolution,
        });
        Ok(())
    }

    /// Redeems the pet `pet_id`: its score, taken off the running total
    /// (floored at zero), and its reward debt drop to zero, and a transfer of
    /// the redemption amount to `to_addr` is scheduled.
    fn redeem(&mut self, pet_id: u64, to_addr: String) -> (r: Result<(), JoyError>)
        ensures
            r == match old(self).redeem_error(pet_id as int) {
                Some(e) => Err(e),
                None => Ok(()),
            },
            r is Err ==> *final(self) == *old(self),
            r is Ok ==> {
                let p = old(self).pet(pet_id as int)->0;
                &&& final(self).pets() == old(self).pets().update(pet_id - 1, Some(redeemed(p)))
                &&& final(self).total_score == floor_sub(old(self).total_score as int, p.score as int)
                &&& final(self).outbox@ == old(self).outbox@.push(LedgerCall::NativeTransfer { receiver: to_addr, amount: REDEEM_TRANSFER })
                &&& *final(self) == (JoychiV1 {
                    pet_metadata_by_id: final(self).pet_metadata_by_id,
                    total_score: final(self).total_score,
                    outbox: final(self).outbox,
                    ..*old(self)
                })
            },
    {
        let i = match self.pet_slot(pet_id) {
            Some(i) => i,
            None => return Err(JoyError::NotFound),
        };
        if self.pet_metadata_by_id[i].as_ref().unwrap().is_lock {
            return Err(JoyError::PetLocked);
        }
        let mut pet = self.take_pet(i);
        self.total_score = if self.total_score >= pet.score {
            self.total_score - pet.score
        } else {
            0
        };
        pet.score = 0;
        pet.reward_debt = 0;
        pet.level = 1;
        self.pet_metadata_by_id.set(i, Some(pet));
        self.outbox.push(LedgerCall::NativeTransfer { receiver: to_addr, amount: REDEEM_TRANSFER });
        Ok(())
    }

    /// The display attributes of the pet `pet_id` at `now`: its name, the
    /// image of its current stage, its score, level, star count, and its
    /// status classified afresh. Schedules the push of these attributes to
    /// the pet's token.
    fn token_uri(&mut self, pet_id: u64, now: u64) -> (r: Result<PetAttribute, JoyError>)
        ensures
            r is Err <==> !old(self).has_pet(pet_id as int),
            r is Err ==> r == Err::<PetAttribute, JoyError>(JoyError::NotFound) && *final(self) == *old(self),
            r matches Ok(a) ==> {
                let p = old(self).pet(pet_id as int)->0;
                &&& a == (PetAttribute {
                    pet_name: p.name,
                    image: p.current_stage().image,
                    score: p.score,
                    level: p.level,
                    status: status_spec(p.time_until_starving as int, now as int),
                    star: p.star,
                })
                &&& final(self).outbox@ == old(self).outbox@.push(LedgerCall::PetAttributeUpdate { token_id: pet_id, attribute: a })
                &&& *final(self) == (JoychiV1 { outbox: final(self).outbox, ..*old(self) })
            },
    {
        let i = match self.pet_slot(pet_id) {
            Some(i) => i,
            None => return Err(JoyError::NotFound),
        };
        let pet = self.pet_metadata_by_id[i].as_ref().unwrap();
        proof {
            assert(self.pets()[i as int] == Some(*pet));
            assert(crate::contract::pet_wf(self.pets()[i as int]->0, i as int));
            assert(1 <= pet.pet_evolution_phase <= pet.pet_evolution@.len());
        }
        let n = pet.pet_evolution.len();
        assert(pet.pet_evolution_phase - 1 < n);
        let stage = &pet.pet_evolution[(pet.pet_evolution_phase - 1) as usize];
        let attribute = PetAttribute {
            pet_name: pet.name.clone(),
            image: stage.image.clone(),
            score: pet.score,
            level: pet.level,
            status: status_at(pet.time_until_starving, now),
            star: pet.star,
        };
        self.outbox.push(LedgerCall::PetAttributeUpdate { token_id: pet_id, attribute: attribute.clone() });
        Ok(attribute)
    }

    /// Whether `user_id` may push updates for the pet `pet_id`: it owns the
    /// pet or has been granted the right. False when there is no such pet.
    fn check_role_update_pet(&self, pet_id: u64, user_id: &String) -> (r: bool)
        ensures
            r == self.check_role_update_pet_spec(pet_id as int, *user_id),
    {
        let i = match self.pet_slot(pet_id) {
            Some(i) => i,
            None => return false,
        };
        let pet = self.pet_metadata_by_id[i].as_ref().unwrap();
        let mut j: usize = 0;
        while j < pet.extra_permission.len()
            invariant
                j <= pet.extra_permission@.len(),
                i == pet_id - 1,
                i < self.pets().len(),
                self.pets()[i as int] == Some(*pet),
                forall|m: int| 0 <= m < j ==> (#[trigger] pet.extra_permission@[m])@ != user_id@,
            decreases pet.extra_permission.len() - j,
        {
            if pet.extra_permission[j] == *user_id {
                proof {
                    assert(self.pet(pet_id as int)->0.extra_permission@[j as int]@ == user_id@);
                }
                return true;
            }
            j = j + 1;
        }
        *user_id == pet.owner_id
    }

    /// Grants `user_id` the right to push updates for the pet `pet_id`; the
    /// contract owner alone may. Returns the updated pet.
    fn add_access_update_pet(&mut self, caller: &String, pet_id: u64, user_id: String) -> (r: Result<PetMetadata, JoyError>)
        ensures
            caller@ != old(self).owner_id@ ==> r == Err::<PetMetadata, JoyError>(JoyError::NotOwner),
            caller@ == old(self).owner_id@ && !old(self).has_pet(pet_id as int) ==> r == Err::<PetMetadata, JoyError>(JoyError::NotFound),
            r is Ok <==> caller@ == old(self).owner_id@ && old(self).has_pet(pet_id as int),
            r is Err ==> *final(self) == *old(self),
            r matches Ok(q) ==> {
                let p = old(self).pet(pet_id as int)->0;
                &&& q == (PetMetadata {
                    extra_permission: q.extra_permission,
                    items: q.items,
                    pet_evolution: q.pet_evolution,
                    ..p
                })
                &&& q.extra_permission@ == p.extra_permission@.push(user_id)
                &&& q.items@ == p.items@
                &&& q.pet_evolution@ == p.pet_evolution@
                &&& final(self).pets().len() == old(self).pets().len()
                &&& final(self).pet(pet_id as int) is Some
                &&& final(self).pet(pet_id as int)->0 == (PetMetadata { extra_permission: final(self).pet(pet_id as int)->0.extra_permission, ..p })
                &&& final(self).pet(pet_id as int)->0.extra_permission@ == p.extra_permission@.push(user_id)
                &&& forall|k: int| k != pet_id ==> #[trigger] final(self).pet(k) == old(self).pet(k)
                &&& *final(self) == (JoychiV1 { pet_metadata_by_id: final(self).pet_metadata_by_id, ..*old(self) })
            },
    {
        if *caller != self.owner_id {
            return Err(JoyError::NotOwner);
        }
        let i = match self.pet_slot(pet_id) {
            Some(i) => i,
            None => return Err(JoyError::NotFound),
        };
        let ghost old_store = *self;
        let mut pet = self.take_pet(i);
        let mut granted = pet.extra_permission.clone();
        granted.push(user_id.clone());
        let mut stored = Vec::new();
        std::mem::swap(&mut stored, &mut pet.extra_permission);
        stored.push(user_id);
        pet.extra_permission = stored;
        let q = PetMetadata {
            pet_id: pet.pet_id,
            name: pet.name.clone(),
            owner_id: pet.owner_id.clone(),
            time_pet_born: pet.time_pet_born,
            time_until_starving: pet.time_until_starving,
            items: pet.items.clone(),
            score: pet.score,
            level: pet.level,
            status: pet.status,
            star: pet.star,
            reward_debt: pet.reward_debt,
            pet_species: pet.pet_species,
            pet_shield: pet.pet_shield,
            last_attack_used: pet.last_attack_used,
            last_attacked: pet.last_attacked,
            pet_evolution_item_id: pet.pet_evolution_item_id,
            pet_need_evolution_item: pet.pet_need_evolution_item,
            pet_has_evolution_item: pet.pet_has_evolution_item,
            pet_evolution_phase: pet.pet_evolution_phase,
            extra_permission: granted,
            category: pet.category.clone(),
            is_lock: pet.is_lock,
            pet_evolution: pet.pet_evolution.clone(),
        };
        self.pet_metadata_by_id.set(i, Some(pet));
        proof {
            assert(q.extra_permission@ =~= old_store.pets()[i as int]->0.extra_permission@.push(user_id));
            assert(q.items@ =~= old_store.pets()[i as int]->0.items@);
            assert(q.pet_evolution@ =~= old_store.pets()[i as int]->0.pet_evolution@);
            assert forall|k: int| k != pet_id implies #[trigger] self.pet(k) == old_store.pet(k) by {
                if 1 <= k <= self.pets().len() {
                    assert(self.pets()[k - 1] == old_store.pets()[k - 1]);
                }
            }
        }
        Ok(q)
    }

    /// Schedules the push of `pet_attribute` to the token of the pet
    /// `pet_id`; the owner or a granted account alone may.
    fn delegate_update_attribute(&mut self, caller: &String, pet_id: u64, pet_attribute: PetAttribute) -> (r: Result<(), JoyError>)
        ensures
            !old(self).has_pet(pet_id as int) ==> r == Err::<(), JoyError>(JoyError::NotFound),
            r is Ok <==> old(self).check_role_update_pet_spec(pet_id as int, *caller),
            old(self).has_pet(pet_id as int) && !old(self).check_role_update_pet_spec(pet_id as int, *caller) ==> r == Err::<(), JoyError>(JoyError::NotOwner),
            r is Err ==> *final(self) == *old(self),
            r is Ok ==> final(self).outbox@ == old(self).outbox@.push(LedgerCall::PetAttributeUpdate { token_id: pet_id, attribute: pet_attribute })
                && *final(self) == (JoychiV1 { outbox: final(self).outbox, ..*old(self) }),
    {
        if self.pet_slot(pet_id).is_none() {
            return Err(JoyError::NotFound);
        }
        if !self.check_role_update_pet(pet_id, caller) {
            return Err(JoyError::NotOwner);
        }
        self.outbox.push(LedgerCall::PetAttributeUpdate { token_id: pet_id, attribute: pet_attribute });
        Ok(())
    }

    /// Schedules the replacement of the token metadata of the pet `pet_id`;
    /// the owner or a granted account alone may.
    fn delegate_update_metadata(&mut self, caller: &String, pet_id: u64, token_metadata: TokenMetadata) -> (r: Result<(), JoyError>)
        ensures
            !old(self).has_pet(pet_id as int) ==> r == Err::<(), JoyError>(JoyError::NotFound),
            r is Ok <==> old(self).check_role_update_pet_spec(pet_id as int, *caller),
            old(self).has_pet(pet_id as int) && !old(self).check_role_update_pet_spec(pet_id as int, *caller) ==> r == Err::<(), JoyError>(JoyError::NotOwner),
            r is Err ==> *final(self) == *old(self),
            r is Ok ==> final(self).outbox@ == old(self).outbox@.push(LedgerCall::PetMetadataUpdate { token_id: pet_id, metadata: token_metadata })
                && *final(self) == (JoychiV1 { outbox: final(self).outbox, ..*old(self) }),
    {
        if self.pet_slot(pet_id).is_none() {
            return Err(JoyError::NotFound);
        }
        if !self.check_role_update_pet(pet_id, caller) {
            return Err(JoyError::NotOwner);
        }
        self.outbox.push(LedgerCall::PetMetadataUpdate { token_id: pet_id, metadata: token_metadata });
        Ok(())
    }

    /// Advances the stored evolution phase of the pet `pet_id` as far as its
    /// level reaches; the phase never falls and never leaves the track.
    fn check_evol_pet_if_needed(&mut self, pet_id: u64) -> (r: Result<(), JoyError>)
        ensures
            r is Err <==> !old(self).has_pet(pet_id as int),
            r is Err ==> r == Err::<(), JoyError>(JoyError::NotFound) && *final(self) == *old(self),
            r is Ok ==> {
                let p = old(self).pet(pet_id as int)->0;
                let ph = advanced_phase(p.pet_evolution@, p.level as int, p.pet_evolution_phase as int);
                &&& final(self).pets() == old(self).pets().update(pet_id - 1, Some(PetMetadata { pet_evolution_phase: ph as u128, ..p }))
                &&& p.pet_evolution_phase <= ph <= p.pet_evolution@.len()
                &&& *final(self) == (JoychiV1 { pet_metadata_by_id: final(self).pet_metadata_by_id, ..*old(self) })
            },
    {
        let i = match self.pet_slot(pet_id) {
            Some(i) => i,
            None => return Err(JoyError::NotFound),
        };
        let mut pet = self.take_pet(i);
        let phase = advance_phase(&pet.pet_evolution, pet.level, pet.pet_evolution_phase);
        proof {
            lemma_advance_bounds(pet.pet_evolution@, pet.level as int, pet.pet_evolution_phase as int);
        }
        pet.pet_evolution_phase = phase;
        self.pet_metadata_by_id.set(i, Some(pet));
        Ok(())
    }

    /// Sets the manager account; the contract owner alone may.
    fn set_manager(&mut self, caller: &String, manager_addr: String) -> (r: Result<(), JoyError>)
        ensures
            caller@ == old(self).owner_id@ <==> r is Ok,
            r is Ok ==> *final(self) == (JoychiV1 { manager_address: manager_addr, ..*old(self) }),
            r is Err ==> r == Err::<(), JoyError>(JoyError::NotOwner) && *final(self) == *old(self),
    {
        if *caller != self.owner_id {
            return Err(JoyError::NotOwner);
        }
        self.manager_address = manager_addr;
        Ok(())
    }
}


} // verus!

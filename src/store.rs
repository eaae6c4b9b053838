use vstd::prelude::*;

use crate::contract::JoychiV1;
use crate::item_factory::ItemMetadata;
use crate::item_immidiate::ItemImmidiateMetadata;
use crate::pet::PetMetadata;
use crate::staking_and_mining::PoolMetadata;

verus! {

/// The slot of id `id` in a table of `len` records, if it has one.
pub open spec fn slot_spec(id: int, len: int) -> Option<int> {
    if 1 <= id <= len {
        Some(id - 1)
    } else {
        None
    }
}

/// The record with id `id` of a table stored in order of id.
pub open spec fn by_id<T>(table: Seq<T>, id: int) -> Option<T> {
    if 1 <= id <= table.len() {
        Some(table[id - 1])
    } else {
        None
    }
}

pub fn slot(id: u64, len: usize) -> (r: Option<usize>)
    ensures
        r matches Some(i) ==> slot_spec(id as int, len as int) == Some(i as int),
        r is None ==> slot_spec(id as int, len as int) is None,
{
    if id == 0 || (id - 1) as u128 >= len as u128 {
        None
    } else {
        Some((id - 1) as usize)
    }
}

/// The id that the next record of a table of `len` records gets, if it fits.
pub fn next_id(len: usize) -> (r: Option<u64>)
    ensures
        r matches Some(k) ==> k == len + 1,
        r is None <==> len >= u64::MAX,
{
    if len as u64 == u64::MAX {
        None
    } else {
        Some(len as u64 + 1)
    }
}

impl JoychiV1 {
    pub open spec fn item_imm(&self, id: int) -> Option<ItemImmidiateMetadata> {
        by_id(self.item_immidiate_metadata_by_id@, id)
    }

    pub open spec fn tool(&self, id: int) -> Option<ItemMetadata> {
        by_id(self.item_metadata_by_id@, id)
    }

    pub open spec fn pool(&self, id: int) -> Option<PoolMetadata> {
        by_id(self.pool_metadata_by_id@, id)
    }

    /// The slot of a live pet.
    pub fn pet_slot(&self, pet_id: u64) -> (r: Option<usize>)
        ensures
            r is Some <==> self.has_pet(pet_id as int),
            r matches Some(i) ==> i == pet_id - 1 && i < self.pets().len(),
    {
        match slot(pet_id, self.pet_metadata_by_id.len()) {
            None => None,
            Some(i) => {
                if self.pet_metadata_by_id[i].is_some() {
                    Some(i)
                } else {
                    None
                }
            },
        }
    }

    /// Takes the pet out of slot `i`, leaving the slot empty.
    pub(crate) fn take_pet(&mut self, i: usize) -> (r: PetMetadata)
        requires
            i < old(self).pets().len(),
            old(self).pets()[i as int] is Some,
        ensures
            r == old(self).pets()[i as int]->0,
            *final(self) == (JoychiV1 { pet_metadata_by_id: final(self).pet_metadata_by_id, ..*old(self) }),
            final(self).pets() == old(self).pets().update(i as int, None),
    {
        let mut out: Option<PetMetadata> = None;
        self.pet_metadata_by_id.set_and_swap(i, &mut out);
        out.unwrap()
    }
}

} // verus!

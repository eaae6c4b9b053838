use vstd::prelude::*;
use crate::item_factory::ItemFeature;

use crate::contract::{JoyError, JoychiV1};
use crate::item_factory::{ItemMetadata, ItemRarity, ItemType};
use crate::item_immidiate::{ItemImmidiateFeature, ItemImmidiateMetadata};
use crate::enumeration::{copy_tool, tool_copy};
use crate::ledger::LedgerCall;
use crate::store::{next_id, slot};

verus! {

impl ItemImmidiateFeature for JoychiV1 {
    open spec fn inv(&self) -> bool {
        self.wf()
    }

    /// Adds a consumable item under the next item id; the contract owner
    /// alone may. Returns the stored item.
    fn create_item_immidiate(
        &mut self,
        caller: &String,
        name: String,
        price: u128,
        points: u128,
        time_extension: u128,
        price_delta: u128,
        stock: u128,
        shield: u128,
        is_revival: bool,
    ) -> (r: Result<ItemImmidiateMetadata, JoyError>)
        ensures
            caller@ != old(self).owner_id@ ==> r == Err::<ItemImmidiateMetadata, JoyError>(JoyError::NotOwner),
            caller@ == old(self).owner_id@ && old(self).item_immidiate_metadata_by_id@.len() >= u64::MAX
                ==> r == Err::<ItemImmidiateMetadata, JoyError>(JoyError::Overflow),
            r is Ok <==> caller@ == old(self).owner_id@ && old(self).item_immidiate_metadata_by_id@.len() < u64::MAX,
            r is Err ==> *final(self) == *old(self),
            r matches Ok(item) ==> {
                &&& item == (ItemImmidiateMetadata {
                    item_id: (old(self).item_immidiate_metadata_by_id@.len() + 1) as u64,
                    name,
                    price,
                    points,
                    price_delta,
                    stock,
                    shield,
                    time_extension,
                    is_revival,
                })
                &&& final(self).item_immidiate_metadata_by_id@ == old(self).item_immidiate_metadata_by_id@.push(item)
                &&& *final(self) == (JoychiV1 {
                    item_immidiate_metadata_by_id: final(self).item_immidiate_metadata_by_id,
                    ..*old(self)
                })
            },
    {
        if *caller != self.owner_id {
            return Err(JoyError::NotOwner);
        }
        let item_id = match next_id(self.item_immidiate_metadata_by_id.len()) {
            Some(k) => k,
            None => return Err(JoyError::Overflow),
        };
        let item = ItemImmidiateMetadata {
            item_id,
            name,
            price,
            points,
            price_delta,
            stock,
            shield,
            time_extension,
            is_revival,
        };
        self.item_immidiate_metadata_by_id.push(item.clone());
        Ok(item)
    }

    /// Replaces every attribute of the consumable item `item_id` but its id;
    /// the contract owner alone may.
    fn edit_item_immidiate(
        &mut self,
        caller: &String,
        item_id: u64,
        name: String,
        price: u128,
        points: u128,
        time_extension: u128,
        price_delta: u128,
        stock: u128,
        shield: u128,
        is_revival: bool,
    ) -> (r: Result<(), JoyError>)
        ensures
            old(self).item_imm(item_id as int) is None ==> r == Err::<(), JoyError>(JoyError::NotFound),
            old(self).item_imm(item_id as int) is Some && caller@ != old(self).owner_id@ ==> r == Err::<(), JoyError>(JoyError::NotOwner),
            r is Ok <==> old(self).item_imm(item_id as int) is Some && caller@ == old(self).owner_id@,
            r is Err ==> *final(self) == *old(self),
            r is Ok ==> final(self).item_immidiate_metadata_by_id@ == old(self).item_immidiate_metadata_by_id@.update(
                item_id - 1,
                ItemImmidiateMetadata { item_id, name, price, points, price_delta, stock, shield, time_extension, is_revival },
            ) && *final(self) == (JoychiV1 {
                item_immidiate_metadata_by_id: final(self).item_immidiate_metadata_by_id,
                ..*old(self)
            }),
    {
        let i = match slot(item_id, self.item_immidiate_metadata_by_id.len()) {
            Some(i) => i,
            None => return Err(JoyError::NotFound),
        };
        if *caller != self.owner_id {
            return Err(JoyError::NotOwner);
        }
        self.item_immidiate_metadata_by_id.set(
            i,
            ItemImmidiateMetadata { item_id, name, price, points, price_delta, stock, shield, time_extension, is_revival },
        );
        Ok(())
    }
}

impl JoychiV1 {


    /// Takes the prototype out of slot `i`, leaving a placeholder that the
    /// caller overwrites.
    pub(crate) fn take_tool(&mut self, i: usize) -> (r: ItemMetadata)
        requires
            i < old(self).item_metadata_by_id@.len(),
        ensures
            r == old(self).item_metadata_by_id@[i as int],
            final(self).item_metadata_by_id@.len() == old(self).item_metadata_by_id@.len(),
            forall|j: int| 0 <= j < old(self).item_metadata_by_id@.len() && j != i ==> #[trigger] final(self).item_metadata_by_id@[j] == old(self).item_metadata_by_id@[j],
            *final(self) == (JoychiV1 { item_metadata_by_id: final(self).item_metadata_by_id, ..*old(self) }),
    {
        let mut out = ItemMetadata {
            item_id: 0,
            item_rarity_amount: 0,
            list_prototype_items_of_rarity: Vec::new(),
            prototype_item_image: String::new(),
            prototype_item_type: ItemType::Normal,
            prototype_item_cooldown_breed_time: 0,
            prototype_item_reduce_breed_fee: 0,
            prototype_item_points: 0,
            prototype_item_rarity: ItemRarity::Common,
            prototype_itemmining_power: 0,
            prototype_itemmining_charge_time: 0,
            owner: String::new(),
            is_lock: false,
        };
        self.item_metadata_by_id.set_and_swap(i, &mut out);
        out
    }

    /// Schedules the mint of a token of the tool prototype `item_id` to
    /// `to_addr`, stamped with `now`.
    pub(crate) fn schedule_item_mint(&mut self, to_addr: String, item_id: u64, now: u64) -> (r: Result<(), JoyError>)
        ensures
            r is Err <==> old(self).tool(item_id as int) is None,
            r is Err ==> r == Err::<(), JoyError>(JoyError::NotFound) && *final(self) == *old(self),
            r is Ok ==> final(self).outbox@ == old(self).outbox@.push(LedgerCall::ItemMint {
                token_id: item_id,
                receiver: to_addr,
                attribute: old(self).tool(item_id as int)->0.attribute_spec(),
                timestamp: now,
            }) && *final(self) == (JoychiV1 { outbox: final(self).outbox, ..*old(self) }),
    {
        let i = match slot(item_id, self.item_metadata_by_id.len()) {
            Some(i) => i,
            None => return Err(JoyError::NotFound),
        };
        let attribute = self.item_metadata_by_id[i].attribute();
        self.outbox.push(LedgerCall::ItemMint { token_id: item_id, receiver: to_addr, attribute, timestamp: now });
        Ok(())
    }

}

impl ItemFeature for JoychiV1 {
    open spec fn inv(&self) -> bool {
        self.wf()
    }

    /// Adds a tool prototype under the next prototype id, owned by the caller
    /// and not attached; the contract owner alone may. Returns a copy of the
    /// stored prototype.
    fn create_item(
        &mut self,
        caller: &String,
        prototype_item_image: String,
        prototype_item_type: ItemType,
        prototype_item_cooldown_breed_time: u128,
        prototype_item_reduce_breed_fee: u128,
        prototype_item_points: u128,
        prototype_item_rarity: ItemRarity,
        prototype_itemmining_power: u128,
        prototype_itemmining_charge_time: u128,
    ) -> (r: Result<ItemMetadata, JoyError>)
        ensures
            caller@ != old(self).owner_id@ ==> r == Err::<ItemMetadata, JoyError>(JoyError::NotOwner),
            caller@ == old(self).owner_id@ && old(self).item_metadata_by_id@.len() >= u64::MAX
                ==> r == Err::<ItemMetadata, JoyError>(JoyError::Overflow),
            r is Ok <==> caller@ == old(self).owner_id@ && old(self).item_metadata_by_id@.len() < u64::MAX,
            r is Err ==> *final(self) == *old(self),
            r matches Ok(c) ==> {
                let t = final(self).item_metadata_by_id@.last();
                let id = old(self).item_metadata_by_id@.len() + 1;
                &&& tool_copy(c, t)
                &&& final(self).item_metadata_by_id@.drop_last() == old(self).item_metadata_by_id@
                &&& final(self).item_metadata_by_id@.len() == id
                &&& t == (ItemMetadata {
                    item_id: id as u64,
                    item_rarity_amount: 1,
                    list_prototype_items_of_rarity: t.list_prototype_items_of_rarity,
                    prototype_item_image,
                    prototype_item_type,
                    prototype_item_cooldown_breed_time,
                    prototype_item_reduce_breed_fee,
                    prototype_item_points,
                    prototype_item_rarity,
                    prototype_itemmining_power,
                    prototype_itemmining_charge_time,
                    owner: *caller,
                    is_lock: false,
                })
                &&& t.list_prototype_items_of_rarity@.len() == 0
                &&& *final(self) == (JoychiV1 { item_metadata_by_id: final(self).item_metadata_by_id, ..*old(self) })
            },
    {
        if *caller != self.owner_id {
            return Err(JoyError::NotOwner);
        }
        let item_id = match next_id(self.item_metadata_by_id.len()) {
            Some(k) => k,
            None => return Err(JoyError::Overflow),
        };
        let ghost old_store = *self;
        let tool = ItemMetadata {
            item_id,
            item_rarity_amount: 1,
            list_prototype_items_of_rarity: Vec::new(),
            prototype_item_image,
            prototype_item_type,
            prototype_item_cooldown_breed_time,
            prototype_item_reduce_breed_fee,
            prototype_item_points,
            prototype_item_rarity,
            prototype_itemmining_power,
            prototype_itemmining_charge_time,
            owner: caller.clone(),
            is_lock: false,
        };
        let c = copy_tool(&tool);
        self.item_metadata_by_id.push(tool);
        assert(self.item_metadata_by_id@.drop_last() =~= old_store.item_metadata_by_id@);
        Ok(c)
    }

    /// Replaces the breeding, rarity and mining attributes and the image of
    /// the tool prototype `item_id`; its type, owner and attachment stay.
    /// The contract owner alone may.
    fn edit_item(
        &mut self,
        caller: &String,
        item_id: u64,
        prototype_item_image: String,
        prototype_item_cooldown_breed_time: u128,
        prototype_item_reduce_breed_fee: u128,
        prototype_item_points: u128,
        prototype_item_rarity: ItemRarity,
        prototype_itemmining_power: u128,
        prototype_itemmining_charge_time: u128,
    ) -> (r: Result<(), JoyError>)
        ensures
            old(self).tool(item_id as int) is None ==> r == Err::<(), JoyError>(JoyError::NotFound),
            old(self).tool(item_id as int) is Some && caller@ != old(self).owner_id@ ==> r == Err::<(), JoyError>(JoyError::NotOwner),
            r is Ok <==> old(self).tool(item_id as int) is Some && caller@ == old(self).owner_id@,
            r is Err ==> *final(self) == *old(self),
            r is Ok ==> final(self).item_metadata_by_id@ == old(self).item_metadata_by_id@.update(
                item_id - 1,
                ItemMetadata {
                    prototype_item_image,
                    prototype_item_cooldown_breed_time,
                    prototype_item_reduce_breed_fee,
                    prototype_item_points,
                    prototype_item_rarity,
                    prototype_itemmining_power,
                    prototype_itemmining_charge_time,
                    ..old(self).tool(item_id as int)->0
                },
            ) && *final(self) == (JoychiV1 { item_metadata_by_id: final(self).item_metadata_by_id, ..*old(self) }),
    {
        let i = match slot(item_id, self.item_metadata_by_id.len()) {
            Some(i) => i,
            None => return Err(JoyError::NotFound),
        };
        if *caller != self.owner_id {
            return Err(JoyError::NotOwner);
        }
        let mut tool = self.take_tool(i);
        tool.prototype_item_image = prototype_item_image;
        tool.prototype_item_cooldown_breed_time = prototype_item_cooldown_breed_time;
        tool.prototype_item_reduce_breed_fee = prototype_item_reduce_breed_fee;
        tool.prototype_item_points = prototype_item_points;
        tool.prototype_item_rarity = prototype_item_rarity;
        tool.prototype_itemmining_power = prototype_itemmining_power;
        tool.prototype_itemmining_charge_time = prototype_itemmining_charge_time;
        self.item_metadata_by_id.set(i, tool);
        Ok(())
    }

    /// Schedules the mint of a token of the tool prototype `item_id` to
    /// `to_addr`, stamped with `now`; refused when there is no such prototype.
    fn mint_item_for_user(&mut self, to_addr: String, item_id: u64, now: u64) -> (r: Result<(), JoyError>)
        ensures
            r is Err <==> old(self).tool(item_id as int) is None,
            r is Err ==> r == Err::<(), JoyError>(JoyError::NotFound),
            r is Err ==> *final(self) == *old(self),
            r is Ok ==> final(self).outbox@ == old(self).outbox@.push(LedgerCall::ItemMint {
                token_id: item_id,
                receiver: to_addr,
                attribute: old(self).tool(item_id as int)->0.attribute_spec(),
                timestamp: now,
            }) && *final(self) == (JoychiV1 { outbox: final(self).outbox, ..*old(self) }),
    {
        self.schedule_item_mint(to_addr, item_id, now)
    }
}

} // verus!

use vstd::prelude::*;
use crate::contract::JoyError;

verus! {

#[derive(Debug, Clone, Copy, PartialEq, Eq, Structural)]
pub enum ItemRarity {
    Common,
    Rare,
    Legendary,
    Epic,
    MineTool,
}

#[derive(Debug, Clone, Copy, PartialEq, Eq, Structural)]
pub enum ItemType {
    Normal,
    MineTool,
}

/// A tool prototype: an item with breeding and mining attributes.
#[derive(Clone)]
pub struct ItemMetadata {
    pub item_id: u64,
    pub item_rarity_amount: u128,
    pub list_prototype_items_of_rarity: Vec<u128>,
    pub prototype_item_image: String,
    pub prototype_item_type: ItemType,
    pub prototype_item_cooldown_breed_time: u128,
    pub prototype_item_reduce_breed_fee: u128,
    pub prototype_item_points: u128,
    pub prototype_item_rarity: ItemRarity,
    pub prototype_itemmining_power: u128,
    pub prototype_itemmining_charge_time: u128,
    /// The account that created the prototype, or that holds it attached.
    pub owner: String,
    /// Set while the tool is attached to a mining rig.
    pub is_lock: bool,
}

/// The attributes of a minted item token, as pushed to the item NFT ledger.
pub struct ItemAttribute {
    pub item_image: String,
    pub item_type: ItemType,
    pub cooldown_breed_time: u128,
    pub reduce_breed_fee: u128,
    pub item_points: u128,
    pub item_rarity: ItemRarity,
    pub mining_power: u128,
    pub mining_charge_time: u128,
}

impl ItemMetadata {
    /// The attributes that a token minted from this prototype carries.
    pub open spec fn attribute_spec(&self) -> ItemAttribute {
        ItemAttribute {
            item_image: self.prototype_item_image,
            item_type: self.prototype_item_type,
            cooldown_breed_time: self.prototype_item_cooldown_breed_time,
            reduce_breed_fee: self.prototype_item_reduce_breed_fee,
            item_points: self.prototype_item_points,
            item_rarity: self.prototype_item_rarity,
            mining_power: self.prototype_itemmining_power,
            mining_charge_time: self.prototype_itemmining_charge_time,
        }
    }

    pub fn attribute(&self) -> (r: ItemAttribute)
        ensures
            r == self.attribute_spec(),
    {
        ItemAttribute {
            item_image: self.prototype_item_image.clone(),
            item_type: self.prototype_item_type,
            cooldown_breed_time: self.prototype_item_cooldown_breed_time,
            reduce_breed_fee: self.prototype_item_reduce_breed_fee,
            item_points: self.prototype_item_points,
            item_rarity: self.prototype_item_rarity,
            mining_power: self.prototype_itemmining_power,
            mining_charge_time: self.prototype_itemmining_charge_time,
        }
    }
}

/// Catalog operations on tool prototypes.
pub trait ItemFeature {
    /// The invariant of the store that these operations work on.
    spec fn inv(&self) -> bool;

    fn create_item(
        &mut self,
        caller: &String,
        prototype_item_image: String,
        prototype_item_type: ItemType,
        prototype_item_cooldown_breed_time: u128,
        prototype_item_reduce_breed_fee: u128,
        prototype_item_points: u128,
        prototype_item_rarity: ItemRarity,
        prototype_itemmining_power: u128,
        prototype_itemmining_charge_time: u128,
    ) -> (r: Result<ItemMetadata, JoyError>)
        requires
            old(self).inv(),
        ensures
            final(self).inv(),
    ;

    fn edit_item(
        &mut self,
        caller: &String,
        item_id: u64,
        prototype_item_image: String,
        prototype_item_cooldown_breed_time: u128,
        prototype_item_reduce_breed_fee: u128,
        prototype_item_points: u128,
        prototype_item_rarity: ItemRarity,
        prototype_itemmining_power: u128,
        prototype_itemmining_charge_time: u128,
    ) -> (r: Result<(), JoyError>)
        requires
            old(self).inv(),
        ensures
            final(self).inv(),
    ;

    fn mint_item_for_user(&mut self, to_addr: String, item_id: u64, now: u64) -> (r: Result<(), JoyError>)
        requires
            old(self).inv(),
        ensures
            final(self).inv(),
    ;
}

/// Queries on tool prototypes.
pub trait ItemEnum {
    fn get_all_item_metadata(&self, start: Option<u32>, limit: Option<u32>) -> (r: Vec<ItemMetadata>)
    ;

    fn get_item_by_item_id(&self, item_id: u64) -> (r: Option<ItemMetadata>)
    ;
}

} // verus!

use vstd::prelude::*;

use crate::contract::JoyError;

verus! {

/// A consumable item: buying it feeds a pet and depletes the stock.
pub struct ItemImmidiateMetadata {
    pub item_id: u64,
    pub name: String,
    pub points: u128,
    pub price: u128,
    /// Added to the price after each purchase.
    pub price_delta: u128,
    pub stock: u128,
    pub shield: u128,
    /// How far past the purchase time the pet's starving deadline moves.
    pub time_extension: u128,
    /// Whether the item can be fed to a pet that is no longer alive.
    pub is_revival: bool,
}

impl Clone for ItemImmidiateMetadata {
    fn clone(&self) -> (r: Self)
        ensures
            r == *self,
    {
        ItemImmidiateMetadata {
            item_id: self.item_id,
            name: self.name.clone(),
            points: self.points,
            price: self.price,
            price_delta: self.price_delta,
            stock: self.stock,
            shield: self.shield,
            time_extension: self.time_extension,
            is_revival: self.is_revival,
        }
    }
}

/// Catalog operations on consumable items.
pub trait ItemImmidiateFeature {
    /// The invariant of the store that holds the catalog.
    spec fn inv(&self) -> bool;

    fn create_item_immidiate(
        &mut self,
        caller: &String,
        name: String,
        price: u128,
        points: u128,
        time_extension: u128,
        price_delta: u128,
        stock: u128,
        shield: u128,
        is_revival: bool,
    ) -> (r: Result<ItemImmidiateMetadata, JoyError>)
        requires
            old(self).inv(),
        ensures
            final(self).inv(),
    ;

    fn edit_item_immidiate(
        &mut self,
        caller: &String,
        item_id: u64,
        name: String,
        price: u128,
        points: u128,
        time_extension: u128,
        price_delta: u128,
        stock: u128,
        shield: u128,
        is_revival: bool,
    ) -> (r: Result<(), JoyError>)
        requires
            old(self).inv(),
        ensures
            final(self).inv(),
    ;
}

/// Queries on consumable items.
pub trait ItemImmidiateEnum {
    fn get_all_item_immidiate_metadata(&self, start: Option<u32>, limit: Option<u32>) -> Vec<ItemImmidiateMetadata>;

    fn get_item_immidiate_by_item_id(&self, item_id: u64) -> Option<ItemImmidiateMetadata>;
}

} // verus!

use joy_v1::item_factory::{ItemEnum, ItemFeature};
use joy_v1::item_immidiate::{ItemImmidiateEnum, ItemImmidiateFeature};
use joy_v1::pet::{PetEnum, PetFeature};
use joy_v1::staking_and_mining::StakingAndMining;
use joy_v1::contract::{JoyError, JoychiV1, CREATION_FEE};
use joy_v1::item_factory::{ItemRarity, ItemType};
use joy_v1::ledger::LedgerCall;
use joy_v1::pet::PetEvolution;
use joy_v1::status::{Status, DAY, HOUR};

const T0: u64 = 10 * 3_600_000_000_000;

fn s(x: &str) -> String {
    x.to_string()
}

fn evolutions() -> Vec<PetEvolution> {
    vec![
        PetEvolution { image: s("evolution_1_image.com"), name: s("Gold"), attack_win_rate: 5, next_evolution_level: 2 },
        PetEvolution { image: s("evolution_2_image.com"), name: s("Platium"), attack_win_rate: 5, next_evolution_level: 3 },
        PetEvolution { image: s("evolution_3_image.com"), name: s("Titan"), attack_win_rate: 5, next_evolution_level: 4 },
    ]
}

fn store_with_species() -> JoychiV1 {
    let owner = s("joychi");
    let mut store = JoychiV1::init(&owner, s("nft_pet"), s("nft_item"), s("ft"));
    store.create_species(&owner, true, 1, s("JOY1"), evolutions()).unwrap();
    store
}

fn store_with_hat() -> JoychiV1 {
    let mut store = store_with_species();
    store.create_pet(&s("alice"), s("Pet1"), T0, 0).unwrap();
    store
        .create_item_immidiate(&s("joychi"), s("hat"), 100000, 100000000000000, 100021310000, 10, 5, 10, true)
        .unwrap();
    store
}

#[test]
fn test_create_species() {
    let store = store_with_species();
    assert_eq!(store.pet_species_metadata_by_id.len(), 1);
    let sp = &store.pet_species_metadata_by_id[0];
    assert_eq!(sp.species_id, 1);
    assert_eq!(sp.species_name, "JOY1");
    assert!(sp.need_evolution_item);
    assert_eq!(sp.evolution_item_id, 1);
    assert_eq!(sp.pet_evolution.len(), 3);
}

#[test]
fn test_create_pet() {
    let mut store = store_with_species();
    let alice = s("alice");
    let pet = store.create_pet(&alice, s("Pet1"), T0, 7).unwrap();
    assert_eq!(pet.pet_id, 1);
    assert_eq!(store.is_pet_alive(1, T0), Ok(true));
    let calls = store.take_outbox();
    assert_eq!(calls.len(), 2);
    assert!(matches!(&calls[0], LedgerCall::PetMint { token_id: 1, receiver, attribute, .. }
        if receiver == "alice" && attribute.image == "evolution_1_image.com" && attribute.pet_name == "Pet1"));
    assert!(matches!(&calls[1], LedgerCall::FtBurn { account, amount } if account == "alice" && *amount == CREATION_FEE));
    assert_eq!(CREATION_FEE, 10000000000);
    let attribute = store.token_uri(1, T0).unwrap();
    assert_eq!(attribute.pet_name, "Pet1");
    assert_eq!(attribute.image, "evolution_1_image.com");
    assert_eq!(attribute.score, 0);
    assert_eq!(attribute.level, 1);
    assert_eq!(attribute.status, Status::HAPPY);
    assert_eq!(attribute.star, 0);
}

#[test]
fn test_change_name_pet() {
    let mut store = store_with_species();
    store.create_pet(&s("alice"), s("Pet1"), T0, 0).unwrap();
    assert_eq!(store.get_pet_by_pet_id(1).unwrap().name, "Pet1");
    store.change_name_pet(&s("alice"), 1, s("Pet1_New")).unwrap();
    assert_eq!(store.get_pet_by_pet_id(1).unwrap().name, "Pet1_New");
    assert_eq!(store.change_name_pet(&s("bob"), 1, s("x")), Err(JoyError::NotOwner));
}

#[test]
fn test_create_item() {
    let store = store_with_hat();
    let item = store.get_item_immidiate_by_item_id(1).unwrap();
    assert_eq!(item.name, "hat");
    assert_eq!(item.price, 100000);
    assert_eq!(item.points, 100000000000000);
    assert_eq!(item.stock, 5);
    assert_eq!(item.shield, 10);
    assert!(item.is_revival);
}

#[test]
fn test_create_item_factory() {
    let mut store = store_with_species();
    let t = store
        .create_item(&s("joychi"), s("Prototype_Image_1"), ItemType::Normal, 100000, 1000000, 100000000, ItemRarity::Common, 10, 1000)
        .unwrap();
    assert_eq!(t.item_id, 1);
    let stored = store.get_item_by_item_id(1).unwrap();
    assert_eq!(stored.prototype_item_image, "Prototype_Image_1");
    assert_eq!(stored.prototype_item_rarity, ItemRarity::Common);
}

#[test]
fn test_edit_item_factory() {
    let mut store = store_with_species();
    let owner = s("joychi");
    store.create_item(&owner, s("Prototype_Image_1"), ItemType::Normal, 100000, 1000000, 100000000, ItemRarity::Common, 10, 1000).unwrap();
    store.edit_item(&owner, 1, s("Prototype_Image_1"), 100000, 1000000, 100000000, ItemRarity::Epic, 10, 1000).unwrap();
    assert_eq!(store.get_item_by_item_id(1).unwrap().prototype_item_rarity, ItemRarity::Epic);
}

#[test]
fn test_buy_item() {
    let mut store = store_with_hat();
    store.take_outbox();
    assert_eq!(store.get_pet_by_pet_id(1).unwrap().score, 0);
    assert_eq!(store.get_pet_by_pet_id(1).unwrap().level, 1);
    assert_eq!(store.get_item_immidiate_by_item_id(1).unwrap().stock, 5);
    store.buy_item(&s("alice"), 1, 1, T0).unwrap();
    assert_eq!(store.get_pet_by_pet_id(1).unwrap().score, 100000000000000);
    assert_eq!(store.level_pet(1), Ok(2));
    assert_eq!(store.get_pet_by_pet_id(1).unwrap().level, 2);
    let item = store.get_item_immidiate_by_item_id(1).unwrap();
    assert_eq!(item.stock, 4);
    assert_eq!(item.price, 100010);
    assert_eq!(store.total_score, 100000000000000);
    let calls = store.take_outbox();
    assert_eq!(calls.len(), 1);
    assert!(matches!(&calls[0], LedgerCall::FtBurn { account, amount } if account == "alice" && *amount == 100000));
}

#[test]
fn test_create_pet_2() {
    let mut store = store_with_hat();
    let pet = store.create_pet(&s("bob"), s("Pet2"), T0, 3).unwrap();
    assert_eq!(pet.pet_id, 2);
    assert_eq!(pet.owner_id, "bob");
    assert_eq!(store.get_all_pet_metadata(None, None).len(), 2);
}

#[test]
fn test_attack() {
    let mut store = store_with_hat();
    store.buy_item(&s("alice"), 1, 1, T0).unwrap();
    store.create_pet(&s("bob"), s("Pet2"), T0, 3).unwrap();
    assert_eq!(store.is_pet_alive(2, T0), Ok(true));
    let battle = store.attack(&s("bob"), 2, 1, T0, 1).unwrap();
    assert_eq!(battle.battle_id, 1);
    assert_eq!(battle.attacker, 2);
    assert_eq!(battle.winner, 2);
    assert_eq!(battle.loser, 1);
    assert_eq!(battle.time, T0);
    assert_eq!(store.get_pet_by_pet_id(1).unwrap().score, 99999999999000);
    assert_eq!(store.get_pet_by_pet_id(2).unwrap().score, 1000);
    assert_eq!(store.get_all_battle_metadata(None, None).len(), 1);
}

#[test]
fn test_create_pool() {
    let mut store = store_with_species();
    let pool = store.create_new_staking_pool(&s("joychi"), s("Pool1"), vec![1], T0 as u128, T0 as u128 + 100000000000, 10, 1, 10).unwrap();
    assert_eq!(pool.pool_id, 1);
    assert_eq!(pool.price_per_slot, 37);
    assert_eq!(pool.pool_info.total_staked_slot, 0);
    assert!(pool.staked_pets.is_empty());
}

fn staking_store() -> JoychiV1 {
    let mut store = store_with_hat();
    let owner = s("joychi");
    store.create_item(&owner, s("Prototype_Image_1"), ItemType::Normal, 100000, 1000000, 100000000, ItemRarity::Common, 10, 1000).unwrap();
    store.create_new_staking_pool(&owner, s("Pool1"), vec![1], T0 as u128, T0 as u128 + 100000000000, 10, 1, 10).unwrap();
    store.take_outbox();
    store
}

#[test]
fn test_stake() {
    let mut store = staking_store();
    let pool = store.stake(&s("alice"), 1, 1, T0 + 1).unwrap();
    assert_eq!(pool.pool_info.total_staked_slot, 1);
    assert_eq!(pool.staked_pets.len(), 1);
    assert_eq!(pool.staked_pets[0].nft_id, 1);
    assert_eq!(pool.staked_pets[0].owner, "alice");
    assert!(store.get_pet_by_pet_id(1).unwrap().is_lock);
}

#[test]
fn test_unstake() {
    let mut store = staking_store();
    store.stake(&s("alice"), 1, 1, T0 + 1).unwrap();
    let after_end = T0 + 100000000001;
    store.un_stake(&s("alice"), 1, 1, after_end).unwrap();
    assert!(!store.get_pet_by_pet_id(1).unwrap().is_lock);
    let calls = store.take_outbox();
    assert_eq!(calls.len(), 2);
    assert!(matches!(&calls[0], LedgerCall::ItemMint { token_id: 1, receiver, .. } if receiver == "alice"));
    assert!(matches!(&calls[1], LedgerCall::FtTransfer { receiver, amount } if receiver == "alice" && *amount == 37));
}

#[test]
fn test_redeem() {
    let mut store = store_with_hat();
    store.buy_item(&s("alice"), 1, 1, T0).unwrap();
    store.take_outbox();
    store.redeem(1, s("alice")).unwrap();
    let pet = store.get_pet_by_pet_id(1).unwrap();
    assert_eq!(pet.score, 0);
    assert_eq!(pet.reward_debt, 0);
    assert_eq!(pet.level, 1);
    assert_eq!(store.total_score, 0);
    let calls = store.take_outbox();
    assert!(matches!(&calls[0], LedgerCall::NativeTransfer { receiver, .. } if receiver == "alice"));
}

#[test]
fn test_kill_pet() {
    let mut store = store_with_hat();
    store.create_pet(&s("bob"), s("Pet2"), T0, 3).unwrap();
    store.kill_pet(&s("bob"), 2, 1, T0).unwrap();
    assert!(store.get_pet_by_pet_id(2).is_none());
    assert_eq!(store.get_pet_by_pet_id(1).unwrap().star, 1);
    assert_eq!(store.is_pet_alive(2, T0), Err(JoyError::NotFound));
    let pet = store.create_pet(&s("bob"), s("Pet3"), T0, 3).unwrap();
    assert_eq!(pet.pet_id, 3);
}

#[test]
fn test_update_metadata_attribute() {
    let mut store = store_with_hat();
    let owner = s("joychi");
    let delegate = s("delegate");
    let attribute = joy_v1::pet::PetAttribute {
        pet_name: s("Dustin"),
        image: s("xyz.com"),
        score: 10000,
        level: 1,
        status: Status::HAPPY,
        star: 0,
    };
    assert_eq!(store.delegate_update_attribute(&delegate, 1, attribute.clone()), Err(JoyError::NotOwner));
    assert!(store.check_role_update_pet(1, &s("alice")));
    assert!(!store.check_role_update_pet(1, &delegate));
    store.add_access_update_pet(&owner, 1, delegate.clone()).unwrap();
    assert!(store.check_role_update_pet(1, &delegate));
    store.take_outbox();
    store.delegate_update_attribute(&delegate, 1, attribute).unwrap();
    let calls = store.take_outbox();
    assert!(matches!(&calls[0], LedgerCall::PetAttributeUpdate { token_id: 1, attribute } if attribute.image == "xyz.com"));
}

#[test]
fn test_update_metadata_token() {
    let mut store = store_with_hat();
    let delegate = s("delegate");
    store.add_access_update_pet(&s("joychi"), 1, delegate.clone()).unwrap();
    store.take_outbox();
    let metadata = joy_v1::ledger::TokenMetadata {
        title: Some(s("This is new metadata description")),
        description: None,
        media: None,
        media_hash: None,
        copies: None,
        issued_at: None,
        expires_at: None,
        starts_at: None,
        updated_at: None,
        extra: None,
        reference: None,
        reference_hash: None,
    };
    store.delegate_update_metadata(&delegate, 1, metadata).unwrap();
    let calls = store.take_outbox();
    assert!(matches!(&calls[0], LedgerCall::PetMetadataUpdate { token_id: 1, metadata }
        if metadata.title.as_deref() == Some("This is new metadata description")));
}

#[test]
fn time_units_are_nanoseconds() {
    assert_eq!(HOUR, 3_600_000_000_000);
    assert_eq!(DAY, 24 * HOUR);
}

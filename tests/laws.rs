use joy_v1::item_factory::{ItemEnum, ItemFeature};
use joy_v1::item_immidiate::{ItemImmidiateEnum, ItemImmidiateFeature};
use joy_v1::pet::{PetEnum, PetFeature};
use joy_v1::staking_and_mining::{StakingAndMining, StakingAndMiningEnum};
use joy_v1::contract::{JoyError, JoychiV1};
use joy_v1::faucet::{Faucet, FaucetError};
use joy_v1::item_factory::{ItemRarity, ItemType};
use joy_v1::ledger::LedgerCall;
use joy_v1::leveling::{level_of, sqrt};
use joy_v1::pet::PetEvolution;
use joy_v1::random::random_in_range;
use joy_v1::status::{status_at, Status, HOUR, MINUTE};

const T0: u64 = 10 * 3_600_000_000_000;

fn s(x: &str) -> String {
    x.to_string()
}

fn stage(image: &str, name: &str, next: u128) -> PetEvolution {
    PetEvolution { image: s(image), name: s(name), attack_win_rate: 5, next_evolution_level: next }
}

fn base() -> JoychiV1 {
    let owner = s("joychi");
    let mut store = JoychiV1::init(&owner, s("nft_pet"), s("nft_item"), s("ft"));
    let stages = vec![
        stage("evolution_1_image.com", "Gold", 2),
        stage("evolution_2_image.com", "Platium", 3),
        stage("evolution_3_image.com", "Titan", 4),
    ];
    store.create_species(&owner, true, 1, s("JOY1"), stages).unwrap();
    store.create_pet(&s("alice"), s("Pet1"), T0, 0).unwrap();
    store
        .create_item_immidiate(&owner, s("hat"), 100000, 100000000000000, 100021310000, 10, 5, 10, true)
        .unwrap();
    store
}

#[test]
fn level_curve_values() {
    assert_eq!(level_of(0), 1);
    assert_eq!(level_of(99_999_999_999_999), 1);
    assert_eq!(level_of(100_000_000_000_000), 2);
    assert_eq!(level_of(200_000_000_000_000), 4);
    assert_eq!(level_of(800_000_000_000_000), 8);
    assert_eq!(level_of(u128::MAX), 2 * sqrt(2 * (u128::MAX / 100_000_000_000_000)));
    let mut last = 0;
    for k in 0..200u128 {
        let l = level_of(k * 50_000_000_000_000);
        assert!(l >= last);
        last = l;
    }
}

#[test]
fn integer_square_root() {
    assert_eq!(sqrt(0), 0);
    assert_eq!(sqrt(1), 1);
    assert_eq!(sqrt(2), 1);
    assert_eq!(sqrt(15), 3);
    assert_eq!(sqrt(16), 4);
    assert_eq!(sqrt(u128::MAX), u64::MAX as u128);
}

#[test]
fn status_classification() {
    let now: u64 = 1_000_000;
    let n = now as u128;
    assert_eq!(status_at(n + 17 * HOUR, now), Status::HAPPY);
    assert_eq!(status_at(n + 13 * HOUR, now), Status::HUNGRY);
    assert_eq!(status_at(n + 9 * HOUR, now), Status::STARVING);
    assert_eq!(status_at(n + HOUR, now), Status::DYING);
    assert_eq!(status_at(n + 16 * HOUR, now), Status::DYING);
    assert_eq!(status_at(n - 1, now), Status::DYING);
    assert_eq!(status_at(0, now), Status::DYING);
}

#[test]
fn stock_falls_by_one_and_empty_stock_refuses() {
    let mut store = base();
    let owner = s("joychi");
    store.edit_item_immidiate(&owner, 1, s("hat"), 100000, 1, 100021310000, 10, 2, 10, true).unwrap();
    store.buy_item(&s("alice"), 1, 1, T0).unwrap();
    assert_eq!(store.get_item_immidiate_by_item_id(1).unwrap().stock, 1);
    store.buy_item(&s("alice"), 1, 1, T0).unwrap();
    assert_eq!(store.get_item_immidiate_by_item_id(1).unwrap().stock, 0);
    assert_eq!(store.buy_item(&s("alice"), 1, 1, T0), Err(JoyError::OutOfStock));
    assert_eq!(store.get_item_immidiate_by_item_id(1).unwrap().stock, 0);
}

#[test]
fn locked_pet_is_refused() {
    let mut store = base();
    let owner = s("joychi");
    store.create_pet(&s("bob"), s("Pet2"), T0, 0).unwrap();
    store.buy_item(&s("alice"), 1, 1, T0).unwrap();
    store.create_new_staking_pool(&owner, s("Pool1"), vec![], T0 as u128, T0 as u128 + 1000, 10, 1, 10).unwrap();
    store.stake(&s("alice"), 1, 1, T0 + 1).unwrap();
    assert_eq!(store.buy_item(&s("alice"), 1, 1, T0 + 1), Err(JoyError::PetLocked));
    assert_eq!(store.attack(&s("bob"), 2, 1, T0 + 1, 1), Err(JoyError::PetLocked));
    assert_eq!(store.kill_pet(&s("alice"), 1, 2, T0 + 1), Err(JoyError::PetLocked));
    assert_eq!(store.redeem(1, s("alice")), Err(JoyError::PetLocked));
    assert_eq!(store.stake(&s("alice"), 1, 1, T0 + 1).err(), Some(JoyError::PetLocked));
}

#[test]
fn stake_then_unstake_before_and_after_end() {
    let mut store = base();
    let owner = s("joychi");
    store.create_new_staking_pool(&owner, s("Pool1"), vec![], T0 as u128, T0 as u128 + 1000, 10, 1, 10).unwrap();
    store.stake(&s("alice"), 1, 1, T0 + 1).unwrap();
    assert_eq!(store.un_stake(&s("alice"), 1, 1, T0 + 2), Err(JoyError::PoolNotEnded));
    assert_eq!(store.un_stake(&s("alice"), 1, 1, T0 + 1000), Err(JoyError::PoolNotEnded));
    assert_eq!(store.un_stake(&s("alice"), 1, 1, T0 + 1001), Ok(()));
    assert!(store.pool_metadata_by_id[0].staked_pets.is_empty());
    assert_eq!(store.un_stake(&s("alice"), 1, 1, T0 + 1002), Err(JoyError::NotStaked));
}

#[test]
fn evolution_scenario() {
    let mut store = base();
    let pet = store.get_pet_by_pet_id(1).unwrap();
    assert_eq!(pet.level, 1);
    assert_eq!(pet.pet_evolution_phase, 1);
    store.buy_item(&s("alice"), 1, 1, T0).unwrap();
    assert_eq!(store.level_pet(1), Ok(2));
    assert_eq!(store.get_pet_evolution_phase(1, 1), Ok(2));
    store.check_evol_pet_if_needed(1).unwrap();
    assert_eq!(store.get_pet_by_pet_id(1).unwrap().pet_evolution_phase, 2);
    assert_eq!(store.get_pet_image(1), Some(s("evolution_2_image.com")));
    assert_eq!(store.get_pet_evolution_item(1).unwrap().name, "Platium");
    assert_eq!(store.get_pet_attack_winrate(1), Some(5));
    store.check_evol_pet_if_needed(1).unwrap();
    assert_eq!(store.get_pet_by_pet_id(1).unwrap().pet_evolution_phase, 2);
}

#[test]
fn attack_only_upward() {
    let mut store = base();
    store.create_pet(&s("bob"), s("Pet2"), T0, 0).unwrap();
    store.buy_item(&s("alice"), 1, 1, T0).unwrap();
    assert_eq!(store.get_pet_by_pet_id(1).unwrap().level, 2);
    assert_eq!(store.get_pet_by_pet_id(2).unwrap().level, 1);
    assert_eq!(store.attack(&s("alice"), 1, 2, T0, 1), Err(JoyError::LevelGate));
    assert!(store.attack(&s("bob"), 2, 1, T0, 0).is_ok());
    let battle = store.get_battle_by_pet_id(1).unwrap();
    assert_eq!(battle.attacker, 2);
    assert_eq!(battle.winner, 1);
    assert_eq!(store.get_pet_by_pet_id(1).unwrap().score, 100000000001000);
    assert_eq!(store.get_pet_by_pet_id(2).unwrap().score, 0);
    assert_eq!(store.get_pet_by_pet_id(2).unwrap().status, Status::DYING);
}

fn mining_store() -> JoychiV1 {
    let owner = s("joychi");
    let mut store = JoychiV1::init(&owner, s("nft_pet"), s("nft_item"), s("ft"));
    store.create_item(&owner, s("Drill"), ItemType::MineTool, 0, 0, 0, ItemRarity::MineTool, 10, 1000).unwrap();
    store
}

#[test]
fn mining_scenario() {
    let mut store = mining_store();
    let miner = s("miner");
    store.add_mining_tool(&miner, 1, T0).unwrap();
    let rig = store.get_mining_data_by_account_id(&miner).unwrap();
    assert_eq!(rig.total_mining_power, 10);
    assert_eq!(rig.total_mining_charge_time, 1000);
    assert_eq!(rig.last_mining_time, T0 as u128);
    assert_eq!(store.mining(&miner, T0 + 999), Err(JoyError::MiningCooldown));
    store.mining(&miner, T0 + 1000).unwrap();
    assert_eq!(store.get_mining_data_by_account_id(&miner).unwrap().mining_points, 100);
    assert_eq!(store.mining(&miner, T0 + 1000), Err(JoyError::MiningCooldown));
    store.mining(&miner, T0 + 2000).unwrap();
    assert_eq!(store.get_mining_data_by_account_id(&miner).unwrap().mining_points, 200);
}

#[test]
fn mining_tool_attach_and_detach() {
    let mut store = mining_store();
    let owner = s("joychi");
    let miner = s("miner");
    for _ in 0..3 {
        store.create_item(&owner, s("Drill"), ItemType::MineTool, 0, 0, 0, ItemRarity::MineTool, 5, 100).unwrap();
    }
    store.create_item(&owner, s("Hat"), ItemType::Normal, 0, 0, 0, ItemRarity::Common, 5, 100).unwrap();
    assert_eq!(store.add_mining_tool(&miner, 5, T0), Err(JoyError::NotMiningTool));
    assert_eq!(store.add_mining_tool(&miner, 9, T0), Err(JoyError::NotFound));
    store.add_mining_tool(&miner, 1, T0).unwrap();
    assert_eq!(store.add_mining_tool(&s("other"), 1, T0), Err(JoyError::ToolLocked));
    store.add_mining_tool(&miner, 2, T0).unwrap();
    store.add_mining_tool(&miner, 3, T0).unwrap();
    assert_eq!(store.add_mining_tool(&miner, 4, T0), Err(JoyError::ToolLimitReached));
    let rig = store.get_mining_data_by_account_id(&miner).unwrap();
    assert_eq!(rig.total_mining_power, 20);
    assert_eq!(rig.mining_tool_used, vec![1, 2, 3]);
    assert_eq!(store.remove_mining_tool(&s("other"), 2), Err(JoyError::NotFound));
    store.add_mining_tool(&s("other"), 4, T0).unwrap();
    assert_eq!(store.remove_mining_tool(&s("other"), 2), Err(JoyError::NotOwner));
    assert_eq!(store.remove_mining_tool(&miner, 4), Err(JoyError::NotOwner));
    store.remove_mining_tool(&miner, 2).unwrap();
    let rig = store.get_mining_data_by_account_id(&miner).unwrap();
    assert_eq!(rig.total_mining_power, 15);
    assert_eq!(rig.total_mining_charge_time, 1100);
    assert_eq!(rig.mining_tool_used, vec![1, 3]);
    assert!(!store.get_item_by_item_id(2).unwrap().is_lock);
    store.remove_item_from_list_tool(&miner, 3).unwrap();
    assert_eq!(store.get_mining_data_by_account_id(&miner).unwrap().mining_tool_used, vec![1]);
    assert_eq!(store.remove_item_from_list_tool(&miner, 3), Err(JoyError::NotFound));
    assert_eq!(store.remove_mining_tool(&miner, 3), Err(JoyError::NotOwner));
}

#[test]
fn redeem_mining_points() {
    let mut store = mining_store();
    let miner = s("miner");
    store.set_mining_points_used_per_redemn(150);
    store.set_token_earned_per_redemn(7);
    assert_eq!(store.redemn_mining_points(&miner), Err(JoyError::NotFound));
    store.add_mining_tool(&miner, 1, T0).unwrap();
    store.mining(&miner, T0 + 1000).unwrap();
    assert_eq!(store.redemn_mining_points(&miner), Err(JoyError::NotEnoughPoints));
    store.mining(&miner, T0 + 2000).unwrap();
    store.take_outbox();
    store.redemn_mining_points(&miner).unwrap();
    assert_eq!(store.get_mining_data_by_account_id(&miner).unwrap().mining_points, 50);
    let calls = store.take_outbox();
    assert!(matches!(&calls[0], LedgerCall::FtTransfer { receiver, amount } if receiver == "miner" && *amount == 7));
}

#[test]
fn no_power_refuses_mining() {
    let mut store = JoychiV1::init(&s("joychi"), s("a"), s("b"), s("c"));
    store.create_item(&s("joychi"), s("Stick"), ItemType::MineTool, 0, 0, 0, ItemRarity::MineTool, 0, 0).unwrap();
    store.add_mining_tool(&s("miner"), 1, T0).unwrap();
    assert_eq!(store.mining(&s("miner"), T0), Err(JoyError::NoMiningPower));
    assert_eq!(store.mining(&s("nobody"), T0), Err(JoyError::NotFound));
}

#[test]
fn withdraw_redundant_tokens() {
    let mut store = base();
    let owner = s("joychi");
    store.create_new_staking_pool(&owner, s("Pool1"), vec![], T0 as u128, T0 as u128 + 1000, 10, 3, 10).unwrap();
    store.stake(&s("alice"), 1, 1, T0 + 1).unwrap();
    assert_eq!(store.owner_withdraw_redundant_token(&owner, 1, T0 + 10), Err(JoyError::PoolNotEnded));
    assert_eq!(store.owner_withdraw_redundant_token(&s("alice"), 1, T0 + 2000), Err(JoyError::NotOwner));
    store.take_outbox();
    assert_eq!(store.owner_withdraw_redundant_token(&owner, 1, T0 + 2000), Ok(27));
    let calls = store.take_outbox();
    assert!(matches!(&calls[0], LedgerCall::FtTransfer { receiver, amount } if receiver == "joychi" && *amount == 27));
    store.create_new_staking_pool(&owner, s("Pool2"), vec![], 0, 0, u128::MAX, 2, 1).unwrap();
    assert_eq!(store.owner_withdraw_redundant_token(&owner, 2, T0), Err(JoyError::Overflow));
}

#[test]
fn pool_capacity_and_timing() {
    let mut store = base();
    let owner = s("joychi");
    store.create_pet(&s("alice"), s("Pet2"), T0, 0).unwrap();
    store.create_new_staking_pool(&owner, s("Tiny"), vec![], T0 as u128, T0 as u128 + 1000, 1, 1, 1).unwrap();
    assert_eq!(store.stake(&s("alice"), 1, 1, T0).err(), Some(JoyError::PoolNotStarted));
    store.stake(&s("alice"), 1, 1, T0 + 1).unwrap();
    assert_eq!(store.stake(&s("alice"), 2, 1, T0 + 1).err(), Some(JoyError::PoolFull));
    assert_eq!(store.stake(&s("bob"), 2, 1, T0 + 1).err(), Some(JoyError::NotOwner));
    assert_eq!(store.stake(&s("alice"), 2, 9, T0 + 1).err(), Some(JoyError::NotFound));
    assert_eq!(store.un_stake(&s("alice"), 2, 1, T0 + 2000), Err(JoyError::NotStaked));
    assert_eq!(store.create_new_staking_pool(&s("alice"), s("X"), vec![], 0, 0, 1, 1, 1).map(|p| p.pool_id), Err(JoyError::NotOwner));
}

#[test]
fn unstake_refusals() {
    let mut store = base();
    let owner = s("joychi");
    store.create_new_staking_pool(&owner, s("Pool1"), vec![5], T0 as u128, T0 as u128 + 1000, 10, 1, 10).unwrap();
    store.stake(&s("alice"), 1, 1, T0 + 1).unwrap();
    assert_eq!(store.un_stake(&s("alice"), 1, 1, T0 + 2000), Err(JoyError::NotFound));
    let mut late = base();
    late.create_new_staking_pool(&owner, s("Pool1"), vec![], T0 as u128, T0 as u128 + 1000, 10, 1, 10).unwrap();
    late.stake(&s("alice"), 1, 1, T0 + 1).unwrap();
    assert_eq!(late.un_stake(&s("alice"), 1, 1, T0 + 2 * 86_400_000_000_000), Err(JoyError::PetNotAlive));
}

#[test]
fn attack_refusals() {
    let mut store = base();
    store.create_pet(&s("bob"), s("Pet2"), T0, 0).unwrap();
    store.buy_item(&s("alice"), 1, 1, T0).unwrap();
    assert_eq!(store.attack(&s("bob"), 2, 2, T0, 0), Err(JoyError::SelfTarget));
    assert_eq!(store.attack(&s("bob"), 2, 7, T0, 0), Err(JoyError::NotFound));
    assert_eq!(store.attack(&s("alice"), 2, 1, T0, 0), Err(JoyError::NotOwner));
    assert_eq!(store.attack(&s("bob"), 2, 1, T0 + 2 * 86_400_000_000_000, 0), Err(JoyError::PetNotAlive));
    let mut fresh = base();
    fresh.create_pet(&s("bob"), s("Pet2"), 0, 0).unwrap();
    fresh.buy_item(&s("alice"), 1, 1, 0).unwrap();
    assert_eq!(fresh.attack(&s("bob"), 2, 1, 0, 0), Err(JoyError::DefenderCooldown));
    store.attack(&s("bob"), 2, 1, T0, 1).unwrap();
    store.create_pet(&s("carol"), s("Pet3"), T0, 0).unwrap();
    store.buy_item(&s("carol"), 3, 1, T0).unwrap();
    assert_eq!(store.attack(&s("bob"), 2, 3, T0 + 1, 1), Err(JoyError::AttackCooldown));
    assert!(store.attack(&s("bob"), 2, 3, T0 + 15 * MINUTE as u64, 1).is_ok());
}

#[test]
fn pet_lifecycle_refusals() {
    let owner = s("joychi");
    let mut empty = JoychiV1::init(&owner, s("a"), s("b"), s("c"));
    assert_eq!(empty.create_pet(&s("alice"), s("P"), T0, 0).map(|p| p.pet_id), Err(JoyError::NoSpecies));
    assert_eq!(empty.create_species(&owner, false, 0, s("S"), vec![]), Err(JoyError::EmptyEvolution));
    assert_eq!(empty.create_species(&s("alice"), false, 0, s("S"), vec![stage("i", "n", 1)]), Err(JoyError::NotOwner));
    let mut store = base();
    assert_eq!(store.buy_item(&s("bob"), 1, 1, T0), Err(JoyError::NotOwner));
    assert_eq!(store.buy_item(&s("alice"), 1, 3, T0), Err(JoyError::NotFound));
    store.create_item_immidiate(&owner, s("bone"), 1, 1, 1, 0, 5, 0, false).unwrap();
    let dead = T0 + 2 * 86_400_000_000_000;
    assert_eq!(store.buy_item(&s("alice"), 1, 2, dead), Err(JoyError::PetNotAlive));
    assert!(store.buy_item(&s("alice"), 1, 1, dead).is_ok());
    assert_eq!(store.is_pet_alive(1, dead), Ok(true));
    store.create_pet(&s("bob"), s("Pet2"), T0, 0).unwrap();
    assert_eq!(store.kill_pet(&s("bob"), 2, 2, T0), Err(JoyError::SelfTarget));
    assert_eq!(store.kill_pet(&s("alice"), 2, 1, T0), Err(JoyError::NotOwner));
    assert_eq!(store.kill_pet(&s("bob"), 2, 1, dead), Err(JoyError::PetNotAlive));
    assert_eq!(store.redeem(9, s("x")), Err(JoyError::NotFound));
    assert_eq!(store.set_manager(&s("alice"), s("m")), Err(JoyError::NotOwner));
    assert_eq!(store.set_manager(&owner, s("m")), Ok(()));
    assert_eq!(store.manager_address, "m");
    assert_eq!(store.add_access_update_pet(&s("alice"), 1, s("d")).map(|p| p.pet_id), Err(JoyError::NotOwner));
    assert_eq!(store.mint_item_for_user(s("x"), 1, T0), Err(JoyError::NotFound));
}

#[test]
fn overflow_is_refused() {
    let owner = s("joychi");
    let mut store = base();
    store.create_item_immidiate(&owner, s("gold"), 1, u128::MAX, 1, 0, 5, 0, false).unwrap();
    store.buy_item(&s("alice"), 1, 1, T0).unwrap();
    assert_eq!(store.buy_item(&s("alice"), 1, 2, T0), Err(JoyError::Overflow));
    assert_eq!(store.get_pet_by_pet_id(1).unwrap().score, 100000000000000);
}

#[test]
fn buying_the_evolution_item_marks_it_held() {
    let owner = s("joychi");
    let mut store = base();
    store.create_item_immidiate(&owner, s("stone"), 1, 0, HOUR, 0, 5, 0, false).unwrap();
    store.buy_item(&s("alice"), 1, 2, T0).unwrap();
    let pet = store.get_pet_by_pet_id(1).unwrap();
    assert_eq!(pet.items.len(), 1);
    assert_eq!(pet.items[0].name, "stone");
    assert_eq!(pet.time_until_starving, T0 as u128 + HOUR);
    assert_eq!(pet.status, Status::DYING);
    assert!(pet.pet_has_evolution_item);
    assert_eq!(store.get_status_pet(1, T0), Some(Status::DYING));
}

#[test]
fn random_range_mapping() {
    assert_eq!(random_in_range(1, 2, 0), 1);
    assert_eq!(random_in_range(1, 2, 1), 2);
    assert_eq!(random_in_range(5, 5, 12345), 5);
    assert_eq!(random_in_range(0, u64::MAX, u64::MAX), u64::MAX);
    assert_eq!(random_in_range(10, 19, 23), 13);
}

#[test]
fn species_drawn_from_seed() {
    let owner = s("joychi");
    let mut store = base();
    store.create_species(&owner, false, 0, s("JOY2"), vec![stage("other.com", "Other", 9)]).unwrap();
    let a = store.create_pet(&s("bob"), s("A"), T0, 0).unwrap();
    let b = store.create_pet(&s("bob"), s("B"), T0, 1).unwrap();
    assert_eq!(a.pet_species, 1);
    assert_eq!(a.category, "JOY1");
    assert_eq!(b.pet_species, 2);
    assert_eq!(b.category, "JOY2");
    assert!(!b.pet_need_evolution_item);
}

#[test]
fn listings_page_through_records() {
    let mut store = base();
    for k in 0..4u64 {
        store.create_pet(&s("bob"), format!("P{}", k), T0, k).unwrap();
    }
    store.create_pet(&s("bob"), s("Victim"), T0, 0).unwrap();
    store.kill_pet(&s("bob"), 3, 2, T0).unwrap();
    let all = store.get_all_pet_metadata(None, None);
    let ids: Vec<u64> = all.iter().map(|p| p.pet_id).collect();
    assert_eq!(ids, vec![1, 2, 4, 5, 6]);
    let page: Vec<u64> = store.get_all_pet_metadata(Some(1), Some(2)).iter().map(|p| p.pet_id).collect();
    assert_eq!(page, vec![2, 4]);
    assert!(store.get_all_pet_metadata(Some(10), None).is_empty());
    assert_eq!(store.get_all_item_immidiate_metadata(None, Some(1)).len(), 1);
    assert!(store.get_all_item_metadata(None, None).is_empty());
    assert!(store.get_battle_by_pet_id(1).is_none());
}

#[test]
fn token_uri_reports_fresh_status() {
    let mut store = base();
    store.take_outbox();
    let later = T0 + 14 * 3_600_000_000_000;
    let a = store.token_uri(1, later).unwrap();
    assert_eq!(a.status, Status::STARVING);
    assert_eq!(store.take_outbox().len(), 1);
    assert!(store.token_uri(9, later).is_err());
}

#[test]
fn faucet_rules() {
    let owner = s("owner");
    let mut faucet = Faucet::init(&owner, s("ft"));
    assert_eq!(faucet.amount, 10);
    let call = faucet.get_joychi(s("alice")).unwrap();
    assert!(matches!(call, LedgerCall::DepositThenTransfer { ref account, amount: 10 } if account == "alice"));
    assert_eq!(faucet.set_faucet_amount(&s("alice"), 5), Err(FaucetError::NotOwner));
    faucet.set_faucet_amount(&owner, 0).unwrap();
    assert!(matches!(faucet.get_joychi(s("alice")), Err(FaucetError::NoAmount)));
    faucet.is_active = false;
    assert!(matches!(faucet.get_joychi(s("alice")), Err(FaucetError::Inactive)));
}

#[test]
fn anyone_may_mint_a_stored_prototype() {
    let mut store = mining_store();
    store.take_outbox();
    store.mint_item_for_user(s("alice"), 1, T0).unwrap();
    let calls = store.take_outbox();
    assert_eq!(calls.len(), 1);
    assert!(matches!(&calls[0], LedgerCall::ItemMint { token_id: 1, receiver, attribute, timestamp }
        if receiver == "alice" && attribute.item_image == "Drill" && attribute.mining_power == 10 && *timestamp == T0));
}

#[test]
fn locked_pet_refused_before_ownership() {
    let mut store = base();
    let owner = s("joychi");
    store.create_pet(&s("bob"), s("Pet2"), T0, 0).unwrap();
    store.create_new_staking_pool(&owner, s("Pool1"), vec![], T0 as u128, T0 as u128 + 1000, 10, 1, 10).unwrap();
    store.stake(&s("alice"), 1, 1, T0 + 1).unwrap();
    assert_eq!(store.buy_item(&s("bob"), 1, 1, T0 + 1), Err(JoyError::PetLocked));
    assert_eq!(store.attack(&s("alice"), 1, 2, T0 + 1, 0), Err(JoyError::PetLocked));
    assert_eq!(store.kill_pet(&s("bob"), 1, 2, T0 + 1), Err(JoyError::PetLocked));
}

#[test]
fn redeem_sends_the_fixed_reward() {
    let mut store = base();
    store.take_outbox();
    store.redeem(1, s("alice")).unwrap();
    let calls = store.take_outbox();
    assert!(matches!(&calls[0], LedgerCall::NativeTransfer { receiver, amount }
        if receiver == "alice" && *amount == 100_000_000_000_000_000_000));
}

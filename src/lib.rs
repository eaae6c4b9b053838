//! Game-economy state machine of a virtual-pet platform: pets, consumable
//! items, tool prototypes, species, battles, staking pools and mining rigs.
//!
//! Every operation takes its caller and the current block time explicitly,
//! refuses with a `JoyError` and no change when a rule is broken, and records
//! the ledger effects it schedules (mints, burns, transfers, metadata pushes)
//! in the store's outbox; the host sends them after the operation returns.
/// The health classification of a pet and the block-time units.
pub mod status;
/// The level curve and the integer square root behind it.
pub mod leveling;
/// Consumable items and their catalog interface.
pub mod item_immidiate;
/// Tool prototypes and their catalog interface.
pub mod item_factory;
/// Pets, species, evolution stages, and the pet interfaces.
pub mod pet;
/// Staking pools and mining rigs, and their interfaces.
pub mod staking_and_mining;
/// The calls to the outside ledgers that operations schedule.
pub mod ledger;
/// The entity store, its invariant, and the error type.
pub mod contract;
/// Mapping a random seed onto a range of ids.
pub mod random;
/// Lookup of records by id.
pub mod store;
/// Advancing a pet along its evolution track.
pub mod evolution;
/// Pet lifecycle and battles.
pub mod impl_pet;
/// Both item catalogs.
pub mod impl_item;
/// Pools, stakes, mining rigs and redemptions.
pub mod impl_staking_and_mining;
/// Paged listings and lookups.
pub mod enumeration;
/// The token faucet.
pub mod faucet;

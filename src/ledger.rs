use vstd::prelude::*;

use crate::item_factory::ItemAttribute;
use crate::pet::PetAttribute;

verus! {

/// NFT token metadata, every field optional, handed through to the NFT ledger.
pub struct TokenMetadata {
    pub title: Option<String>,
    pub description: Option<String>,
    pub media: Option<String>,
    pub media_hash: Option<Vec<u8>>,
    pub copies: Option<u64>,
    pub issued_at: Option<u64>,
    pub expires_at: Option<u64>,
    pub starts_at: Option<u64>,
    pub updated_at: Option<u64>,
    pub extra: Option<String>,
    pub reference: Option<String>,
    pub reference_hash: Option<Vec<u8>>,
}

/// A call to one of the two outside ledgers, scheduled by an operation and
/// sent after it returns. Its failure does not undo the operation.
pub enum LedgerCall {
    /// Burn `amount` fungible tokens of `account`.
    FtBurn { account: String, amount: u128 },
    /// Transfer `amount` fungible tokens from the contract to `receiver`.
    FtTransfer { receiver: String, amount: u128 },
    /// Transfer `amount` of the native coin from the contract to `receiver`.
    NativeTransfer { receiver: String, amount: u128 },
    /// Mint the pet token `token_id` to `receiver`, described by `attribute`.
    PetMint { token_id: u64, receiver: String, attribute: PetAttribute, timestamp: u64 },
    /// Mint a token of the tool prototype `token_id` to `receiver`.
    ItemMint { token_id: u64, receiver: String, attribute: ItemAttribute, timestamp: u64 },
    /// Replace the display attributes of the pet token `token_id`.
    PetAttributeUpdate { token_id: u64, attribute: PetAttribute },
    /// Replace the token metadata of the pet token `token_id`.
    PetMetadataUpdate { token_id: u64, metadata: TokenMetadata },
    /// Register `account` with the fungible-token ledger, and once that has
    /// succeeded, transfer `amount` tokens to it.
    DepositThenTransfer { account: String, amount: u128 },
}

} // verus!

use vstd::prelude::*;

use crate::ledger::LedgerCall;

verus! {

/// Tokens handed out per request by a new faucet.
pub const DEFAULT_FAUCET_AMOUNT: u128 = 10;

/// Why the faucet refuses.
#[derive(Clone, Copy, PartialEq, Eq, Structural, Debug)]
pub enum FaucetError {
    /// The faucet is switched off.
    Inactive,
    /// The amount per request is zero.
    NoAmount,
    /// The caller is not the faucet's owner.
    NotOwner,
}

/// A faucet of fungible tokens: each request registers the receiving account
/// with the token ledger and then sends it a fixed amount.
pub struct Faucet {
    pub owner_id: String,
    pub ft_address: String,
    pub is_active: bool,
    pub amount: u128,
}

impl Faucet {
    /// An active faucet of the token `ft_address`, owned by the deploying
    /// account, handing out the default amount.
    pub fn init(signer: &String, ft_address: String) -> (r: Faucet)
        ensures
            r == (Faucet { owner_id: *signer, ft_address, is_active: true, amount: DEFAULT_FAUCET_AMOUNT }),
    {
        Faucet { owner_id: signer.clone(), ft_address, is_active: true, amount: DEFAULT_FAUCET_AMOUNT }
    }

    /// The ledger call that hands the faucet's amount to `addr_to`: a storage
    /// registration, followed by the transfer once it has succeeded.
    pub fn get_joychi(&self, addr_to: String) -> (r: Result<LedgerCall, FaucetError>)
        ensures
            !self.is_active ==> r == Err::<LedgerCall, FaucetError>(FaucetError::Inactive),
            self.is_active && self.amount == 0 ==> r == Err::<LedgerCall, FaucetError>(FaucetError::NoAmount),
            self.is_active && self.amount > 0 ==> r == Ok::<LedgerCall, FaucetError>(
                LedgerCall::DepositThenTransfer { account: addr_to, amount: self.amount },
            ),
    {
        if !self.is_active {
            return Err(FaucetError::Inactive);
        }
        if self.amount == 0 {
            return Err(FaucetError::NoAmount);
        }
        Ok(LedgerCall::DepositThenTransfer { account: addr_to, amount: self.amount })
    }

    /// Sets the amount per request; the owner alone may.
    pub fn set_faucet_amount(&mut self, caller: &String, amount: u128) -> (r: Result<(), FaucetError>)
        ensures
            caller@ == old(self).owner_id@ <==> r is Ok,
            r is Ok ==> *final(self) == (Faucet { amount, ..*old(self) }),
            r is Err ==> r == Err::<(), FaucetError>(FaucetError::NotOwner) && *final(self) == *old(self),
    {
        if *caller != self.owner_id {
            return Err(FaucetError::NotOwner);
        }
        self.amount = amount;
        Ok(())
    }
}

} // verus!

use vstd::prelude::*;

use crate::errors::VaultError;
use crate::events::BatchSettled;
use crate::fees::fee_of;
use crate::identity::Pubkey;
use crate::state::{zero_reserved, ProtocolConfig, ProviderModel, Vault};

verus! {

/// The whole program state: the configuration, the global pause switch, and
/// the provider and vault records keyed by the bytes of their owning identity.
pub struct VaultState {
    pub config: Option<ProtocolConfig>,
    pub paused: bool,
    pub providers: Map<Seq<u8>, ProviderModel>,
    pub vaults: Map<Seq<u8>, Vault>,
}

impl VaultState {
    /// The fee rate is at most a whole, each record is stored under its own
    /// identity, and each vault keeps its nonce bound.
    pub open spec fn wf(self) -> bool {
        &&& (self.config matches Some(c) ==> c.fee_bps <= 10000)
        &&& forall|k: Seq<u8>| #[trigger] self.providers.contains_key(k)
            ==> self.providers[k].authority@ == k
        &&& forall|k: Seq<u8>| #[trigger] self.vaults.contains_key(k)
            ==> self.vaults[k].owner@ == k && self.vaults[k].wf()
    }

    /// Why creating the configuration fails, if it does.
    pub open spec fn init_config_error(self, fee_bps: u16) -> Option<VaultError> {
        if self.config is Some {
            Some(VaultError::AlreadyInitialized)
        } else if fee_bps > 10000 {
            Some(VaultError::InvalidFeeRate)
        } else {
            None
        }
    }

    /// The state after the configuration is created by `caller`.
    pub open spec fn init_config_next(
        self,
        caller: Pubkey,
        settle_threshold: u64,
        fee_bps: u16,
    ) -> VaultState {
        VaultState {
            config: Some(ProtocolConfig { authority: caller, settle_threshold, fee_bps }),
            ..self
        }
    }

    /// Why registering a provider for `authority` fails, if it does.
    pub open spec fn register_error(self, authority: Pubkey) -> Option<VaultError> {
        if self.providers.contains_key(authority@) {
            Some(VaultError::DuplicateProvider)
        } else {
            None
        }
    }

    /// The state after `authority` is registered, paying out to `destination`.
    pub open spec fn register_next(self, authority: Pubkey, destination: Pubkey) -> VaultState {
        VaultState {
            providers: self.providers.insert(
                authority@,
                ProviderModel { authority, destination, reserved: zero_reserved() },
            ),
            ..self
        }
    }

    /// Why creating a vault fails, if it does.
    pub open spec fn create_error(self, owner: Pubkey, deposit_amount: u64) -> Option<VaultError> {
        if deposit_amount == 0 {
            Some(VaultError::ZeroDeposit)
        } else if self.vaults.contains_key(owner@) {
            Some(VaultError::DuplicateVault)
        } else {
            None
        }
    }

    /// The state after `owner`'s vault is created holding the deposit.
    pub open spec fn create_next(self, owner: Pubkey, deposit_amount: u64) -> VaultState {
        VaultState {
            vaults: self.vaults.insert(
                owner@,
                Vault { owner, balance: deposit_amount, nonce: 0 },
            ),
            ..self
        }
    }

    /// The first check of a settlement that fails, in the order in which they
    /// are made.
    pub open spec fn settle_error(
        self,
        caller: Pubkey,
        owner: Pubkey,
        provider: Pubkey,
        amount: u64,
        nonce: u64,
    ) -> Option<VaultError> {
        if self.config is None {
            Some(VaultError::ConfigNotInitialized)
        } else if !self.vaults.contains_key(owner@) {
            Some(VaultError::VaultNotFound)
        } else if !self.providers.contains_key(provider@) {
            Some(VaultError::ProviderNotFound)
        } else if caller@ != owner@ && caller@ != self.config->0.authority@ {
            Some(VaultError::Unauthorized)
        } else if self.paused {
            Some(VaultError::VaultPaused)
        } else if nonce != self.vaults[owner@].nonce {
            Some(VaultError::InvalidNonce)
        } else if amount == 0 || amount > self.vaults[owner@].balance {
            Some(VaultError::InsufficientBalance)
        } else {
            None
        }
    }

    /// The state after `amount` is settled from `owner`'s vault.
    pub open spec fn settle_next(self, owner: Pubkey, amount: u64) -> VaultState {
        let v = self.vaults[owner@];
        VaultState {
            vaults: self.vaults.insert(
                owner@,
                Vault { balance: (v.balance - amount) as u64, nonce: (v.nonce + 1) as u64, ..v },
            ),
            ..self
        }
    }

    /// The event of a successful settlement: the fee at the configured rate,
    /// the payout to the provider's destination, and the nonce consumed.
    pub open spec fn settle_event(
        self,
        owner: Pubkey,
        provider: Pubkey,
        amount: u64,
    ) -> BatchSettled {
        let fee = fee_of(amount, self.config->0.fee_bps);
        BatchSettled {
            owner,
            destination: self.providers[provider@].destination,
            amount,
            fee: fee as u64,
            payout: (amount - fee) as u64,
            nonce: self.vaults[owner@].nonce,
        }
    }

    /// The first check of a withdrawal that fails.
    pub open spec fn withdraw_error(self, caller: Pubkey, owner: Pubkey) -> Option<VaultError> {
        if !self.vaults.contains_key(owner@) {
            Some(VaultError::VaultNotFound)
        } else if caller@ != owner@ {
            Some(VaultError::Unauthorized)
        } else if self.paused {
            Some(VaultError::VaultPaused)
        } else if self.vaults[owner@].balance == 0 {
            Some(VaultError::NothingToWithdraw)
        } else {
            None
        }
    }

    /// The state after `owner`'s vault is emptied.
    pub open spec fn withdraw_next(self, owner: Pubkey) -> VaultState {
        let v = self.vaults[owner@];
        VaultState { vaults: self.vaults.insert(owner@, Vault { balance: 0, ..v }), ..self }
    }

    /// Why setting the pause switch fails, if it does.
    pub open spec fn pause_error(self, caller: Pubkey) -> Option<VaultError> {
        if self.config is None {
            Some(VaultError::ConfigNotInitialized)
        } else if caller@ != self.config->0.authority@ {
            Some(VaultError::Unauthorized)
        } else {
            None
        }
    }

    /// The state with the pause switch set to `paused`.
    pub open spec fn pause_next(self, paused: bool) -> VaultState {
        VaultState { paused, ..self }
    }
}

} // verus!

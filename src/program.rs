use vstd::prelude::*;

use crate::errors::VaultError;
use crate::events::{BatchSettled, PauseToggled, VaultCreated, Withdrawn};
use crate::fees::{split_fee, BPS_DENOMINATOR};
use crate::identity::Pubkey;
use crate::model::VaultState;
use crate::state::{ProtocolConfig, Provider, ProviderModel, Vault};

verus! {

/// The vault program: its configuration, pause switch and records. Each
/// operation either applies in full and returns the event that describes the
/// funds to move, or returns an error and changes nothing.
#[derive(Clone)]
pub struct FlowVault {
    config: Option<ProtocolConfig>,
    paused: bool,
    providers: Vec<Provider>,
    vaults: Vec<Vault>,
    provider_map: Ghost<Map<Seq<u8>, ProviderModel>>,
    vault_map: Ghost<Map<Seq<u8>, Vault>>,
}

impl View for FlowVault {
    type V = VaultState;

    closed spec fn view(&self) -> VaultState {
        VaultState {
            config: self.config,
            paused: self.paused,
            providers: self.provider_map@,
            vaults: self.vault_map@,
        }
    }
}

/// `Err(e)` where a check failed, else `Ok` of `v`.
pub open spec fn outcome<T>(error: Option<VaultError>, v: T) -> Result<T, VaultError> {
    match error {
        Some(e) => Err(e),
        None => Ok(v),
    }
}

/// Each key of `m` is the owner of some vault in `s`.
spec fn vault_keys_indexed(m: Map<Seq<u8>, Vault>, s: Seq<Vault>) -> bool {
    forall|k: Seq<u8>| #[trigger]
        m.contains_key(k) ==> exists|i: int| 0 <= i < s.len() && #[trigger] s[i].owner@ == k
}

/// Each key of `m` is the authority of some provider in `s`.
spec fn provider_keys_indexed(m: Map<Seq<u8>, ProviderModel>, s: Seq<Provider>) -> bool {
    forall|k: Seq<u8>| #[trigger]
        m.contains_key(k) ==> exists|i: int| 0 <= i < s.len() && #[trigger] s[i].authority@ == k
}

/// Keys stay indexed when the owners already stored keep their places and
/// the only new key, if any, is the owner of the last vault.
proof fn lemma_vault_keys_indexed(
    m0: Map<Seq<u8>, Vault>,
    s0: Seq<Vault>,
    m1: Map<Seq<u8>, Vault>,
    s1: Seq<Vault>,
)
    requires
        vault_keys_indexed(m0, s0),
        s0.len() <= s1.len(),
        forall|j: int| 0 <= j < s0.len() ==> #[trigger] s1[j].owner@ == s0[j].owner@,
        forall|k: Seq<u8>| #[trigger]
            m1.contains_key(k) ==> m0.contains_key(k) || (s1.len() > 0 && s1.last().owner@ == k),
    ensures
        vault_keys_indexed(m1, s1),
{
    assert forall|k: Seq<u8>| #[trigger] m1.contains_key(k) implies exists|i: int|
        0 <= i < s1.len() && #[trigger] s1[i].owner@ == k by {
        if m0.contains_key(k) {
            let j = choose|j: int| 0 <= j < s0.len() && #[trigger] s0[j].owner@ == k;
            assert(s1[j].owner@ == k);
        } else {
            assert(s1[s1.len() - 1].owner@ == k);
        }
    }
}

/// The provider counterpart of `lemma_vault_keys_indexed`.
proof fn lemma_provider_keys_indexed(
    m0: Map<Seq<u8>, ProviderModel>,
    s0: Seq<Provider>,
    m1: Map<Seq<u8>, ProviderModel>,
    s1: Seq<Provider>,
)
    requires
        provider_keys_indexed(m0, s0),
        s0.len() <= s1.len(),
        forall|j: int| 0 <= j < s0.len() ==> #[trigger] s1[j].authority@ == s0[j].authority@,
        forall|k: Seq<u8>| #[trigger]
            m1.contains_key(k) ==> m0.contains_key(k) || (s1.len() > 0 && s1.last().authority@
                == k),
    ensures
        provider_keys_indexed(m1, s1),
{
    assert forall|k: Seq<u8>| #[trigger] m1.contains_key(k) implies exists|i: int|
        0 <= i < s1.len() && #[trigger] s1[i].authority@ == k by {
        if m0.contains_key(k) {
            let j = choose|j: int| 0 <= j < s0.len() && #[trigger] s0[j].authority@ == k;
            assert(s1[j].authority@ == k);
        } else {
            assert(s1[s1.len() - 1].authority@ == k);
        }
    }
}

impl FlowVault {
    /// The records are stored once each, and the vectors hold exactly the
    /// model's records.
    pub closed spec fn wf(&self) -> bool {
        &&& self@.wf()
        &&& forall|i: int|
            0 <= i < self.vaults.len() ==> self.vault_map@.contains_key(
                #[trigger] self.vaults@[i].owner@,
            ) && self.vault_map@[self.vaults@[i].owner@] == self.vaults@[i]
        &&& vault_keys_indexed(self.vault_map@, self.vaults@)
        &&& forall|i: int, j: int|
            0 <= i < self.vaults.len() && 0 <= j < self.vaults.len()
                && #[trigger] self.vaults@[i].owner@ == #[trigger] self.vaults@[j].owner@
                ==> i == j
        &&& forall|i: int|
            0 <= i < self.providers.len() ==> self.provider_map@.contains_key(
                #[trigger] self.providers@[i].authority@,
            ) && self.provider_map@[self.providers@[i].authority@] == self.providers@[i]@
        &&& provider_keys_indexed(self.provider_map@, self.providers@)
        &&& forall|i: int, j: int|
            0 <= i < self.providers.len() && 0 <= j < self.providers.len()
                && #[trigger] self.providers@[i].authority@
                == #[trigger] self.providers@[j].authority@ ==> i == j
    }

    /// A well-formed program has a well-formed model: the fee rate is at most
    /// a whole, records sit under their own keys, and no vault's nonce can
    /// overflow.
    pub proof fn lemma_view_wf(&self)
        requires
            self.wf(),
        ensures
            self@.wf(),
    {
    }

    /// A program with no configuration, no records, and the switch off.
    pub fn new() -> (r: FlowVault)
        ensures
            r.wf(),
            r@.wf(),
            r@ == (VaultState {
                config: None,
                paused: false,
                providers: Map::empty(),
                vaults: Map::empty(),
            }),
    {
        FlowVault {
            config: None,
            paused: false,
            providers: Vec::new(),
            vaults: Vec::new(),
            provider_map: Ghost(Map::empty()),
            vault_map: Ghost(Map::empty()),
        }
    }

    fn find_vault(&self, owner: &Pubkey) -> (r: Option<usize>)
        requires
            self.wf(),
        ensures
            match r {
                Some(i) => i < self.vaults.len() && self.vaults@[i as int].owner@ == owner@
                    && self@.vaults.contains_key(owner@)
                    && self@.vaults[owner@] == self.vaults@[i as int],
                None => !self@.vaults.contains_key(owner@),
            },
    {
        let mut i: usize = 0;
        while i < self.vaults.len()
            invariant
                self.wf(),
                0 <= i <= self.vaults.len(),
                forall|j: int| 0 <= j < i ==> self.vaults@[j].owner@ != owner@,
            decreases self.vaults.len() - i,
        {
            if self.vaults[i].owner.same_as(owner) {
                return Some(i);
            }
            i = i + 1;
        }
        None
    }

    fn find_provider(&self, authority: &Pubkey) -> (r: Option<usize>)
        requires
            self.wf(),
        ensures
            match r {
                Some(i) => i < self.providers.len() && self.providers@[i as int].authority@
                    == authority@ && self@.providers.contains_key(authority@)
                    && self@.providers[authority@] == self.providers@[i as int]@,
                None => !self@.providers.contains_key(authority@),
            },
    {
        let mut i: usize = 0;
        while i < self.providers.len()
            invariant
                self.wf(),
                0 <= i <= self.providers.len(),
                forall|j: int| 0 <= j < i ==> self.providers@[j].authority@ != authority@,
            decreases self.providers.len() - i,
        {
            if self.providers[i].authority.same_as(authority) {
                return Some(i);
            }
            i = i + 1;
        }
        None
    }

    /// Settles `amount` from `owner`'s vault to the provider registered for
    /// `provider`. The caller must be the vault's owner or the configuration's
    /// authority; `nonce` must be the vault's current nonce. On success the balance falls
    /// by `amount`, the nonce advances by one, and the event carries the fee
    /// and the payout to the provider's destination.
    pub fn settle_batch(
        &mut self,
        caller: Pubkey,
        owner: Pubkey,
        provider: Pubkey,
        amount: u64,
        nonce: u64,
    ) -> (r: Result<BatchSettled, VaultError>)
        requires
            old(self).wf(),
        ensures
            final(self).wf(),
            final(self)@.wf(),
            r == outcome(
                old(self)@.settle_error(caller, owner, provider, amount, nonce),
                old(self)@.settle_event(owner, provider, amount),
            ),
            final(self)@ == (if r is Ok {
                old(self)@.settle_next(owner, amount)
            } else {
                old(self)@
            }),
    {
        let cfg = match self.config {
            None => return Err(VaultError::ConfigNotInitialized),
            Some(c) => c,
        };
        let vi = match self.find_vault(&owner) {
            None => return Err(VaultError::VaultNotFound),
            Some(i) => i,
        };
        let pi = match self.find_provider(&provider) {
            None => return Err(VaultError::ProviderNotFound),
            Some(i) => i,
        };
        if !caller.same_as(&owner) && !caller.same_as(&cfg.authority) {
            return Err(VaultError::Unauthorized);
        }
        if self.paused {
            return Err(VaultError::VaultPaused);
        }
        let v = self.vaults[vi];
        if nonce != v.nonce {
            return Err(VaultError::InvalidNonce);
        }
        if amount == 0 || amount > v.balance {
            return Err(VaultError::InsufficientBalance);
        }
        let (fee, payout) = split_fee(amount, cfg.fee_bps);
        let destination = self.providers[pi].destination;
        let next = Vault { balance: v.balance - amount, nonce: v.nonce + 1, ..v };
        self.set_vault(vi, next);
        proof {
            assert(self@.vaults =~= old(self)@.settle_next(owner, amount).vaults);
        }
        Ok(BatchSettled { owner, destination, amount, fee, payout, nonce: v.nonce })
    }

    /// Opens a vault for `owner` holding `deposit_amount`, with nonce zero.
    /// The event names the deposit to move from the owner into custody.
    pub fn create_vault(&mut self, owner: Pubkey, deposit_amount: u64) -> (r: Result<
        VaultCreated,
        VaultError,
    >)
        requires
            old(self).wf(),
        ensures
            final(self).wf(),
            final(self)@.wf(),
            r == outcome(
                old(self)@.create_error(owner, deposit_amount),
                VaultCreated { owner, amount: deposit_amount },
            ),
            final(self)@ == (if r is Ok {
                old(self)@.create_next(owner, deposit_amount)
            } else {
                old(self)@
            }),
    {
        if deposit_amount == 0 {
            return Err(VaultError::ZeroDeposit);
        }
        if self.find_vault(&owner).is_some() {
            return Err(VaultError::DuplicateVault);
        }
        let v = Vault { owner, balance: deposit_amount, nonce: 0 };
        self.vaults.push(v);
        proof {
            let n = old(self).vaults.len() as int;
            self.vault_map = Ghost(self.vault_map@.insert(owner@, v));
            lemma_vault_keys_indexed(
                old(self).vault_map@,
                old(self).vaults@,
                self.vault_map@,
                self.vaults@,
            );
            assert forall|j: int| 0 <= j < self.vaults.len() implies self.vault_map@.contains_key(
                #[trigger] self.vaults@[j].owner@,
            ) && self.vault_map@[self.vaults@[j].owner@] == self.vaults@[j] by {
                if j != n {
                    assert(old(self).vaults@[j] == self.vaults@[j]);
                    assert(old(self).vault_map@.contains_key(old(self).vaults@[j].owner@));
                }
            }
            assert forall|a: int, b: int|
                0 <= a < self.vaults.len() && 0 <= b < self.vaults.len()
                    && #[trigger] self.vaults@[a].owner@ == #[trigger] self.vaults@[b].owner@
                    implies a == b by {
                if a != n {
                    assert(old(self).vault_map@.contains_key(old(self).vaults@[a].owner@));
                }
                if b != n {
                    assert(old(self).vault_map@.contains_key(old(self).vaults@[b].owner@));
                }
            }
            assert(self@.vaults =~= old(self)@.create_next(owner, deposit_amount).vaults);
        }
        Ok(VaultCreated { owner, amount: deposit_amount })
    }

    /// Records `authority` as a provider paying out to `destination`, with
    /// zeroed padding.
    pub fn register_provider(&mut self, authority: Pubkey, destination: Pubkey) -> (r: Result<
        (),
        VaultError,
    >)
        requires
            old(self).wf(),
        ensures
            final(self).wf(),
            final(self)@.wf(),
            r == outcome(old(self)@.register_error(authority), ()),
            final(self)@ == (if r is Ok {
                old(self)@.register_next(authority, destination)
            } else {
                old(self)@
            }),
    {
        if self.find_provider(&authority).is_some() {
            return Err(VaultError::DuplicateProvider);
        }
        let p = Provider::new(authority, destination);
        self.providers.push(p);
        proof {
            let n = old(self).providers.len() as int;
            self.provider_map = Ghost(self.provider_map@.insert(authority@, p@));
            lemma_provider_keys_indexed(
                old(self).provider_map@,
                old(self).providers@,
                self.provider_map@,
                self.providers@,
            );
            assert forall|j: int|
                0 <= j < self.providers.len() implies self.provider_map@.contains_key(
                #[trigger] self.providers@[j].authority@,
            ) && self.provider_map@[self.providers@[j].authority@] == self.providers@[j]@ by {
                if j != n {
                    assert(old(self).providers@[j] == self.providers@[j]);
                    assert(old(self).provider_map@.contains_key(
                        old(self).providers@[j].authority@,
                    ));
                }
            }
            assert forall|a: int, b: int|
                0 <= a < self.providers.len() && 0 <= b < self.providers.len()
                    && #[trigger] self.providers@[a].authority@
                    == #[trigger] self.providers@[b].authority@ implies a == b by {
                if a != n {
                    assert(old(self).provider_map@.contains_key(
                        old(self).providers@[a].authority@,
                    ));
                }
                if b != n {
                    assert(old(self).provider_map@.contains_key(
                        old(self).providers@[b].authority@,
                    ));
                }
            }
            assert(self@.providers =~= old(self)@.register_next(authority, destination).providers);
        }
        Ok(())
    }

    /// Pays the whole balance of `owner`'s vault back to its owner, who must
    /// be the caller. The balance becomes zero; the nonce is kept.
    pub fn withdraw(&mut self, caller: Pubkey, owner: Pubkey) -> (r: Result<Withdrawn, VaultError>)
        requires
            old(self).wf(),
        ensures
            final(self).wf(),
            final(self)@.wf(),
            r == outcome(
                old(self)@.withdraw_error(caller, owner),
                Withdrawn { owner, amount: old(self)@.vaults[owner@].balance },
            ),
            final(self)@ == (if r is Ok {
                old(self)@.withdraw_next(owner)
            } else {
                old(self)@
            }),
    {
        let vi = match self.find_vault(&owner) {
            None => return Err(VaultError::VaultNotFound),
            Some(i) => i,
        };
        if !caller.same_as(&owner) {
            return Err(VaultError::Unauthorized);
        }
        if self.paused {
            return Err(VaultError::VaultPaused);
        }
        let v = self.vaults[vi];
        if v.balance == 0 {
            return Err(VaultError::NothingToWithdraw);
        }
        let next = Vault { balance: 0, ..v };
        self.set_vault(vi, next);
        proof {
            assert(self@.vaults =~= old(self)@.withdraw_next(owner).vaults);
        }
        Ok(Withdrawn { owner, amount: v.balance })
    }

    /// Creates the configuration, with the caller as its authority.
    pub fn initialize_config(&mut self, caller: Pubkey, settle_threshold: u64, fee_bps: u16) -> (r:
        Result<(), VaultError>)
        requires
            old(self).wf(),
        ensures
            final(self).wf(),
            final(self)@.wf(),
            r == outcome(old(self)@.init_config_error(fee_bps), ()),
            final(self)@ == (if r is Ok {
                old(self)@.init_config_next(caller, settle_threshold, fee_bps)
            } else {
                old(self)@
            }),
    {
        if self.config.is_some() {
            return Err(VaultError::AlreadyInitialized);
        }
        if fee_bps > BPS_DENOMINATOR {
            return Err(VaultError::InvalidFeeRate);
        }
        self.config = Some(ProtocolConfig { authority: caller, settle_threshold, fee_bps });
        proof {
            Self::lemma_records_kept(old(self), self);
        }
        Ok(())
    }

    /// Sets the pause switch, which stops settlement and withdrawal for every
    /// vault while it is on. Only the configuration's authority may set it;
    /// setting it to the value it has is a success.
    pub fn emergency_pause(&mut self, caller: Pubkey, paused: bool) -> (r: Result<
        PauseToggled,
        VaultError,
    >)
        requires
            old(self).wf(),
        ensures
            final(self).wf(),
            final(self)@.wf(),
            r == outcome(old(self)@.pause_error(caller), PauseToggled { paused }),
            final(self)@ == (if r is Ok {
                old(self)@.pause_next(paused)
            } else {
                old(self)@
            }),
    {
        let authority = match self.config {
            None => return Err(VaultError::ConfigNotInitialized),
            Some(c) => c.authority,
        };
        if !caller.same_as(&authority) {
            return Err(VaultError::Unauthorized);
        }
        self.paused = paused;
        proof {
            Self::lemma_records_kept(old(self), self);
        }
        Ok(PauseToggled { paused })
    }

    /// The configuration, once created.
    pub fn config(&self) -> (r: Option<ProtocolConfig>)
        ensures
            r == self@.config,
    {
        self.config
    }

    /// Whether settlement and withdrawal are paused.
    pub fn is_paused(&self) -> (r: bool)
        ensures
            r == self@.paused,
    {
        self.paused
    }

    /// The vault of `owner`, if one was created.
    pub fn vault(&self, owner: &Pubkey) -> (r: Option<Vault>)
        requires
            self.wf(),
        ensures
            r == (if self@.vaults.contains_key(owner@) {
                Some(self@.vaults[owner@])
            } else {
                None
            }),
    {
        match self.find_vault(owner) {
            Some(i) => Some(self.vaults[i]),
            None => None,
        }
    }

    /// The provider registered for `authority`, if any.
    pub fn provider(&self, authority: &Pubkey) -> (r: Option<Provider>)
        requires
            self.wf(),
        ensures
            self@.providers.contains_key(authority@) == r is Some,
            r matches Some(p) ==> p@ == self@.providers[authority@],
    {
        match self.find_provider(authority) {
            Some(i) => Some(self.providers[i]),
            None => None,
        }
    }

    /// A change that leaves the records alone keeps them well formed.
    proof fn lemma_records_kept(pre: &FlowVault, post: &FlowVault)
        requires
            pre.wf(),
            post@.wf(),
            post.vaults@ == pre.vaults@,
            post.providers@ == pre.providers@,
            post.vault_map@ == pre.vault_map@,
            post.provider_map@ == pre.provider_map@,
        ensures
            post.wf(),
    {
    }

    /// Replaces the record at `i` by one for the same owner.
    fn set_vault(&mut self, i: usize, v: Vault)
        requires
            old(self).wf(),
            i < old(self).vaults.len(),
            v.owner@ == old(self).vaults@[i as int].owner@,
            v.wf(),
        ensures
            final(self).wf(),
            final(self)@ == (VaultState {
                vaults: old(self)@.vaults.insert(v.owner@, v),
                ..old(self)@
            }),
            final(self).vaults.len() == old(self).vaults.len(),
    {
        self.vaults.set(i, v);
        proof {
            self.vault_map = Ghost(self.vault_map@.insert(v.owner@, v));
            lemma_vault_keys_indexed(
                old(self).vault_map@,
                old(self).vaults@,
                self.vault_map@,
                self.vaults@,
            );
            assert forall|j: int| 0 <= j < self.vaults.len() implies self.vault_map@.contains_key(
                #[trigger] self.vaults@[j].owner@,
            ) && self.vault_map@[self.vaults@[j].owner@] == self.vaults@[j] by {
                if j != i {
                    assert(old(self).vaults@[j].owner@ != old(self).vaults@[i as int].owner@);
                }
            }
            assert forall|a: int, b: int|
                0 <= a < self.vaults.len() && 0 <= b < self.vaults.len()
                    && #[trigger] self.vaults@[a].owner@ == #[trigger] self.vaults@[b].owner@
                    implies a == b by {
                assert(old(self).vaults@[a].owner@ == self.vaults@[a].owner@);
                assert(old(self).vaults@[b].owner@ == self.vaults@[b].owner@);
            }
            assert(self@.wf());
        }
    }
}

} // verus!

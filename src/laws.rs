use vstd::prelude::*;

use crate::errors::VaultError;
use crate::fees::fee_of;
use crate::identity::Pubkey;
use crate::model::VaultState;
use crate::state::Vault;

verus! {

/// A successful operation keeps the state well formed.
pub proof fn lemma_operations_keep_wf(
    s: VaultState,
    caller: Pubkey,
    owner: Pubkey,
    provider: Pubkey,
    amount: u64,
    nonce: u64,
    destination: Pubkey,
    settle_threshold: u64,
    fee_bps: u16,
    paused: bool,
)
    requires
        s.wf(),
    ensures
        s.init_config_error(fee_bps) is None ==> s.init_config_next(
            caller,
            settle_threshold,
            fee_bps,
        ).wf(),
        s.register_error(caller) is None ==> s.register_next(caller, destination).wf(),
        s.create_error(owner, amount) is None ==> s.create_next(owner, amount).wf(),
        s.settle_error(caller, owner, provider, amount, nonce) is None ==> s.settle_next(
            owner,
            amount,
        ).wf(),
        s.withdraw_error(caller, owner) is None ==> s.withdraw_next(owner).wf(),
        s.pause_error(caller) is None ==> s.pause_next(paused).wf(),
{
}

/// A vault created with a positive deposit holds exactly that deposit at
/// nonce zero, and any later creation for the same owner fails.
pub proof fn lemma_create_vault(s: VaultState, owner: Pubkey, deposit_amount: u64, again: u64)
    requires
        s.wf(),
        deposit_amount > 0,
        !s.vaults.contains_key(owner@),
    ensures
        s.create_error(owner, deposit_amount) is None,
        s.create_next(owner, deposit_amount).vaults[owner@] == (Vault {
            owner,
            balance: deposit_amount,
            nonce: 0,
        }),
        s.create_next(owner, deposit_amount).create_error(owner, again) is Some,
        again > 0 ==> s.create_next(owner, deposit_amount).create_error(owner, again) == Some(
            VaultError::DuplicateVault,
        ),
{
}

/// Applies the settlements `steps` (each an amount and the nonce submitted
/// with it) in order; `None` as soon as one of them fails.
pub open spec fn settle_run(
    s: VaultState,
    caller: Pubkey,
    owner: Pubkey,
    provider: Pubkey,
    steps: Seq<(u64, u64)>,
) -> Option<VaultState>
    decreases steps.len(),
{
    if steps.len() == 0 {
        Some(s)
    } else {
        match settle_run(s, caller, owner, provider, steps.drop_last()) {
            None => None,
            Some(t) => {
                let (amount, nonce) = steps.last();
                if t.settle_error(caller, owner, provider, amount, nonce) is None {
                    Some(t.settle_next(owner, amount))
                } else {
                    None
                }
            },
        }
    }
}

/// After a run of successful settlements the vault's nonce has advanced by
/// the number of settlements, and the i-th of them carried the starting nonce
/// plus i.
pub proof fn lemma_settle_run_nonces(
    s: VaultState,
    caller: Pubkey,
    owner: Pubkey,
    provider: Pubkey,
    steps: Seq<(u64, u64)>,
)
    requires
        s.wf(),
        s.vaults.contains_key(owner@),
        settle_run(s, caller, owner, provider, steps) is Some,
    ensures
        ({
            let t = settle_run(s, caller, owner, provider, steps)->0;
            &&& t.wf()
            &&& t.vaults.contains_key(owner@)
            &&& t.vaults[owner@].nonce == s.vaults[owner@].nonce + steps.len()
        }),
        forall|i: int| 0 <= i < steps.len() ==> #[trigger] steps[i].1 == s.vaults[owner@].nonce + i,
    decreases steps.len(),
{
    if steps.len() > 0 {
        let prefix = steps.drop_last();
        lemma_settle_run_nonces(s, caller, owner, provider, prefix);
        let t = settle_run(s, caller, owner, provider, prefix)->0;
        let (amount, nonce) = steps.last();
        lemma_operations_keep_wf(
            t,
            caller,
            owner,
            provider,
            amount,
            nonce,
            owner,
            0,
            0,
            false,
        );
        assert forall|i: int| 0 <= i < steps.len() implies #[trigger] steps[i].1
            == s.vaults[owner@].nonce + i by {
            if i < steps.len() - 1 {
                assert(steps[i] == prefix[i]);
            }
        }
    }
}

/// A successful settlement advances the nonce by exactly one and lowers the
/// balance by exactly the amount; nothing else about the vault changes.
pub proof fn lemma_settle_step(
    s: VaultState,
    caller: Pubkey,
    owner: Pubkey,
    provider: Pubkey,
    amount: u64,
    nonce: u64,
)
    requires
        s.wf(),
        s.settle_error(caller, owner, provider, amount, nonce) is None,
    ensures
        ({
            let v = s.vaults[owner@];
            let w = s.settle_next(owner, amount).vaults[owner@];
            &&& w.nonce == v.nonce + 1
            &&& w.nonce == nonce + 1
            &&& w.balance == v.balance - amount
            &&& w.owner == v.owner
            &&& s.settle_next(owner, amount).vaults.remove(owner@) == s.vaults.remove(owner@)
        }),
{
    assert(s.settle_next(owner, amount).vaults.remove(owner@) =~= s.vaults.remove(owner@));
}

/// A nonce other than the vault's current one is always refused.
pub proof fn lemma_wrong_nonce_fails(
    s: VaultState,
    caller: Pubkey,
    owner: Pubkey,
    provider: Pubkey,
    amount: u64,
    nonce: u64,
)
    requires
        s.vaults.contains_key(owner@),
        nonce != s.vaults[owner@].nonce,
    ensures
        s.settle_error(caller, owner, provider, amount, nonce) is Some,
{
}

/// At a rate of at most a whole, the fee is at most the amount, fee and payout
/// add up to the amount, and the fee is the exact share rounded down.
pub proof fn lemma_fee_split(s: VaultState, caller: Pubkey, owner: Pubkey, provider: Pubkey, amount: u64, nonce: u64)
    requires
        s.wf(),
        s.settle_error(caller, owner, provider, amount, nonce) is None,
    ensures
        ({
            let ev = s.settle_event(owner, provider, amount);
            &&& ev.fee <= ev.amount
            &&& ev.fee + ev.payout == ev.amount
            &&& ev.fee * 10000 <= ev.amount * s.config->0.fee_bps
            &&& ev.amount * s.config->0.fee_bps < (ev.fee + 1) * 10000
        }),
{
    let bps = s.config->0.fee_bps;
    assert(amount as nat * bps as nat <= amount as nat * 10000) by (nonlinear_arith)
        requires bps <= 10000;
    assert(fee_of(amount, bps) <= amount);
}

/// Settling more than the balance fails with `InsufficientBalance` once every
/// earlier check has passed.
pub proof fn lemma_overdraw_fails(
    s: VaultState,
    caller: Pubkey,
    owner: Pubkey,
    provider: Pubkey,
    amount: u64,
)
    requires
        s.config is Some,
        s.vaults.contains_key(owner@),
        s.providers.contains_key(provider@),
        caller@ == owner@ || caller@ == s.config->0.authority@,
        !s.paused,
        amount > s.vaults[owner@].balance,
    ensures
        s.settle_error(caller, owner, provider, amount, s.vaults[owner@].nonce) == Some(
            VaultError::InsufficientBalance,
        ),
{
}

/// Once the switch is on, settlement and withdrawal of an existing vault by
/// an allowed caller fail with `VaultPaused`; turning it off again gives back
/// the state and outcomes from before.
pub proof fn lemma_pause_round_trip(
    s: VaultState,
    authority: Pubkey,
    caller: Pubkey,
    owner: Pubkey,
    provider: Pubkey,
    amount: u64,
    nonce: u64,
)
    requires
        s.wf(),
        !s.paused,
        s.pause_error(authority) is None,
        s.vaults.contains_key(owner@),
        s.providers.contains_key(provider@),
        caller@ == owner@ || caller@ == s.config->0.authority@,
    ensures
        ({
            let p = s.pause_next(true);
            &&& p.settle_error(caller, owner, provider, amount, nonce) == Some(
                VaultError::VaultPaused,
            )
            &&& p.withdraw_error(owner, owner) == Some(VaultError::VaultPaused)
            &&& p.pause_error(authority) is None
            &&& p.pause_next(false) == s
            &&& p.pause_next(false).settle_error(caller, owner, provider, amount, nonce)
                == s.settle_error(caller, owner, provider, amount, nonce)
            &&& p.pause_next(false).withdraw_error(owner, owner) == s.withdraw_error(owner, owner)
        }),
{
}

} // verus!

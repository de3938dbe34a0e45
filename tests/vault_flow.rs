use flow_vault::errors::VaultError;
use flow_vault::fees::split_fee;
use flow_vault::identity::Pubkey;
use flow_vault::instructions::register_provider::{handler, RegisterProvider};
use flow_vault::program::FlowVault;
use flow_vault::state::Provider;

fn key(b: u8) -> Pubkey {
    Pubkey::new([b; 32])
}

/// A program with a configuration at `fee_bps`, authority 1, and provider 2
/// paying out to 3.
fn configured(fee_bps: u16) -> FlowVault {
    let mut p = FlowVault::new();
    assert_eq!(p.initialize_config(key(1), 0, fee_bps), Ok(()));
    assert_eq!(p.register_provider(key(2), key(3)), Ok(()));
    p
}

#[test]
fn end_to_end_settle_then_withdraw() {
    let mut p = configured(250);
    let owner = key(9);
    let created = p.create_vault(owner, 1000).unwrap();
    assert_eq!(created.amount, 1000);
    assert_eq!(created.owner.bytes, owner.bytes);

    let ev = p.settle_batch(owner, owner, key(2), 400, 0).unwrap();
    assert_eq!(ev.fee, 10);
    assert_eq!(ev.payout, 390);
    assert_eq!(ev.amount, 400);
    assert_eq!(ev.nonce, 0);
    assert_eq!(ev.destination.bytes, key(3).bytes);
    let v = p.vault(&owner).unwrap();
    assert_eq!(v.balance, 600);
    assert_eq!(v.nonce, 1);

    assert_eq!(
        p.settle_batch(owner, owner, key(2), 400, 0).unwrap_err(),
        VaultError::InvalidNonce
    );
    assert_eq!(p.vault(&owner).unwrap().balance, 600);
    assert_eq!(p.vault(&owner).unwrap().nonce, 1);

    let w = p.withdraw(owner, owner).unwrap();
    assert_eq!(w.amount, 600);
    assert_eq!(w.owner.bytes, owner.bytes);
    assert_eq!(p.vault(&owner).unwrap().balance, 0);
    assert_eq!(p.withdraw(owner, owner).unwrap_err(), VaultError::NothingToWithdraw);
}

#[test]
fn full_fee_rate_takes_whole_amount() {
    assert_eq!(split_fee(100, 10000), (100, 0));
    let mut p = configured(10000);
    p.create_vault(key(9), 100).unwrap();
    let ev = p.settle_batch(key(9), key(9), key(2), 100, 0).unwrap();
    assert_eq!((ev.fee, ev.payout), (100, 0));
}

#[test]
fn fee_rate_above_whole_is_refused() {
    let mut p = FlowVault::new();
    assert_eq!(p.initialize_config(key(1), 0, 10001), Err(VaultError::InvalidFeeRate));
    assert!(p.config().is_none());
    assert_eq!(p.initialize_config(key(1), 5, 10000), Ok(()));
    assert_eq!(p.config().unwrap().fee_bps, 10000);
}

#[test]
fn fee_split_values() {
    assert_eq!(split_fee(400, 250), (10, 390));
    assert_eq!(split_fee(0, 250), (0, 0));
    assert_eq!(split_fee(999, 1), (0, 999));
    assert_eq!(split_fee(10000, 1), (1, 9999));
    assert_eq!(split_fee(123, 0), (0, 123));
    assert_eq!(split_fee(u64::MAX, 10000), (u64::MAX, 0));
    assert_eq!(split_fee(u64::MAX, 5000), (u64::MAX / 2, u64::MAX - u64::MAX / 2));
}

#[test]
fn config_created_once() {
    let mut p = FlowVault::new();
    assert_eq!(p.initialize_config(key(1), 7, 250), Ok(()));
    let c = p.config().unwrap();
    assert_eq!(c.authority.bytes, key(1).bytes);
    assert_eq!(c.settle_threshold, 7);
    assert_eq!(c.fee_bps, 250);
    assert_eq!(p.initialize_config(key(4), 8, 100), Err(VaultError::AlreadyInitialized));
    assert_eq!(p.config().unwrap().authority.bytes, key(1).bytes);
    assert_eq!(p.config().unwrap().fee_bps, 250);
}

#[test]
fn create_vault_sets_fresh_record() {
    let mut p = FlowVault::new();
    assert_eq!(p.create_vault(key(9), 0).unwrap_err(), VaultError::ZeroDeposit);
    assert!(p.vault(&key(9)).is_none());
    p.create_vault(key(9), u64::MAX).unwrap();
    let v = p.vault(&key(9)).unwrap();
    assert_eq!((v.balance, v.nonce), (u64::MAX, 0));
    assert!(!p.is_paused());
    assert_eq!(p.create_vault(key(9), 5).unwrap_err(), VaultError::DuplicateVault);
    assert_eq!(p.vault(&key(9)).unwrap().balance, u64::MAX);
    p.create_vault(key(8), 5).unwrap();
    assert_eq!(p.vault(&key(8)).unwrap().balance, 5);
    assert_eq!(p.vault(&key(9)).unwrap().balance, u64::MAX);
}

#[test]
fn nonces_advance_in_order() {
    let mut p = configured(0);
    p.create_vault(key(9), 10).unwrap();
    for n in 0..5u64 {
        assert_eq!(
            p.settle_batch(key(9), key(9), key(2), 1, n + 1).unwrap_err(),
            VaultError::InvalidNonce
        );
        let ev = p.settle_batch(key(9), key(9), key(2), 1, n).unwrap();
        assert_eq!(ev.nonce, n);
        assert_eq!((ev.fee, ev.payout), (0, 1));
    }
    let v = p.vault(&key(9)).unwrap();
    assert_eq!((v.balance, v.nonce), (5, 5));
    assert_eq!(
        p.settle_batch(key(9), key(9), key(2), 1, 3).unwrap_err(),
        VaultError::InvalidNonce
    );
    assert_eq!(p.vault(&key(9)).unwrap().nonce, 5);
}

#[test]
fn overdraw_is_refused() {
    let mut p = configured(250);
    p.create_vault(key(9), 50).unwrap();
    assert_eq!(
        p.settle_batch(key(9), key(9), key(2), 51, 0).unwrap_err(),
        VaultError::InsufficientBalance
    );
    assert_eq!(
        p.settle_batch(key(9), key(9), key(2), 0, 0).unwrap_err(),
        VaultError::InsufficientBalance
    );
    let v = p.vault(&key(9)).unwrap();
    assert_eq!((v.balance, v.nonce), (50, 0));
    let ev = p.settle_batch(key(9), key(9), key(2), 50, 0).unwrap();
    assert_eq!((ev.fee, ev.payout), (1, 49));
    assert_eq!(p.vault(&key(9)).unwrap().balance, 0);
}

#[test]
fn pause_blocks_and_unpause_restores() {
    let mut p = configured(250);
    p.create_vault(key(9), 100).unwrap();
    assert!(p.emergency_pause(key(1), true).unwrap().paused);
    assert!(p.is_paused());
    assert_eq!(
        p.settle_batch(key(9), key(9), key(2), 10, 0).unwrap_err(),
        VaultError::VaultPaused
    );
    assert_eq!(p.withdraw(key(9), key(9)).unwrap_err(), VaultError::VaultPaused);
    assert_eq!(p.vault(&key(9)).unwrap().balance, 100);
    // creation and registration go on while paused
    p.create_vault(key(8), 1).unwrap();
    assert_eq!(p.register_provider(key(5), key(6)), Ok(()));
    // setting the same value again succeeds
    assert!(p.emergency_pause(key(1), true).unwrap().paused);
    assert!(!p.emergency_pause(key(1), false).unwrap().paused);
    assert!(!p.is_paused());
    let ev = p.settle_batch(key(9), key(9), key(2), 10, 0).unwrap();
    assert_eq!(ev.payout, 10);
    assert_eq!(p.withdraw(key(9), key(9)).unwrap().amount, 90);
}

#[test]
fn pause_needs_config_authority() {
    let mut p = FlowVault::new();
    assert_eq!(p.emergency_pause(key(1), true).unwrap_err(), VaultError::ConfigNotInitialized);
    assert_eq!(p.initialize_config(key(1), 0, 0), Ok(()));
    assert_eq!(p.emergency_pause(key(7), true).unwrap_err(), VaultError::Unauthorized);
    assert!(!p.is_paused());
}

#[test]
fn settlement_checks_records_and_caller() {
    let mut p = FlowVault::new();
    assert_eq!(
        p.settle_batch(key(9), key(9), key(2), 1, 0).unwrap_err(),
        VaultError::ConfigNotInitialized
    );
    p.initialize_config(key(1), 0, 250).unwrap();
    assert_eq!(
        p.settle_batch(key(9), key(9), key(2), 1, 0).unwrap_err(),
        VaultError::VaultNotFound
    );
    p.create_vault(key(9), 10).unwrap();
    assert_eq!(
        p.settle_batch(key(9), key(9), key(2), 1, 0).unwrap_err(),
        VaultError::ProviderNotFound
    );
    p.register_provider(key(2), key(3)).unwrap();
    assert_eq!(
        p.settle_batch(key(7), key(9), key(2), 1, 0).unwrap_err(),
        VaultError::Unauthorized
    );
    assert_eq!(p.vault(&key(9)).unwrap().balance, 10);
    // the provider's own key may not settle someone else's vault
    assert_eq!(
        p.settle_batch(key(2), key(9), key(2), 4, 0).unwrap_err(),
        VaultError::Unauthorized
    );
    assert_eq!(p.vault(&key(9)).unwrap().balance, 10);
    // the configuration's authority may settle
    assert_eq!(p.settle_batch(key(1), key(9), key(2), 4, 0).unwrap().amount, 4);
    assert_eq!(p.vault(&key(9)).unwrap().balance, 6);
    assert_eq!(p.vault(&key(9)).unwrap().nonce, 1);
}

#[test]
fn withdraw_checks_owner() {
    let mut p = FlowVault::new();
    assert_eq!(p.withdraw(key(9), key(9)).unwrap_err(), VaultError::VaultNotFound);
    p.create_vault(key(9), 10).unwrap();
    assert_eq!(p.withdraw(key(8), key(9)).unwrap_err(), VaultError::Unauthorized);
    assert_eq!(p.vault(&key(9)).unwrap().balance, 10);
    assert_eq!(p.withdraw(key(9), key(9)).unwrap().amount, 10);
    assert_eq!(p.vault(&key(9)).unwrap().nonce, 0);
}

#[test]
fn provider_registered_once() {
    let mut p = FlowVault::new();
    let accounts = RegisterProvider { authority: key(2), destination: key(3) };
    assert_eq!(handler(&mut p, accounts), Ok(()));
    let pr = p.provider(&key(2)).unwrap();
    assert_eq!(pr.authority.bytes, key(2).bytes);
    assert_eq!(pr.destination.bytes, key(3).bytes);
    assert!(pr.reserved.iter().all(|b| *b == 0));
    let again = RegisterProvider { authority: key(2), destination: key(4) };
    assert_eq!(handler(&mut p, again), Err(VaultError::DuplicateProvider));
    assert_eq!(p.provider(&key(2)).unwrap().destination.bytes, key(3).bytes);
    assert!(p.provider(&key(4)).is_none());
}

#[test]
fn provider_default_and_size() {
    let d = Provider::default();
    assert_eq!(d.authority.bytes, [0u8; 32]);
    assert_eq!(d.destination.bytes, [0u8; 32]);
    assert_eq!(d.reserved, [0u8; 128]);
    assert_eq!(Provider::LEN, 200);
}

#[test]
fn keys_compare_by_bytes() {
    let mut b = [5u8; 32];
    assert!(Pubkey::new(b).same_as(&key(5)));
    b[31] = 6;
    assert!(!Pubkey::new(b).same_as(&key(5)));
    assert!(Pubkey::zero().same_as(&key(0)));
}

#[test]
fn stranger_cannot_drain_a_vault() {
    let mut p = configured(250);
    let victim = key(9);
    let stranger = key(6);
    p.create_vault(victim, 1000).unwrap();
    assert_eq!(p.register_provider(stranger, stranger), Ok(()));
    assert_eq!(
        p.settle_batch(stranger, victim, stranger, 1000, 0).unwrap_err(),
        VaultError::Unauthorized
    );
    assert_eq!(p.withdraw(stranger, victim).unwrap_err(), VaultError::Unauthorized);
    let v = p.vault(&victim).unwrap();
    assert_eq!((v.balance, v.nonce), (1000, 0));
}

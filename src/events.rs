use vstd::prelude::*;

use crate::identity::Pubkey;

verus! {

/// A vault was opened: `amount` moves from `owner` into custody.
#[derive(Clone, Copy, Debug)]
pub struct VaultCreated {
    pub owner: Pubkey,
    pub amount: u64,
}

/// A batch was settled from `owner`'s vault: `payout` goes to `destination`
/// and `fee` to the protocol; `nonce` is the one the settlement consumed.
#[derive(Clone, Copy, Debug)]
pub struct BatchSettled {
    pub owner: Pubkey,
    pub destination: Pubkey,
    pub amount: u64,
    pub fee: u64,
    pub payout: u64,
    pub nonce: u64,
}

/// `amount` left `owner`'s vault back to `owner`.
#[derive(Clone, Copy, Debug)]
pub struct Withdrawn {
    pub owner: Pubkey,
    pub amount: u64,
}

/// The pause switch was set to `paused`.
#[derive(Clone, Copy, Debug)]
pub struct PauseToggled {
    pub paused: bool,
}

} // verus!

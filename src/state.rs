use vstd::prelude::*;

use crate::identity::Pubkey;

verus! {

/// Bytes of reserved padding at the end of a provider record.
pub const RESERVED_LEN: usize = 128;

/// The process-wide settings, created once by its authority.
#[derive(Clone, Copy, Debug)]
pub struct ProtocolConfig {
    /// The identity that may pause and unpause the program.
    pub authority: Pubkey,
    /// Kept for a settlement policy; no operation enforces it.
    pub settle_threshold: u64,
    /// The protocol fee on each settlement, in basis points.
    pub fee_bps: u16,
}

/// What a provider record holds, as plain values.
pub struct ProviderModel {
    pub authority: Pubkey,
    pub destination: Pubkey,
    pub reserved: Seq<u8>,
}

/// A registered payee: its authority and the account that receives its
/// settlements.
#[derive(Clone, Copy, Debug)]
pub struct Provider {
    pub authority: Pubkey,
    pub destination: Pubkey,
    pub reserved: [u8; 128],
}

/// Reserved padding that holds only zeros.
pub open spec fn zero_reserved() -> Seq<u8> {
    Seq::new(128, |i: int| 0u8)
}

impl View for Provider {
    type V = ProviderModel;

    open spec fn view(&self) -> ProviderModel {
        ProviderModel {
            authority: self.authority,
            destination: self.destination,
            reserved: self.reserved@,
        }
    }
}

impl Provider {
    /// Size of a stored provider record: an 8-byte tag, two keys and the
    /// reserved padding.
    pub const LEN: usize = 8 + 32 + 32 + 128;

    /// A provider record for `authority` paying out to `destination`, with
    /// zeroed padding.
    pub fn new(authority: Pubkey, destination: Pubkey) -> (r: Provider)
        ensures
            r.authority == authority,
            r.destination == destination,
            r.reserved@ == zero_reserved(),
    {
        let r = Provider { authority, destination, reserved: [0u8; 128] };
        assert(r.reserved@ =~= zero_reserved());
        r
    }
}

impl Default for Provider {
    fn default() -> (r: Provider)
        ensures
            r.authority@ == Seq::new(32, |i: int| 0u8),
            r.destination@ == Seq::new(32, |i: int| 0u8),
            r.reserved@ == zero_reserved(),
    {
        Provider::new(Pubkey::zero(), Pubkey::zero())
    }
}

/// One depositor's custodial balance and settlement counter.
#[derive(Clone, Copy, Debug)]
pub struct Vault {
    pub owner: Pubkey,
    pub balance: u64,
    /// The nonce that the next settlement must carry.
    pub nonce: u64,
}

impl Vault {
    /// Every settlement takes at least one unit from the balance, so the
    /// nonce and the balance together never exceed the first deposit.
    pub open spec fn wf(&self) -> bool {
        self.nonce as nat + self.balance as nat <= u64::MAX as nat
    }
}

} // verus!

use vstd::prelude::*;

use crate::errors::VaultError;
use crate::identity::Pubkey;
use crate::program::{outcome, FlowVault};

verus! {

/// The identities that a provider registration names: the signing authority,
/// which the new record is keyed by, and the account that will receive its
/// settlements.
#[derive(Clone, Copy, Debug)]
pub struct RegisterProvider {
    pub authority: Pubkey,
    pub destination: Pubkey,
}

/// Registers the provider that `accounts` describes in `program`.
pub fn handler(program: &mut FlowVault, accounts: RegisterProvider) -> (r: Result<(), VaultError>)
    requires
        old(program).wf(),
    ensures
        final(program).wf(),
        final(program)@.wf(),
        r == outcome(old(program)@.register_error(accounts.authority), ()),
        final(program)@ == (if r is Ok {
            old(program)@.register_next(accounts.authority, accounts.destination)
        } else {
            old(program)@
        }),
{
    program.register_provider(accounts.authority, accounts.destination)
}

} // verus!

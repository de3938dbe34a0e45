use vstd::prelude::*;

verus! {

/// Why an operation on the vault program was refused. A refused operation
/// leaves every record unchanged.
#[derive(Clone, Copy, Debug, PartialEq, Eq, Structural)]
pub enum VaultError {
    /// The caller is not the identity that the record requires.
    Unauthorized,
    /// The protocol configuration exists already.
    AlreadyInitialized,
    /// The protocol configuration has not been created yet.
    ConfigNotInitialized,
    /// A provider is registered already for this authority.
    DuplicateProvider,
    /// No provider is registered for this authority.
    ProviderNotFound,
    /// A vault exists already for this owner.
    DuplicateVault,
    /// No vault exists for this owner.
    VaultNotFound,
    /// A vault must be created with a positive deposit.
    ZeroDeposit,
    /// A fee rate above 10000 basis points.
    InvalidFeeRate,
    /// The settled amount is zero or above the vault's balance.
    InsufficientBalance,
    /// The vault's balance is zero.
    NothingToWithdraw,
    /// The submitted nonce is not the vault's current nonce.
    InvalidNonce,
    /// Settlement and withdrawal are paused.
    VaultPaused,
}

} // verus!

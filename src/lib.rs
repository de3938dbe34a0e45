//! A custodial vault and settlement engine. Depositors open vaults, a
//! configuration authority sets the protocol fee and an emergency pause, and
//! registered providers are paid from vaults in batches guarded by a nonce.
//! Every operation either applies in full or fails with no effect, and
//! returns an event that describes the funds the host is to move.

pub mod errors;
pub mod events;
pub mod fees;
pub mod identity;
pub mod instructions;
pub mod laws;
pub mod model;
pub mod program;
pub mod state;

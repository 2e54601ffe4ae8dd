use vstd::prelude::*;

verus! {

/// The errors that the pool's instructions report to the ledger.
#[derive(Debug, Clone, Copy, PartialEq, Eq, Structural)]
pub enum AmmError {
    /// The payload has the wrong length or holds a zero or out-of-range field.
    InvalidInstructionData,
    /// A deadline has passed, a slippage bound was not met, or the curve refused.
    InvalidArgument,
    /// An account's data or address does not match what the pool requires.
    InvalidAccountData,
    /// An account is not owned by the program that should own it.
    InvalidAccountOwner,
    /// The instruction was given the wrong number of accounts.
    NotEnoughAccountKeys,
    /// A supplied address is not the one derived from the pool's seeds.
    InvalidSeeds,
}

} // verus!

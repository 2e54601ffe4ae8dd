//! The token program instructions that the handlers' execution phases ask
//! the caller to carry out, in order.
use vstd::prelude::*;
use crate::address::Pubkey;

verus! {

/// The decimal precision of every pool's liquidity mint.
pub const LP_DECIMALS: u8 = 6;

/// One call into the token program.
#[derive(Debug, Clone, Copy, PartialEq, Eq)]
pub enum TokenInstruction {
    /// Move `amount` from `from` to `to`, authorized by `authority`; signed
    /// with the pool record's seeds when `pool_signs` holds.
    Transfer { from: Pubkey, to: Pubkey, authority: Pubkey, amount: u64, pool_signs: bool },
    /// Mint `amount` of `mint` into `account`, authorized by the pool record
    /// `mint_authority`, which signs with its seeds.
    MintTo { mint: Pubkey, account: Pubkey, mint_authority: Pubkey, amount: u64 },
    /// Burn `amount` of `mint` from `account`, authorized by its owner `authority`.
    Burn { mint: Pubkey, account: Pubkey, authority: Pubkey, amount: u64 },
}

} // verus!

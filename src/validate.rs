//! Checks that the accounts an instruction was given are the pool's own,
//! by deriving their addresses again from the pool record.
use vstd::prelude::*;
use crate::address::{Pubkey, derive_mint_lp, derive_vault, mint_lp_address, same_key, vault_address};
use crate::error::AmmError;
use crate::state::{Config, ConfigView};

verus! {

/// The two vaults are the pool's: each is the associated token account of
/// the pool record for its mint, with the bump the record keeps.
pub open spec fn vaults_match(
    c: ConfigView,
    config: Seq<u8>,
    token_program: Seq<u8>,
    vault_x: Seq<u8>,
    vault_y: Seq<u8>,
) -> bool {
    &&& vault_x == vault_address(config, token_program, c.mint_x, c.vault_x_bump)
    &&& vault_y == vault_address(config, token_program, c.mint_y, c.vault_y_bump)
}

/// The liquidity mint is the pool's, with the bump the record keeps.
pub open spec fn mint_lp_matches(c: ConfigView, config: Seq<u8>, mint_lp: Seq<u8>) -> bool {
    mint_lp == mint_lp_address(config, c.mint_lp_bump)
}

/// Fails with `InvalidAccountData` unless both vaults are the pool's.
pub fn check_vaults(
    config: &Config,
    config_key: &Pubkey,
    token_program: &Pubkey,
    vault_x: &Pubkey,
    vault_y: &Pubkey,
) -> (r: Result<(), AmmError>)
    ensures
        vaults_match(config@, config_key@, token_program@, vault_x@, vault_y@) ==> r is Ok,
        !vaults_match(config@, config_key@, token_program@, vault_x@, vault_y@) ==> r == Err::<
            (),
            AmmError,
        >(AmmError::InvalidAccountData),
{
    let expected_x = derive_vault(config_key, token_program, config.mint_x(), config.vault_x_bump()[0]);
    if !same_key(&expected_x, vault_x) {
        return Err(AmmError::InvalidAccountData);
    }
    let expected_y = derive_vault(config_key, token_program, config.mint_y(), config.vault_y_bump()[0]);
    if !same_key(&expected_y, vault_y) {
        return Err(AmmError::InvalidAccountData);
    }
    Ok(())
}

/// Fails with `InvalidAccountData` unless the liquidity mint is the pool's.
pub fn check_mint_lp(config: &Config, config_key: &Pubkey, mint_lp: &Pubkey) -> (r: Result<
    (),
    AmmError,
>)
    ensures
        mint_lp_matches(config@, config_key@, mint_lp@) ==> r is Ok,
        !mint_lp_matches(config@, config_key@, mint_lp@) ==> r == Err::<(), AmmError>(
            AmmError::InvalidAccountData,
        ),
{
    let expected = derive_mint_lp(config_key, config.mint_lp_bump()[0]);
    if !same_key(&expected, mint_lp) {
        return Err(AmmError::InvalidAccountData);
    }
    Ok(())
}

} // verus!

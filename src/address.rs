//! Program-derived addresses: every satellite account of a pool sits at an
//! address computed from public seeds, a one-byte bump and a program id, so
//! that no private key controls it.
use vstd::prelude::*;

verus! {

/// A 32-byte account address.
pub type Pubkey = [u8; 32];

/// This program's address.
pub const ID: Pubkey = [
    15, 30, 107, 20, 33, 192, 74, 7, 4, 49, 38, 92, 25, 197, 187, 238,
    25, 146, 186, 232, 175, 209, 205, 7, 142, 248, 175, 112, 71, 220, 17, 247,
];

/// The associated token account program's address, which derives the vaults.
pub const ASSOCIATED_TOKEN_PROGRAM_ID: Pubkey = [
    140, 151, 37, 143, 78, 36, 137, 241, 187, 61, 16, 41, 20, 142, 13, 131,
    11, 90, 19, 153, 218, 255, 16, 132, 4, 142, 123, 216, 219, 233, 248, 89,
];

/// The first seed of a pool's liquidity mint: `b"mint_lp"`.
pub const MINT_LP_SEED: [u8; 7] = [109, 105, 110, 116, 95, 108, 112];

/// The first seed of a pool's record: `b"config"`.
pub const CONFIG_SEED: [u8; 6] = [99, 111, 110, 102, 105, 103];

/// The address derived from `seeds`, then `bump`, under `program_id`.
pub uninterp spec fn derived_address(seeds: Seq<Seq<u8>>, bump: u8, program_id: Seq<u8>) -> Seq<u8>;

/// The canonical bump of `seeds` under `program_id`: the one the ledger's
/// search settles on.
pub uninterp spec fn canonical_bump(seeds: Seq<Seq<u8>>, program_id: Seq<u8>) -> u8;

/// The byte strings that a seed array holds.
pub open spec fn seeds_view<const N: usize>(seeds: [&[u8]; N]) -> Seq<Seq<u8>> {
    seeds@.map_values(|s: &[u8]| s@)
}

/// Relies on `pinocchio_pubkey::derive_address_const`: it hashes the seeds,
/// the bump, the program id and a fixed marker, so the address depends on
/// those alone. It does not check that the result lies off the curve.
#[verifier::external_body]
fn derive_address<const N: usize>(seeds: &[&[u8]; N], bump: u8, program_id: &Pubkey) -> (r: Pubkey)
    requires
        N < 16,
    ensures
        r@ == derived_address(seeds_view(*seeds), bump, program_id@),
{
    pinocchio_pubkey::derive_address_const(seeds, Some(bump), program_id)
}

/// Relies on `pinocchio::pubkey::try_find_program_address`: asks the ledger
/// for the canonical bump of `seeds` under `program_id`, which depends on
/// those alone. Off the ledger it finds none, so success is not promised.
#[verifier::external_body]
pub(crate) fn try_find_bump<const N: usize>(seeds: &[&[u8]; N], program_id: &Pubkey) -> (r: Option<u8>)
    ensures
        r matches Some(b) ==> b == canonical_bump(seeds_view(*seeds), program_id@),
{
    pinocchio::pubkey::try_find_program_address(seeds, program_id).map(|found| found.1)
}

/// Where a pool's vault for `mint` lives: the associated token account of the
/// pool record `config` under `token_program`.
pub open spec fn vault_address(config: Seq<u8>, token_program: Seq<u8>, mint: Seq<u8>, bump: u8) -> Seq<u8> {
    derived_address(seq![config, token_program, mint], bump, ASSOCIATED_TOKEN_PROGRAM_ID@)
}

/// Where the liquidity mint of the pool record `config` lives.
pub open spec fn mint_lp_address(config: Seq<u8>, bump: u8) -> Seq<u8> {
    derived_address(seq![MINT_LP_SEED@, config], bump, ID@)
}

/// Where the record of the pool with discriminator `seed` over `mint_x` and
/// `mint_y` lives.
pub open spec fn config_address(seed: Seq<u8>, mint_x: Seq<u8>, mint_y: Seq<u8>, bump: u8) -> Seq<u8> {
    derived_address(config_seeds(seed, mint_x, mint_y), bump, ID@)
}

/// The seeds of a pool record's address, before its bump.
pub open spec fn config_seeds(seed: Seq<u8>, mint_x: Seq<u8>, mint_y: Seq<u8>) -> Seq<Seq<u8>> {
    seq![CONFIG_SEED@, seed, mint_x, mint_y]
}

/// The vault address for `mint`, computed.
pub fn derive_vault(config: &Pubkey, token_program: &Pubkey, mint: &Pubkey, bump: u8) -> (r: Pubkey)
    ensures
        r@ == vault_address(config@, token_program@, mint@, bump),
{
    let seeds: [&[u8]; 3] = [config.as_slice(), token_program.as_slice(), mint.as_slice()];
    let r = derive_address(&seeds, bump, &ASSOCIATED_TOKEN_PROGRAM_ID);
    assert(seeds_view(seeds) =~= seq![config@, token_program@, mint@]);
    r
}

/// The liquidity mint address, computed.
pub fn derive_mint_lp(config: &Pubkey, bump: u8) -> (r: Pubkey)
    ensures
        r@ == mint_lp_address(config@, bump),
{
    let seeds: [&[u8]; 2] = [MINT_LP_SEED.as_slice(), config.as_slice()];
    let r = derive_address(&seeds, bump, &ID);
    assert(seeds_view(seeds) =~= seq![MINT_LP_SEED@, config@]);
    r
}

/// The pool record address, computed.
pub fn derive_config(seed: &[u8; 8], mint_x: &Pubkey, mint_y: &Pubkey, bump: u8) -> (r: Pubkey)
    ensures
        r@ == config_address(seed@, mint_x@, mint_y@, bump),
{
    let seeds: [&[u8]; 4] = [CONFIG_SEED.as_slice(), seed.as_slice(), mint_x.as_slice(), mint_y.as_slice()];
    let r = derive_address(&seeds, bump, &ID);
    assert(seeds_view(seeds) =~= seq![CONFIG_SEED@, seed@, mint_x@, mint_y@]);
    r
}

/// Whether two addresses are the same.
pub fn same_key(a: &Pubkey, b: &Pubkey) -> (r: bool)
    ensures
        r == (a@ == b@),
{
    let mut i: usize = 0;
    while i < 32
        invariant
            i <= 32,
            forall|j: int| 0 <= j < i ==> a@[j] == b@[j],
        decreases 32 - i,
    {
        if a[i] != b[i] {
            return false;
        }
        i = i + 1;
    }
    assert(a@ =~= b@);
    true
}

} // verus!

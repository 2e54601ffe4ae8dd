//! Initialize: creates a pool's record and liquidity mint at their derived
//! addresses and writes the record.
use vstd::prelude::*;
use vstd::bytes::spec_u16_from_le_bytes;
use crate::address::{
    ASSOCIATED_TOKEN_PROGRAM_ID, CONFIG_SEED, ID, MINT_LP_SEED, Pubkey, canonical_bump,
    config_address, config_seeds, derive_config, derive_mint_lp, mint_lp_address, same_key,
    seeds_view, try_find_bump,
};
use crate::bytes::{read_array, read_u16};
use crate::curve::FEE_DENOMINATOR;
use crate::error::AmmError;
use crate::state::{AmmState, Config, ConfigView, loaded_view};

verus! {

/// The accounts of an initialization, by address, in the order the
/// instruction lists them; the fourth, the system program, is not kept.
#[derive(Debug, Clone, Copy, PartialEq, Eq)]
pub struct InitializeAccounts {
    pub initializer: Pubkey,
    pub mint_lp: Pubkey,
    pub config: Pubkey,
    pub token_program: Pubkey,
}

/// The accounts at their places in the instruction's list.
pub open spec fn initialize_accounts_of(a: Seq<Pubkey>) -> InitializeAccounts {
    InitializeAccounts { initializer: a[0], mint_lp: a[1], config: a[2], token_program: a[4] }
}

impl InitializeAccounts {
    /// Takes the five accounts in order; any other count is refused.
    pub fn try_from(accounts: &[Pubkey]) -> (r: Result<InitializeAccounts, AmmError>)
        ensures
            accounts@.len() != 5 ==> r == Err::<InitializeAccounts, AmmError>(
                AmmError::NotEnoughAccountKeys,
            ),
            accounts@.len() == 5 ==> r == Ok::<InitializeAccounts, AmmError>(initialize_accounts_of(accounts@)),
    {
        if accounts.len() != 5 {
            return Err(AmmError::NotEnoughAccountKeys);
        }
        Ok(
            InitializeAccounts {
                initializer: accounts[0],
                mint_lp: accounts[1],
                config: accounts[2],
                token_program: accounts[4],
            },
        )
    }
}

/// An initialization's payload: the pool's discriminator, its fee, its two
/// assets, and its admin (all zero for none).
#[derive(Debug, Clone, Copy, PartialEq, Eq)]
pub struct InitializeInstructionData {
    pub seed: [u8; 8],
    pub fee: u16,
    pub mint_x: [u8; 32],
    pub mint_y: [u8; 32],
    pub authority: [u8; 32],
}

/// Whether `v` holds the fields of the payload `d`: seed, little-endian fee,
/// the two mints, and the authority, which is all zero when the payload
/// leaves it out.
pub open spec fn initialize_data_decodes(v: InitializeInstructionData, d: Seq<u8>) -> bool {
    &&& v.seed@ == d.subrange(0, 8)
    &&& v.fee == spec_u16_from_le_bytes(d.subrange(8, 10))
    &&& v.mint_x@ == d.subrange(10, 42)
    &&& v.mint_y@ == d.subrange(42, 74)
    &&& v.authority@ == if d.len() == InitializeInstructionData::LEN_WITH_AUTHORITY {
        d.subrange(74, 106)
    } else {
        Seq::new(32, |i: int| 0u8)
    }
}

impl InitializeInstructionData {
    /// The length of a payload that carries an authority.
    pub const LEN_WITH_AUTHORITY: usize = 106;

    /// The length of a payload without one.
    pub const LEN: usize = 74;

    /// Parses a payload of either length; any other length is refused.
    pub fn try_from(data: &[u8]) -> (r: Result<InitializeInstructionData, AmmError>)
        ensures
            data@.len() != Self::LEN && data@.len() != Self::LEN_WITH_AUTHORITY ==> r == Err::<
                InitializeInstructionData,
                AmmError,
            >(AmmError::InvalidInstructionData),
            data@.len() == Self::LEN || data@.len() == Self::LEN_WITH_AUTHORITY ==> (r matches Ok(
                v,
            ) && initialize_data_decodes(v, data@)),
    {
        let len = data.len();
        if len != Self::LEN && len != Self::LEN_WITH_AUTHORITY {
            return Err(AmmError::InvalidInstructionData);
        }
        let authority: [u8; 32] = if len == Self::LEN_WITH_AUTHORITY {
            read_array(data, 74)
        } else {
            let zero = [0u8; 32];
            assert(zero@ =~= Seq::new(32, |i: int| 0u8));
            zero
        };
        Ok(
            InitializeInstructionData {
                seed: read_array(data, 0),
                fee: read_u16(data, 8),
                mint_x: read_array(data, 10),
                mint_y: read_array(data, 42),
                authority,
            },
        )
    }
}

/// The bumps of a pool's four derived accounts.
#[derive(Debug, Clone, Copy, PartialEq, Eq, Structural)]
pub struct InitializeBumps {
    pub config: u8,
    pub mint_lp: u8,
    pub vault_x: u8,
    pub vault_y: u8,
}

/// The canonical bumps of a pool's four derived accounts: its liquidity
/// mint and record under this program, and its two vaults under the
/// associated token account program.
pub open spec fn canonical_bumps(
    accounts: InitializeAccounts,
    data: InitializeInstructionData,
) -> InitializeBumps {
    InitializeBumps {
        config: canonical_bump(config_seeds(data.seed@, data.mint_x@, data.mint_y@), ID@),
        mint_lp: canonical_bump(seq![MINT_LP_SEED@, accounts.config@], ID@),
        vault_x: canonical_bump(
            seq![accounts.config@, accounts.token_program@, data.mint_x@],
            ASSOCIATED_TOKEN_PROGRAM_ID@,
        ),
        vault_y: canonical_bump(
            seq![accounts.config@, accounts.token_program@, data.mint_y@],
            ASSOCIATED_TOKEN_PROGRAM_ID@,
        ),
    }
}

/// The validation phase of an initialization with the bumps `b`: the
/// supplied liquidity mint and pool record must sit at their derived
/// addresses and the fee must be below one whole. Gives the new record.
pub open spec fn initialize_check_spec(
    accounts: InitializeAccounts,
    data: InitializeInstructionData,
    b: InitializeBumps,
) -> Result<ConfigView, AmmError> {
    if mint_lp_address(accounts.config@, b.mint_lp) != accounts.mint_lp@ {
        Err(AmmError::InvalidSeeds)
    } else if config_address(data.seed@, data.mint_x@, data.mint_y@, b.config)
        != accounts.config@ {
        Err(AmmError::InvalidSeeds)
    } else if data.fee >= FEE_DENOMINATOR {
        Err(AmmError::InvalidAccountData)
    } else {
        Ok(
            ConfigView {
                state: 1,
                seed: data.seed@,
                authority: data.authority@,
                mint_x: data.mint_x@,
                mint_y: data.mint_y@,
                fee: data.fee,
                config_bump: b.config,
                vault_x_bump: b.vault_x,
                vault_y_bump: b.vault_y,
                mint_lp_bump: b.mint_lp,
            },
        )
    }
}

/// A fee of a whole or more is never accepted at initialization.
pub proof fn lemma_initialize_rejects_whole_fee(
    accounts: InitializeAccounts,
    data: InitializeInstructionData,
    b: InitializeBumps,
)
    requires
        data.fee >= FEE_DENOMINATOR,
    ensures
        initialize_check_spec(accounts, data, b) is Err,
{
}

/// An initialization instruction: its accounts and its payload.
pub struct Initialize {
    pub accounts: InitializeAccounts,
    pub instruction_data: InitializeInstructionData,
}

impl Initialize {
    /// The byte that selects an initialization.
    pub const DISCRIMINATOR: u8 = 0;

    /// Takes the accounts, then the payload.
    pub fn try_from(data: &[u8], accounts: &[Pubkey]) -> (r: Result<Initialize, AmmError>)
        ensures
            accounts@.len() != 5 ==> r is Err && r->Err_0 == AmmError::NotEnoughAccountKeys,
            accounts@.len() == 5 && data@.len() != InitializeInstructionData::LEN && data@.len()
                != InitializeInstructionData::LEN_WITH_AUTHORITY ==> r is Err && r->Err_0
                == AmmError::InvalidInstructionData,
            accounts@.len() == 5 && (data@.len() == InitializeInstructionData::LEN || data@.len()
                == InitializeInstructionData::LEN_WITH_AUTHORITY) ==> r is Ok
                && initialize_data_decodes(r->Ok_0.instruction_data, data@) && r->Ok_0.accounts
                == initialize_accounts_of(accounts@),
    {
        let accounts = InitializeAccounts::try_from(accounts)?;
        let instruction_data = InitializeInstructionData::try_from(data)?;
        Ok(Initialize { accounts, instruction_data })
    }

    /// Asks the ledger for the canonical bumps of the pool's four derived
    /// accounts; fails with `InvalidSeeds` when it finds none.
    pub fn find_bumps(&self) -> (r: Result<InitializeBumps, AmmError>)
        ensures
            r is Err ==> r->Err_0 == AmmError::InvalidSeeds,
            r matches Ok(b) ==> b == canonical_bumps(self.accounts, self.instruction_data),
    {
        let a = &self.accounts;
        let d = &self.instruction_data;
        let mint_lp_seeds: [&[u8]; 2] = [MINT_LP_SEED.as_slice(), a.config.as_slice()];
        let record_seeds: [&[u8]; 4] = [
            CONFIG_SEED.as_slice(),
            d.seed.as_slice(),
            d.mint_x.as_slice(),
            d.mint_y.as_slice(),
        ];
        let vault_x_seeds: [&[u8]; 3] = [
            a.config.as_slice(),
            a.token_program.as_slice(),
            d.mint_x.as_slice(),
        ];
        let vault_y_seeds: [&[u8]; 3] = [
            a.config.as_slice(),
            a.token_program.as_slice(),
            d.mint_y.as_slice(),
        ];
        assert(seeds_view(mint_lp_seeds) =~= seq![MINT_LP_SEED@, a.config@]);
        assert(seeds_view(record_seeds) =~= config_seeds(d.seed@, d.mint_x@, d.mint_y@));
        assert(seeds_view(vault_x_seeds) =~= seq![a.config@, a.token_program@, d.mint_x@]);
        assert(seeds_view(vault_y_seeds) =~= seq![a.config@, a.token_program@, d.mint_y@]);
        let mint_lp = match try_find_bump(&mint_lp_seeds, &ID) {
            Some(b) => b,
            None => {
                return Err(AmmError::InvalidSeeds);
            },
        };
        let config = match try_find_bump(&record_seeds, &ID) {
            Some(b) => b,
            None => {
                return Err(AmmError::InvalidSeeds);
            },
        };
        let vault_x = match try_find_bump(&vault_x_seeds, &ASSOCIATED_TOKEN_PROGRAM_ID) {
            Some(b) => b,
            None => {
                return Err(AmmError::InvalidSeeds);
            },
        };
        let vault_y = match try_find_bump(&vault_y_seeds, &ASSOCIATED_TOKEN_PROGRAM_ID) {
            Some(b) => b,
            None => {
                return Err(AmmError::InvalidSeeds);
            },
        };
        Ok(InitializeBumps { config, mint_lp, vault_x, vault_y })
    }

    /// Validates the initialization with the bumps `bumps`, deriving the
    /// liquidity mint's and the pool record's addresses again, and builds the
    /// new record in the initialized state.
    pub fn check(&self, bumps: &InitializeBumps) -> (r: Result<Config, AmmError>)
        ensures
            loaded_view(r) == initialize_check_spec(self.accounts, self.instruction_data, *bumps),
    {
        let a = &self.accounts;
        let d = &self.instruction_data;
        let mint_lp = derive_mint_lp(&a.config, bumps.mint_lp);
        if !same_key(&mint_lp, &a.mint_lp) {
            return Err(AmmError::InvalidSeeds);
        }
        let config = derive_config(&d.seed, &d.mint_x, &d.mint_y, bumps.config);
        if !same_key(&config, &a.config) {
            return Err(AmmError::InvalidSeeds);
        }
        Config::new(
            AmmState::Initialized,
            d.seed,
            d.authority,
            d.mint_x,
            d.mint_y,
            d.fee,
            [bumps.config],
            [bumps.vault_x],
            [bumps.vault_y],
            [bumps.mint_lp],
        )
    }
}

} // verus!

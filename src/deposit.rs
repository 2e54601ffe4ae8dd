//! Deposit: the caller adds both assets in proportion and receives newly
//! minted liquidity.
use vstd::prelude::*;
use vstd::bytes::spec_u64_from_le_bytes;
use crate::address::Pubkey;
use crate::bytes::read_u64;
use crate::curve::{deposit_amounts, deposit_amounts_spec};
use crate::error::AmmError;
use crate::state::{Config, load_config_spec};
use crate::token::{LP_DECIMALS, TokenInstruction};
use crate::validate::{check_mint_lp, check_vaults, mint_lp_matches, vaults_match};

verus! {

/// The accounts of a deposit, by address, in the order the instruction lists them.
#[derive(Debug, Clone, Copy, PartialEq, Eq)]
pub struct DepositAccounts {
    pub user: Pubkey,
    pub mint_lp: Pubkey,
    pub vault_x: Pubkey,
    pub vault_y: Pubkey,
    pub user_x_ata: Pubkey,
    pub user_y_ata: Pubkey,
    pub user_lp_ata: Pubkey,
    pub config: Pubkey,
    pub token_program: Pubkey,
}

/// The accounts at their places in the instruction's list.
pub open spec fn deposit_accounts_of(a: Seq<Pubkey>) -> DepositAccounts {
    DepositAccounts {
        user: a[0],
        mint_lp: a[1],
        vault_x: a[2],
        vault_y: a[3],
        user_x_ata: a[4],
        user_y_ata: a[5],
        user_lp_ata: a[6],
        config: a[7],
        token_program: a[8],
    }
}

impl DepositAccounts {
    /// Takes the nine accounts in order; any other count is refused.
    pub fn try_from(accounts: &[Pubkey]) -> (r: Result<DepositAccounts, AmmError>)
        ensures
            accounts@.len() != 9 ==> r == Err::<DepositAccounts, AmmError>(
                AmmError::NotEnoughAccountKeys,
            ),
            accounts@.len() == 9 ==> r == Ok::<DepositAccounts, AmmError>(deposit_accounts_of(accounts@)),
    {
        if accounts.len() != 9 {
            return Err(AmmError::NotEnoughAccountKeys);
        }
        Ok(DepositAccounts {
            user: accounts[0],
            mint_lp: accounts[1],
            vault_x: accounts[2],
            vault_y: accounts[3],
            user_x_ata: accounts[4],
            user_y_ata: accounts[5],
            user_lp_ata: accounts[6],
            config: accounts[7],
            token_program: accounts[8],
        })
    }
}

/// A deposit's payload: the liquidity to mint, the most of each asset the
/// caller will pay, and the deadline.
#[derive(Debug, Clone, Copy, PartialEq, Eq, Structural)]
pub struct DepositInstructionData {
    pub amount: u64,
    pub max_x: u64,
    pub max_y: u64,
    pub expiration: i64,
}

/// The fields of a deposit payload: four little-endian 64-bit words.
pub open spec fn decode_deposit_data(d: Seq<u8>) -> DepositInstructionData {
    DepositInstructionData {
        amount: spec_u64_from_le_bytes(d.subrange(0, 8)),
        max_x: spec_u64_from_le_bytes(d.subrange(8, 16)),
        max_y: spec_u64_from_le_bytes(d.subrange(16, 24)),
        expiration: spec_u64_from_le_bytes(d.subrange(24, 32)) as i64,
    }
}

/// What parsing a deposit payload at time `now` gives.
pub open spec fn parse_deposit_data_spec(d: Seq<u8>, now: i64) -> Result<
    DepositInstructionData,
    AmmError,
> {
    if d.len() != DepositInstructionData::LEN {
        Err(AmmError::InvalidInstructionData)
    } else {
        let v = decode_deposit_data(d);
        if v.amount == 0 || v.max_x == 0 || v.max_y == 0 {
            Err(AmmError::InvalidInstructionData)
        } else if now >= v.expiration {
            Err(AmmError::InvalidArgument)
        } else {
            Ok(v)
        }
    }
}

impl DepositInstructionData {
    /// The length of a deposit payload.
    pub const LEN: usize = 32;

    /// Parses a payload, refusing zero amounts and a deadline at or before `now`.
    pub fn try_from(data: &[u8], now: i64) -> (r: Result<DepositInstructionData, AmmError>)
        ensures
            r == parse_deposit_data_spec(data@, now),
    {
        if data.len() != Self::LEN {
            return Err(AmmError::InvalidInstructionData);
        }
        let amount = read_u64(data, 0);
        let max_x = read_u64(data, 8);
        let max_y = read_u64(data, 16);
        let expiration = #[verifier::truncate] (read_u64(data, 24) as i64);
        if amount == 0 || max_x == 0 || max_y == 0 {
            return Err(AmmError::InvalidInstructionData);
        }
        if now >= expiration {
            return Err(AmmError::InvalidArgument);
        }
        Ok(DepositInstructionData { amount, max_x, max_y, expiration })
    }
}

/// A deposit payload is never accepted with a zero amount.
pub proof fn lemma_deposit_rejects_zero_amount(d: Seq<u8>, now: i64)
    ensures
        parse_deposit_data_spec(d, now) matches Ok(v) ==> v.amount > 0,
{
}

/// What a deposit costs on reserves `(reserve_x, reserve_y)` backed by
/// `lp_supply` liquidity: while no liquidity exists, the caller's maximums
/// as they are; otherwise the curve's amounts, which must not exceed the
/// maximums.
pub open spec fn deposit_quote_spec(
    data: DepositInstructionData,
    lp_supply: u64,
    reserve_x: u64,
    reserve_y: u64,
) -> Result<(u64, u64), AmmError> {
    if lp_supply == 0 {
        Ok((data.max_x, data.max_y))
    } else {
        match deposit_amounts_spec(reserve_x, reserve_y, lp_supply, data.amount, LP_DECIMALS) {
            Err(_) => Err(AmmError::InvalidArgument),
            Ok((x, y)) => if x > data.max_x || y > data.max_y {
                Err(AmmError::InvalidArgument)
            } else {
                Ok((x, y))
            },
        }
    }
}

/// The validation phase of a deposit, given the pool record's account
/// (`config_data` owned by `config_owner`) and the live balances.
pub open spec fn deposit_check_spec(
    accounts: DepositAccounts,
    data: DepositInstructionData,
    config_data: Seq<u8>,
    config_owner: Seq<u8>,
    lp_supply: u64,
    reserve_x: u64,
    reserve_y: u64,
) -> Result<(u64, u64), AmmError> {
    match load_config_spec(config_data, config_owner) {
        Err(e) => Err(e),
        Ok(c) => if !c.can_deposit() {
            Err(AmmError::InvalidAccountData)
        } else if !vaults_match(
            c,
            accounts.config@,
            accounts.token_program@,
            accounts.vault_x@,
            accounts.vault_y@,
        ) {
            Err(AmmError::InvalidAccountData)
        } else if !mint_lp_matches(c, accounts.config@, accounts.mint_lp@) {
            Err(AmmError::InvalidAccountData)
        } else {
            deposit_quote_spec(data, lp_supply, reserve_x, reserve_y)
        },
    }
}

/// A deposit instruction: its accounts and its payload.
pub struct Deposit {
    pub accounts: DepositAccounts,
    pub instruction_data: DepositInstructionData,
}

impl Deposit {
    /// The byte that selects a deposit.
    pub const DISCRIMINATOR: u8 = 1;

    /// Takes the accounts, then the payload parsed at time `now`.
    pub fn try_from(data: &[u8], accounts: &[Pubkey], now: i64) -> (r: Result<Deposit, AmmError>)
        ensures
            accounts@.len() != 9 ==> r is Err && r->Err_0 == AmmError::NotEnoughAccountKeys,
            accounts@.len() == 9 ==> match parse_deposit_data_spec(data@, now) {
                Err(e) => r is Err && r->Err_0 == e,
                Ok(v) => r is Ok && r->Ok_0.instruction_data == v && r->Ok_0.accounts
                    == deposit_accounts_of(accounts@),
            },
    {
        let accounts = DepositAccounts::try_from(accounts)?;
        let instruction_data = DepositInstructionData::try_from(data, now)?;
        Ok(Deposit { accounts, instruction_data })
    }

    /// The amounts of each asset the deposit takes, given the live balances.
    pub fn quote(&self, lp_supply: u64, reserve_x: u64, reserve_y: u64) -> (r: Result<
        (u64, u64),
        AmmError,
    >)
        ensures
            r == deposit_quote_spec(self.instruction_data, lp_supply, reserve_x, reserve_y),
    {
        let data = self.instruction_data;
        if lp_supply == 0 {
            return Ok((data.max_x, data.max_y));
        }
        match deposit_amounts(reserve_x, reserve_y, lp_supply, data.amount, LP_DECIMALS) {
            Err(_) => Err(AmmError::InvalidArgument),
            Ok((x, y)) => {
                if x > data.max_x || y > data.max_y {
                    Err(AmmError::InvalidArgument)
                } else {
                    Ok((x, y))
                }
            },
        }
    }

    /// Validates the deposit before any fund moves: the pool record loads and
    /// permits deposits, the vaults and the liquidity mint are the pool's,
    /// and the amounts fit the caller's maximums. Returns those amounts.
    pub fn check(
        &self,
        config_data: &[u8],
        config_owner: &Pubkey,
        lp_supply: u64,
        reserve_x: u64,
        reserve_y: u64,
    ) -> (r: Result<(u64, u64), AmmError>)
        ensures
            r == deposit_check_spec(
                self.accounts,
                self.instruction_data,
                config_data@,
                config_owner@,
                lp_supply,
                reserve_x,
                reserve_y,
            ),
    {
        let config = Config::load(config_data, config_owner)?;
        if !config.can_deposit() {
            return Err(AmmError::InvalidAccountData);
        }
        let a = &self.accounts;
        check_vaults(&config, &a.config, &a.token_program, &a.vault_x, &a.vault_y)?;
        check_mint_lp(&config, &a.config, &a.mint_lp)?;
        self.quote(lp_supply, reserve_x, reserve_y)
    }

    /// The execution phase: the caller pays `x` and `y` into the vaults under
    /// its own signature, then the pool record mints the liquidity to the
    /// caller under the pool's seeds.
    pub fn transfer_to_vault_and_mint_to_user(&self, x: u64, y: u64) -> (r: Vec<TokenInstruction>)
        ensures
            r@ == seq![
                TokenInstruction::Transfer {
                    from: self.accounts.user_x_ata,
                    to: self.accounts.vault_x,
                    authority: self.accounts.user,
                    amount: x,
                    pool_signs: false,
                },
                TokenInstruction::Transfer {
                    from: self.accounts.user_y_ata,
                    to: self.accounts.vault_y,
                    authority: self.accounts.user,
                    amount: y,
                    pool_signs: false,
                },
                TokenInstruction::MintTo {
                    mint: self.accounts.mint_lp,
                    account: self.accounts.user_lp_ata,
                    mint_authority: self.accounts.config,
                    amount: self.instruction_data.amount,
                },
            ],
    {
        let a = &self.accounts;
        let mut out: Vec<TokenInstruction> = Vec::new();
        out.push(
            TokenInstruction::Transfer {
                from: a.user_x_ata,
                to: a.vault_x,
                authority: a.user,
                amount: x,
                pool_signs: false,
            },
        );
        out.push(
            TokenInstruction::Transfer {
                from: a.user_y_ata,
                to: a.vault_y,
                authority: a.user,
                amount: y,
                pool_signs: false,
            },
        );
        out.push(
            TokenInstruction::MintTo {
                mint: a.mint_lp,
                account: a.user_lp_ata,
                mint_authority: a.config,
                amount: self.instruction_data.amount,
            },
        );
        assert(out@ =~= seq![
            TokenInstruction::Transfer {
                from: a.user_x_ata,
                to: a.vault_x,
                authority: a.user,
                amount: x,
                pool_signs: false,
            },
            TokenInstruction::Transfer {
                from: a.user_y_ata,
                to: a.vault_y,
                authority: a.user,
                amount: y,
                pool_signs: false,
            },
            TokenInstruction::MintTo {
                mint: a.mint_lp,
                account: a.user_lp_ata,
                mint_authority: a.config,
                amount: self.instruction_data.amount,
            },
        ]);
        out
    }
}

} // verus!

//! Withdraw: the caller burns liquidity and receives its share of both
//! assets. Still possible when the pool takes no new deposits.
use vstd::prelude::*;
use vstd::bytes::spec_u64_from_le_bytes;
use crate::address::Pubkey;
use crate::bytes::read_u64;
use crate::curve::{lemma_deposit_withdraw_round_trip, withdraw_amounts, withdraw_amounts_spec};
use crate::deposit::{DepositInstructionData, deposit_quote_spec};
use crate::error::AmmError;
use crate::state::{Config, load_config_spec};
use crate::token::{LP_DECIMALS, TokenInstruction};
use crate::validate::{check_mint_lp, check_vaults, mint_lp_matches, vaults_match};

verus! {

/// The accounts of a withdrawal, by address, in the order the instruction lists them.
#[derive(Debug, Clone, Copy, PartialEq, Eq)]
pub struct WithdrawAccounts {
    pub user: Pubkey,
    pub mint_lp: Pubkey,
    pub vault_x: Pubkey,
    pub vault_y: Pubkey,
    pub user_x_ata: Pubkey,
    pub user_y_ata: Pubkey,
    pub user_lp_ata: Pubkey,
    pub config: Pubkey,
    pub token_program: Pubkey,
}

/// The accounts at their places in the instruction's list.
pub open spec fn withdraw_accounts_of(a: Seq<Pubkey>) -> WithdrawAccounts {
    WithdrawAccounts {
        user: a[0],
        mint_lp: a[1],
        vault_x: a[2],
        vault_y: a[3],
        user_x_ata: a[4],
        user_y_ata: a[5],
        user_lp_ata: a[6],
        config: a[7],
        token_program: a[8],
    }
}

impl WithdrawAccounts {
    /// Takes the nine accounts in order; any other count is refused.
    pub fn try_from(accounts: &[Pubkey]) -> (r: Result<WithdrawAccounts, AmmError>)
        ensures
            accounts@.len() != 9 ==> r == Err::<WithdrawAccounts, AmmError>(
                AmmError::NotEnoughAccountKeys,
            ),
            accounts@.len() == 9 ==> r == Ok::<WithdrawAccounts, AmmError>(withdraw_accounts_of(accounts@)),
    {
        if accounts.len() != 9 {
            return Err(AmmError::NotEnoughAccountKeys);
        }
        Ok(WithdrawAccounts {
            user: accounts[0],
            mint_lp: accounts[1],
            vault_x: accounts[2],
            vault_y: accounts[3],
            user_x_ata: accounts[4],
            user_y_ata: accounts[5],
            user_lp_ata: accounts[6],
            config: accounts[7],
            token_program: accounts[8],
        })
    }
}

/// A withdrawal's payload: the liquidity to burn, the least of each asset
/// the caller will accept, and the deadline.
#[derive(Debug, Clone, Copy, PartialEq, Eq, Structural)]
pub struct WithdrawInstructionData {
    pub amount: u64,
    pub min_x: u64,
    pub min_y: u64,
    pub expiration: i64,
}

/// The fields of a withdrawal payload: four little-endian 64-bit words.
pub open spec fn decode_withdraw_data(d: Seq<u8>) -> WithdrawInstructionData {
    WithdrawInstructionData {
        amount: spec_u64_from_le_bytes(d.subrange(0, 8)),
        min_x: spec_u64_from_le_bytes(d.subrange(8, 16)),
        min_y: spec_u64_from_le_bytes(d.subrange(16, 24)),
        expiration: spec_u64_from_le_bytes(d.subrange(24, 32)) as i64,
    }
}

/// What parsing a withdrawal payload at time `now` gives.
pub open spec fn parse_withdraw_data_spec(d: Seq<u8>, now: i64) -> Result<
    WithdrawInstructionData,
    AmmError,
> {
    if d.len() != WithdrawInstructionData::LEN {
        Err(AmmError::InvalidInstructionData)
    } else {
        let v = decode_withdraw_data(d);
        if v.amount == 0 || v.min_x == 0 || v.min_y == 0 {
            Err(AmmError::InvalidInstructionData)
        } else if now >= v.expiration {
            Err(AmmError::InvalidArgument)
        } else {
            Ok(v)
        }
    }
}

impl WithdrawInstructionData {
    /// The length of a withdrawal payload.
    pub const LEN: usize = 32;

    /// Parses a payload, refusing zero amounts and a deadline at or before `now`.
    pub fn try_from(data: &[u8], now: i64) -> (r: Result<WithdrawInstructionData, AmmError>)
        ensures
            r == parse_withdraw_data_spec(data@, now),
    {
        if data.len() != Self::LEN {
            return Err(AmmError::InvalidInstructionData);
        }
        let amount = read_u64(data, 0);
        let min_x = read_u64(data, 8);
        let min_y = read_u64(data, 16);
        let expiration = #[verifier::truncate] (read_u64(data, 24) as i64);
        if amount == 0 || min_x == 0 || min_y == 0 {
            return Err(AmmError::InvalidInstructionData);
        }
        if now >= expiration {
            return Err(AmmError::InvalidArgument);
        }
        Ok(WithdrawInstructionData { amount, min_x, min_y, expiration })
    }
}

/// A withdrawal payload is never accepted with a zero amount.
pub proof fn lemma_withdraw_rejects_zero_amount(d: Seq<u8>, now: i64)
    ensures
        parse_withdraw_data_spec(d, now) matches Ok(v) ==> v.amount > 0,
{
}

/// A deposit that the pool accepts, followed at once by burning the
/// liquidity it minted, returns no more of either asset than was paid in,
/// on a pool whose reserves are empty whenever no liquidity exists.
pub proof fn lemma_deposit_then_withdraw(
    deposit: DepositInstructionData,
    lp_supply: u64,
    reserve_x: u64,
    reserve_y: u64,
    x: u64,
    y: u64,
)
    requires
        deposit.amount > 0,
        lp_supply == 0 ==> reserve_x == 0 && reserve_y == 0,
        deposit_quote_spec(deposit, lp_supply, reserve_x, reserve_y) == Ok::<(u64, u64), AmmError>(
            (x, y),
        ),
        reserve_x + x <= u64::MAX,
        reserve_y + y <= u64::MAX,
        lp_supply + deposit.amount <= u64::MAX,
    ensures
        withdraw_amounts_spec(
            (reserve_x + x) as u64,
            (reserve_y + y) as u64,
            (lp_supply + deposit.amount) as u64,
            deposit.amount,
            LP_DECIMALS,
        ) matches Ok((x2, y2)) && x2 <= x && y2 <= y,
{
    if lp_supply != 0 {
        lemma_deposit_withdraw_round_trip(
            reserve_x,
            reserve_y,
            lp_supply,
            deposit.amount,
            LP_DECIMALS,
            x,
            y,
        );
    }
}

/// What burning the payload's liquidity returns from reserves
/// `(reserve_x, reserve_y)` backed by `lp_supply` liquidity: the curve's
/// amounts, which must reach the caller's minimums.
pub open spec fn withdraw_quote_spec(
    data: WithdrawInstructionData,
    lp_supply: u64,
    reserve_x: u64,
    reserve_y: u64,
) -> Result<(u64, u64), AmmError> {
    match withdraw_amounts_spec(reserve_x, reserve_y, lp_supply, data.amount, LP_DECIMALS) {
        Err(_) => Err(AmmError::InvalidArgument),
        Ok((x, y)) => if x < data.min_x || y < data.min_y {
            Err(AmmError::InvalidArgument)
        } else {
            Ok((x, y))
        },
    }
}

/// The validation phase of a withdrawal, given the pool record's account
/// (`config_data` owned by `config_owner`) and the live balances.
pub open spec fn withdraw_check_spec(
    accounts: WithdrawAccounts,
    data: WithdrawInstructionData,
    config_data: Seq<u8>,
    config_owner: Seq<u8>,
    lp_supply: u64,
    reserve_x: u64,
    reserve_y: u64,
) -> Result<(u64, u64), AmmError> {
    match load_config_spec(config_data, config_owner) {
        Err(e) => Err(e),
        Ok(c) => if !c.can_withdraw() {
            Err(AmmError::InvalidAccountData)
        } else if !vaults_match(
            c,
            accounts.config@,
            accounts.token_program@,
            accounts.vault_x@,
            accounts.vault_y@,
        ) {
            Err(AmmError::InvalidAccountData)
        } else if !mint_lp_matches(c, accounts.config@, accounts.mint_lp@) {
            Err(AmmError::InvalidAccountData)
        } else {
            withdraw_quote_spec(data, lp_supply, reserve_x, reserve_y)
        },
    }
}

/// A withdrawal instruction: its accounts and its payload.
pub struct Withdraw {
    pub accounts: WithdrawAccounts,
    pub instruction_data: WithdrawInstructionData,
}

impl Withdraw {
    /// The byte that selects a withdrawal.
    pub const DISCRIMINATOR: u8 = 2;

    /// Takes the accounts, then the payload parsed at time `now`.
    pub fn try_from(data: &[u8], accounts: &[Pubkey], now: i64) -> (r: Result<Withdraw, AmmError>)
        ensures
            accounts@.len() != 9 ==> r is Err && r->Err_0 == AmmError::NotEnoughAccountKeys,
            accounts@.len() == 9 ==> match parse_withdraw_data_spec(data@, now) {
                Err(e) => r is Err && r->Err_0 == e,
                Ok(v) => r is Ok && r->Ok_0.instruction_data == v && r->Ok_0.accounts
                    == withdraw_accounts_of(accounts@),
            },
    {
        let accounts = WithdrawAccounts::try_from(accounts)?;
        let instruction_data = WithdrawInstructionData::try_from(data, now)?;
        Ok(Withdraw { accounts, instruction_data })
    }

    /// The amounts of each asset the withdrawal returns, given the live balances.
    pub fn quote(&self, lp_supply: u64, reserve_x: u64, reserve_y: u64) -> (r: Result<
        (u64, u64),
        AmmError,
    >)
        ensures
            r == withdraw_quote_spec(self.instruction_data, lp_supply, reserve_x, reserve_y),
    {
        let data = self.instruction_data;
        match withdraw_amounts(reserve_x, reserve_y, lp_supply, data.amount, LP_DECIMALS) {
            Err(_) => Err(AmmError::InvalidArgument),
            Ok((x, y)) => {
                if x < data.min_x || y < data.min_y {
                    Err(AmmError::InvalidArgument)
                } else {
                    Ok((x, y))
                }
            },
        }
    }

    /// Validates the withdrawal before any fund moves: the pool record loads
    /// and permits withdrawals, the vaults and the liquidity mint are the
    /// pool's, and the amounts reach the caller's minimums. Returns those
    /// amounts.
    pub fn check(
        &self,
        config_data: &[u8],
        config_owner: &Pubkey,
        lp_supply: u64,
        reserve_x: u64,
        reserve_y: u64,
    ) -> (r: Result<(u64, u64), AmmError>)
        ensures
            r == withdraw_check_spec(
                self.accounts,
                self.instruction_data,
                config_data@,
                config_owner@,
                lp_supply,
                reserve_x,
                reserve_y,
            ),
    {
        let config = Config::load(config_data, config_owner)?;
        if !config.can_withdraw() {
            return Err(AmmError::InvalidAccountData);
        }
        let a = &self.accounts;
        check_vaults(&config, &a.config, &a.token_program, &a.vault_x, &a.vault_y)?;
        check_mint_lp(&config, &a.config, &a.mint_lp)?;
        self.quote(lp_supply, reserve_x, reserve_y)
    }

    /// The execution phase: the pool record pays `x` and `y` out of the
    /// vaults under the pool's seeds, then the caller burns the liquidity
    /// under its own signature.
    pub fn transfer_tokens_and_burn_lp_tokens(&self, x: u64, y: u64) -> (r: Vec<TokenInstruction>)
        ensures
            r@ == seq![
                TokenInstruction::Transfer {
                    from: self.accounts.vault_x,
                    to: self.accounts.user_x_ata,
                    authority: self.accounts.config,
                    amount: x,
                    pool_signs: true,
                },
                TokenInstruction::Transfer {
                    from: self.accounts.vault_y,
                    to: self.accounts.user_y_ata,
                    authority: self.accounts.config,
                    amount: y,
                    pool_signs: true,
                },
                TokenInstruction::Burn {
                    mint: self.accounts.mint_lp,
                    account: self.accounts.user_lp_ata,
                    authority: self.accounts.user,
                    amount: self.instruction_data.amount,
                },
            ],
    {
        let a = &self.accounts;
        let mut out: Vec<TokenInstruction> = Vec::new();
        out.push(
            TokenInstruction::Transfer {
                from: a.vault_x,
                to: a.user_x_ata,
                authority: a.config,
                amount: x,
                pool_signs: true,
            },
        );
        out.push(
            TokenInstruction::Transfer {
                from: a.vault_y,
                to: a.user_y_ata,
                authority: a.config,
                amount: y,
                pool_signs: true,
            },
        );
        out.push(
            TokenInstruction::Burn {
                mint: a.mint_lp,
                account: a.user_lp_ata,
                authority: a.user,
                amount: self.instruction_data.amount,
            },
        );
        assert(out@ =~= seq![
            TokenInstruction::Transfer {
                from: a.vault_x,
                to: a.user_x_ata,
                authority: a.config,
                amount: x,
                pool_signs: true,
            },
            TokenInstruction::Transfer {
                from: a.vault_y,
                to: a.user_y_ata,
                authority: a.config,
                amount: y,
                pool_signs: true,
            },
            TokenInstruction::Burn {
                mint: a.mint_lp,
                account: a.user_lp_ata,
                authority: a.user,
                amount: self.instruction_data.amount,
            },
        ]);
        out
    }
}

} // verus!

//! Swap: the caller pays one asset into its vault and receives the other
//! out of the opposite vault, priced by the constant-product curve.
use vstd::prelude::*;
use vstd::bytes::spec_u64_from_le_bytes;
use crate::address::Pubkey;
use crate::bytes::read_u64;
use crate::curve::{lemma_swap_keeps_product, swap, swap_spec};
use crate::error::AmmError;
use crate::state::{Config, load_config_spec};
use crate::token::TokenInstruction;
use crate::validate::{check_vaults, vaults_match};

verus! {

/// The accounts of a swap, by address, in the order the instruction lists them.
#[derive(Debug, Clone, Copy, PartialEq, Eq)]
pub struct SwapAccounts {
    pub user: Pubkey,
    pub user_x_ata: Pubkey,
    pub user_y_ata: Pubkey,
    pub vault_x: Pubkey,
    pub vault_y: Pubkey,
    pub config: Pubkey,
    pub token_program: Pubkey,
}

/// The accounts at their places in the instruction's list.
pub open spec fn swap_accounts_of(a: Seq<Pubkey>) -> SwapAccounts {
    SwapAccounts {
        user: a[0],
        user_x_ata: a[1],
        user_y_ata: a[2],
        vault_x: a[3],
        vault_y: a[4],
        config: a[5],
        token_program: a[6],
    }
}

impl SwapAccounts {
    /// Takes the seven accounts in order; any other count is refused.
    pub fn try_from(accounts: &[Pubkey]) -> (r: Result<SwapAccounts, AmmError>)
        ensures
            accounts@.len() != 7 ==> r == Err::<SwapAccounts, AmmError>(
                AmmError::NotEnoughAccountKeys,
            ),
            accounts@.len() == 7 ==> r == Ok::<SwapAccounts, AmmError>(swap_accounts_of(accounts@)),
    {
        if accounts.len() != 7 {
            return Err(AmmError::NotEnoughAccountKeys);
        }
        Ok(SwapAccounts {
            user: accounts[0],
            user_x_ata: accounts[1],
            user_y_ata: accounts[2],
            vault_x: accounts[3],
            vault_y: accounts[4],
            config: accounts[5],
            token_program: accounts[6],
        })
    }
}

/// A swap's payload: the direction (`is_x` pays asset X in), the input, the
/// least output the caller accepts, and the deadline.
#[derive(Debug, Clone, Copy, PartialEq, Eq, Structural)]
pub struct SwapInstructionData {
    pub is_x: bool,
    pub amount: u64,
    pub min: u64,
    pub expiration: i64,
}

/// What parsing a swap payload at time `now` gives: a direction byte of 0
/// or 1, then three little-endian 64-bit words.
pub open spec fn parse_swap_data_spec(d: Seq<u8>, now: i64) -> Result<SwapInstructionData, AmmError> {
    if d.len() != SwapInstructionData::LEN {
        Err(AmmError::InvalidInstructionData)
    } else if d[0] > 1 {
        Err(AmmError::InvalidInstructionData)
    } else {
        let v = SwapInstructionData {
            is_x: d[0] == 1,
            amount: spec_u64_from_le_bytes(d.subrange(1, 9)),
            min: spec_u64_from_le_bytes(d.subrange(9, 17)),
            expiration: spec_u64_from_le_bytes(d.subrange(17, 25)) as i64,
        };
        if v.amount == 0 || v.min == 0 {
            Err(AmmError::InvalidInstructionData)
        } else if v.expiration <= now {
            Err(AmmError::InvalidArgument)
        } else {
            Ok(v)
        }
    }
}

impl SwapInstructionData {
    /// The length of a swap payload.
    pub const LEN: usize = 25;

    /// Parses a payload, refusing a direction byte other than 0 or 1, a zero
    /// input or minimum, and a deadline at or before `now`.
    pub fn try_from(data: &[u8], now: i64) -> (r: Result<SwapInstructionData, AmmError>)
        ensures
            r == parse_swap_data_spec(data@, now),
    {
        if data.len() != Self::LEN {
            return Err(AmmError::InvalidInstructionData);
        }
        let is_x = match data[0] {
            0 => false,
            1 => true,
            _ => {
                return Err(AmmError::InvalidInstructionData);
            },
        };
        let amount = read_u64(data, 1);
        let min = read_u64(data, 9);
        let expiration = #[verifier::truncate] (read_u64(data, 17) as i64);
        if amount == 0 || min == 0 {
            return Err(AmmError::InvalidInstructionData);
        }
        if expiration <= now {
            return Err(AmmError::InvalidArgument);
        }
        Ok(SwapInstructionData { is_x, amount, min, expiration })
    }
}

/// What the payload's swap deposits and withdraws on reserves
/// `(reserve_x, reserve_y)` with a fee of `fee` basis points.
pub open spec fn swap_quote_spec(
    data: SwapInstructionData,
    fee: u16,
    reserve_x: u64,
    reserve_y: u64,
) -> Result<(u64, u64), AmmError> {
    let curve = if data.is_x {
        swap_spec(reserve_x, reserve_y, fee, data.amount, data.min)
    } else {
        swap_spec(reserve_y, reserve_x, fee, data.amount, data.min)
    };
    match curve {
        Err(_) => Err(AmmError::InvalidArgument),
        Ok((deposit, withdraw)) => if deposit == 0 || withdraw == 0 {
            Err(AmmError::InvalidArgument)
        } else {
            Ok((deposit, withdraw))
        },
    }
}

/// The reserves after a swap that deposited `deposit` and withdrew `withdraw`.
pub open spec fn reserves_after_swap(
    data: SwapInstructionData,
    reserve_x: u64,
    reserve_y: u64,
    deposit: u64,
    withdraw: u64,
) -> (int, int) {
    if data.is_x {
        (reserve_x + deposit, reserve_y - withdraw)
    } else {
        (reserve_x - withdraw, reserve_y + deposit)
    }
}

/// Every swap that the pool accepts leaves the product of its reserves at
/// least as large as before, in either direction, and empties neither vault.
pub proof fn lemma_swap_grows_product(
    data: SwapInstructionData,
    fee: u16,
    reserve_x: u64,
    reserve_y: u64,
    deposit: u64,
    withdraw: u64,
)
    requires
        swap_quote_spec(data, fee, reserve_x, reserve_y) == Ok::<(u64, u64), AmmError>(
            (deposit, withdraw),
        ),
    ensures
        reserves_after_swap(data, reserve_x, reserve_y, deposit, withdraw).0 > 0,
        reserves_after_swap(data, reserve_x, reserve_y, deposit, withdraw).1 > 0,
        reserves_after_swap(data, reserve_x, reserve_y, deposit, withdraw).0
            * reserves_after_swap(data, reserve_x, reserve_y, deposit, withdraw).1 >= reserve_x
            * reserve_y,
{
    let (nx, ny) = reserves_after_swap(data, reserve_x, reserve_y, deposit, withdraw);
    if data.is_x {
        lemma_swap_keeps_product(reserve_x, reserve_y, fee, data.amount, data.min, deposit, withdraw);
    } else {
        lemma_swap_keeps_product(reserve_y, reserve_x, fee, data.amount, data.min, deposit, withdraw);
        assert(nx * ny == ny * nx) by (nonlinear_arith);
        assert(reserve_x * reserve_y == reserve_y * reserve_x) by (nonlinear_arith);
    }
}

/// A swap payload is never accepted with a zero input.
pub proof fn lemma_swap_rejects_zero_amount(d: Seq<u8>, now: i64)
    ensures
        parse_swap_data_spec(d, now) matches Ok(v) ==> v.amount > 0,
{
}

/// The validation phase of a swap, given the pool record's account
/// (`config_data` owned by `config_owner`) and the vaults' balances.
pub open spec fn swap_check_spec(
    accounts: SwapAccounts,
    data: SwapInstructionData,
    config_data: Seq<u8>,
    config_owner: Seq<u8>,
    reserve_x: u64,
    reserve_y: u64,
) -> Result<(u64, u64), AmmError> {
    match load_config_spec(config_data, config_owner) {
        Err(e) => Err(e),
        Ok(c) => if !c.can_swap() {
            Err(AmmError::InvalidAccountData)
        } else if !vaults_match(
            c,
            accounts.config@,
            accounts.token_program@,
            accounts.vault_x@,
            accounts.vault_y@,
        ) {
            Err(AmmError::InvalidAccountData)
        } else {
            swap_quote_spec(data, c.fee, reserve_x, reserve_y)
        },
    }
}

/// A swap instruction: its accounts and its payload.
pub struct Swap {
    pub accounts: SwapAccounts,
    pub instruction_data: SwapInstructionData,
}

impl Swap {
    /// The byte that selects a swap.
    pub const DISCRIMINATOR: u8 = 3;

    /// Takes the accounts, then the payload parsed at time `now`.
    pub fn try_from(data: &[u8], accounts: &[Pubkey], now: i64) -> (r: Result<Swap, AmmError>)
        ensures
            accounts@.len() != 7 ==> r is Err && r->Err_0 == AmmError::NotEnoughAccountKeys,
            accounts@.len() == 7 ==> match parse_swap_data_spec(data@, now) {
                Err(e) => r is Err && r->Err_0 == e,
                Ok(v) => r is Ok && r->Ok_0.instruction_data == v && r->Ok_0.accounts
                    == swap_accounts_of(accounts@),
            },
    {
        let accounts = SwapAccounts::try_from(accounts)?;
        let instruction_data = SwapInstructionData::try_from(data, now)?;
        Ok(Swap { accounts, instruction_data })
    }

    /// What the swap deposits and withdraws, given the pool's fee and the
    /// vaults' balances.
    pub fn quote(&self, fee: u16, reserve_x: u64, reserve_y: u64) -> (r: Result<
        (u64, u64),
        AmmError,
    >)
        ensures
            r == swap_quote_spec(self.instruction_data, fee, reserve_x, reserve_y),
    {
        let data = self.instruction_data;
        let curve = if data.is_x {
            swap(reserve_x, reserve_y, fee, data.amount, data.min)
        } else {
            swap(reserve_y, reserve_x, fee, data.amount, data.min)
        };
        match curve {
            Err(_) => Err(AmmError::InvalidArgument),
            Ok((deposit, withdraw)) => {
                if deposit == 0 || withdraw == 0 {
                    Err(AmmError::InvalidArgument)
                } else {
                    Ok((deposit, withdraw))
                }
            },
        }
    }

    /// Validates the swap before any fund moves: the pool record loads and
    /// permits swaps, the vaults are the pool's, and the curve accepts the
    /// trade. Returns what is deposited and what is withdrawn.
    pub fn check(
        &self,
        config_data: &[u8],
        config_owner: &Pubkey,
        reserve_x: u64,
        reserve_y: u64,
    ) -> (r: Result<(u64, u64), AmmError>)
        ensures
            r == swap_check_spec(
                self.accounts,
                self.instruction_data,
                config_data@,
                config_owner@,
                reserve_x,
                reserve_y,
            ),
    {
        let config = Config::load(config_data, config_owner)?;
        if !config.can_swap() {
            return Err(AmmError::InvalidAccountData);
        }
        let a = &self.accounts;
        check_vaults(&config, &a.config, &a.token_program, &a.vault_x, &a.vault_y)?;
        self.quote(config.fee(), reserve_x, reserve_y)
    }

    /// The execution phase: the caller pays `deposit` of the input asset into
    /// its vault under its own signature, then the pool record pays
    /// `withdraw` of the other asset out of its vault under the pool's seeds.
    pub fn transfer(&self, deposit: u64, withdraw: u64) -> (r: Vec<TokenInstruction>)
        ensures
            self.instruction_data.is_x ==> r@ == seq![
                TokenInstruction::Transfer {
                    from: self.accounts.user_x_ata,
                    to: self.accounts.vault_x,
                    authority: self.accounts.user,
                    amount: deposit,
                    pool_signs: false,
                },
                TokenInstruction::Transfer {
                    from: self.accounts.vault_y,
                    to: self.accounts.user_y_ata,
                    authority: self.accounts.config,
                    amount: withdraw,
                    pool_signs: true,
                },
            ],
            !self.instruction_data.is_x ==> r@ == seq![
                TokenInstruction::Transfer {
                    from: self.accounts.user_y_ata,
                    to: self.accounts.vault_y,
                    authority: self.accounts.user,
                    amount: deposit,
                    pool_signs: false,
                },
                TokenInstruction::Transfer {
                    from: self.accounts.vault_x,
                    to: self.accounts.user_x_ata,
                    authority: self.accounts.config,
                    amount: withdraw,
                    pool_signs: true,
                },
            ],
    {
        let a = &self.accounts;
        let (user_in, vault_in, vault_out, user_out) = if self.instruction_data.is_x {
            (a.user_x_ata, a.vault_x, a.vault_y, a.user_y_ata)
        } else {
            (a.user_y_ata, a.vault_y, a.vault_x, a.user_x_ata)
        };
        let mut out: Vec<TokenInstruction> = Vec::new();
        out.push(
            TokenInstruction::Transfer {
                from: user_in,
                to: vault_in,
                authority: a.user,
                amount: deposit,
                pool_signs: false,
            },
        );
        out.push(
            TokenInstruction::Transfer {
                from: vault_out,
                to: user_out,
                authority: a.config,
                amount: withdraw,
                pool_signs: true,
            },
        );
        assert(out@ =~= seq![
            TokenInstruction::Transfer {
                from: user_in,
                to: vault_in,
                authority: a.user,
                amount: deposit,
                pool_signs: false,
            },
            TokenInstruction::Transfer {
                from: vault_out,
                to: user_out,
                authority: a.config,
                amount: withdraw,
                pool_signs: true,
            },
        ]);
        out
    }
}

} // verus!

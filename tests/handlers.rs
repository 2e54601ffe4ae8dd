use pinocchio_amm::address::{derive_config, derive_mint_lp, derive_vault, Pubkey, ID};
use pinocchio_amm::deposit::{Deposit, DepositInstructionData};
use pinocchio_amm::initialize::{Initialize, InitializeBumps, InitializeInstructionData};
use pinocchio_amm::instruction::{split_instruction, InstructionKind};
use pinocchio_amm::state::{AmmState, Config};
use pinocchio_amm::swap::{Swap, SwapInstructionData};
use pinocchio_amm::token::TokenInstruction;
use pinocchio_amm::withdraw::{Withdraw, WithdrawInstructionData};
use pinocchio_amm::AmmError;

const NOW: i64 = 1_700_000_000;
const LATER: i64 = NOW + 60;

fn key(b: u8) -> Pubkey {
    [b; 32]
}

const SEED: [u8; 8] = [7; 8];
const BUMPS: InitializeBumps = InitializeBumps { config: 255, mint_lp: 254, vault_x: 253, vault_y: 252 };

fn user() -> Pubkey {
    key(100)
}
fn token_program() -> Pubkey {
    key(101)
}
fn mint_x() -> Pubkey {
    key(1)
}
fn mint_y() -> Pubkey {
    key(2)
}
fn config_key() -> Pubkey {
    derive_config(&SEED, &mint_x(), &mint_y(), BUMPS.config)
}
fn mint_lp() -> Pubkey {
    derive_mint_lp(&config_key(), BUMPS.mint_lp)
}
fn vault_x() -> Pubkey {
    derive_vault(&config_key(), &token_program(), &mint_x(), BUMPS.vault_x)
}
fn vault_y() -> Pubkey {
    derive_vault(&config_key(), &token_program(), &mint_y(), BUMPS.vault_y)
}

fn init_payload(fee: u16, authority: Option<Pubkey>) -> Vec<u8> {
    let mut d = SEED.to_vec();
    d.extend_from_slice(&fee.to_le_bytes());
    d.extend_from_slice(&mint_x());
    d.extend_from_slice(&mint_y());
    if let Some(a) = authority {
        d.extend_from_slice(&a);
    }
    d
}

fn init_accounts(mint_lp: Pubkey, config: Pubkey) -> Vec<Pubkey> {
    vec![user(), mint_lp, config, key(0), token_program()]
}

fn pool_bytes(state: AmmState, fee: u16) -> Vec<u8> {
    let init = Initialize::try_from(&init_payload(fee, None), &init_accounts(mint_lp(), config_key())).unwrap();
    let mut config = init.check(&BUMPS).unwrap();
    config.set_state(state.to_u8()).unwrap();
    config.to_bytes()
}

fn words(w: [u64; 4]) -> Vec<u8> {
    w.iter().flat_map(|v| v.to_le_bytes()).collect()
}

fn swap_payload(is_x: u8, amount: u64, min: u64, expiration: i64) -> Vec<u8> {
    let mut d = vec![is_x];
    d.extend_from_slice(&amount.to_le_bytes());
    d.extend_from_slice(&min.to_le_bytes());
    d.extend_from_slice(&expiration.to_le_bytes());
    d
}

fn lp_accounts() -> Vec<Pubkey> {
    vec![user(), mint_lp(), vault_x(), vault_y(), key(11), key(12), key(13), config_key(), token_program()]
}

fn swap_accounts() -> Vec<Pubkey> {
    vec![user(), key(11), key(12), vault_x(), vault_y(), config_key(), token_program()]
}

fn deposit(amount: u64, max_x: u64, max_y: u64) -> Deposit {
    Deposit::try_from(&words([amount, max_x, max_y, LATER as u64]), &lp_accounts(), NOW).unwrap()
}

fn withdraw(amount: u64, min_x: u64, min_y: u64) -> Withdraw {
    Withdraw::try_from(&words([amount, min_x, min_y, LATER as u64]), &lp_accounts(), NOW).unwrap()
}

fn swap(is_x: u8, amount: u64, min: u64) -> Swap {
    Swap::try_from(&swap_payload(is_x, amount, min, LATER), &swap_accounts(), NOW).unwrap()
}

#[test]
fn initialize_builds_the_record() {
    let init = Initialize::try_from(&init_payload(30, Some(key(9))), &init_accounts(mint_lp(), config_key())).unwrap();
    let config = init.check(&BUMPS).unwrap();
    assert_eq!(config.state(), 1);
    assert_eq!(config.fee(), 30);
    assert_eq!(config.seed(), &SEED);
    assert_eq!(config.mint_x(), &mint_x());
    assert_eq!(config.mint_y(), &mint_y());
    assert_eq!(config.has_authority(), Some(key(9)));
    assert_eq!(config.config_bump(), &[255]);
    assert_eq!(config.mint_lp_bump(), &[254]);
    assert_eq!(config.vault_x_bump(), &[253]);
    assert_eq!(config.vault_y_bump(), &[252]);
}

#[test]
fn initialize_without_authority_has_no_admin() {
    let data = InitializeInstructionData::try_from(&init_payload(30, None)).unwrap();
    assert_eq!(data.authority, [0; 32]);
    assert_eq!(data.fee, 30);
    let init = Initialize::try_from(&init_payload(30, None), &init_accounts(mint_lp(), config_key())).unwrap();
    assert_eq!(init.check(&BUMPS).unwrap().has_authority(), None);
}

#[test]
fn initialize_rejects_whole_fee() {
    let init = Initialize::try_from(&init_payload(10_000, None), &init_accounts(mint_lp(), config_key())).unwrap();
    assert_eq!(init.check(&BUMPS).err(), Some(AmmError::InvalidAccountData));
    let init = Initialize::try_from(&init_payload(9_999, None), &init_accounts(mint_lp(), config_key())).unwrap();
    assert!(init.check(&BUMPS).is_ok());
}

#[test]
fn initialize_rejects_addresses_off_their_derivation() {
    let init = Initialize::try_from(&init_payload(30, None), &init_accounts(key(50), config_key())).unwrap();
    assert_eq!(init.check(&BUMPS).err(), Some(AmmError::InvalidSeeds));
    let other = derive_mint_lp(&key(51), BUMPS.mint_lp);
    let init = Initialize::try_from(&init_payload(30, None), &init_accounts(other, key(51))).unwrap();
    assert_eq!(init.check(&BUMPS).err(), Some(AmmError::InvalidSeeds));
    let init = Initialize::try_from(&init_payload(30, None), &init_accounts(mint_lp(), config_key())).unwrap();
    let wrong_bump = InitializeBumps { mint_lp: 1, ..BUMPS };
    assert_eq!(init.check(&wrong_bump).err(), Some(AmmError::InvalidSeeds));
}

#[test]
fn initialize_payload_and_account_count() {
    assert_eq!(InitializeInstructionData::try_from(&[0u8; 75]).err(), Some(AmmError::InvalidInstructionData));
    assert_eq!(
        Initialize::try_from(&init_payload(30, None), &[key(1); 4]).err(),
        Some(AmmError::NotEnoughAccountKeys)
    );
}

#[test]
fn bump_search_needs_the_ledger() {
    let init = Initialize::try_from(&init_payload(30, None), &init_accounts(mint_lp(), config_key())).unwrap();
    assert_eq!(init.find_bumps().err(), Some(AmmError::InvalidSeeds));
}

#[test]
fn first_deposit_takes_the_maximums() {
    let bytes = pool_bytes(AmmState::Initialized, 30);
    let d = deposit(1, 1000, 2000);
    assert_eq!(d.check(&bytes, &ID, 0, 0, 0), Ok((1000, 2000)));
    let plan = d.transfer_to_vault_and_mint_to_user(1000, 2000);
    assert_eq!(
        plan,
        vec![
            TokenInstruction::Transfer { from: key(11), to: vault_x(), authority: user(), amount: 1000, pool_signs: false },
            TokenInstruction::Transfer { from: key(12), to: vault_y(), authority: user(), amount: 2000, pool_signs: false },
            TokenInstruction::MintTo { mint: mint_lp(), account: key(13), mint_authority: config_key(), amount: 1 },
        ]
    );
}

#[test]
fn later_deposit_is_proportional() {
    let bytes = pool_bytes(AmmState::Initialized, 30);
    assert_eq!(deposit(10, 1000, 1000).check(&bytes, &ID, 100, 1000, 2000), Ok((100, 200)));
}

#[test]
fn deposit_slippage_guard() {
    let bytes = pool_bytes(AmmState::Initialized, 30);
    assert_eq!(deposit(10, 99, 1000).check(&bytes, &ID, 100, 1000, 2000), Err(AmmError::InvalidArgument));
    assert_eq!(deposit(10, 100, 199).check(&bytes, &ID, 100, 1000, 2000), Err(AmmError::InvalidArgument));
}

#[test]
fn deposit_payload_rules() {
    assert_eq!(
        DepositInstructionData::try_from(&words([0, 1, 1, LATER as u64]), NOW),
        Err(AmmError::InvalidInstructionData)
    );
    assert_eq!(
        DepositInstructionData::try_from(&words([1, 0, 1, LATER as u64]), NOW),
        Err(AmmError::InvalidInstructionData)
    );
    assert_eq!(
        DepositInstructionData::try_from(&words([1, 1, 1, NOW as u64]), NOW),
        Err(AmmError::InvalidArgument)
    );
    assert_eq!(
        DepositInstructionData::try_from(&words([5, 6, 7, LATER as u64]), NOW),
        Ok(DepositInstructionData { amount: 5, max_x: 6, max_y: 7, expiration: LATER })
    );
    assert_eq!(DepositInstructionData::try_from(&[1u8; 31], NOW), Err(AmmError::InvalidInstructionData));
    assert_eq!(
        Deposit::try_from(&words([5, 6, 7, LATER as u64]), &[key(1); 8], NOW).err(),
        Some(AmmError::NotEnoughAccountKeys)
    );
}

#[test]
fn deposit_rejects_foreign_accounts() {
    let bytes = pool_bytes(AmmState::Initialized, 30);
    let mut d = deposit(10, 1000, 1000);
    d.accounts.vault_x = key(60);
    assert_eq!(d.check(&bytes, &ID, 100, 1000, 2000), Err(AmmError::InvalidAccountData));
    let mut d = deposit(10, 1000, 1000);
    d.accounts.mint_lp = key(61);
    assert_eq!(d.check(&bytes, &ID, 100, 1000, 2000), Err(AmmError::InvalidAccountData));
    let d = deposit(10, 1000, 1000);
    assert_eq!(d.check(&bytes, &key(62), 100, 1000, 2000), Err(AmmError::InvalidAccountOwner));
}

#[test]
fn withdraw_returns_the_share() {
    let bytes = pool_bytes(AmmState::Initialized, 30);
    let w = withdraw(10, 1, 1);
    assert_eq!(w.check(&bytes, &ID, 100, 1000, 2000), Ok((100, 200)));
    assert_eq!(
        w.transfer_tokens_and_burn_lp_tokens(100, 200),
        vec![
            TokenInstruction::Transfer { from: vault_x(), to: key(11), authority: config_key(), amount: 100, pool_signs: true },
            TokenInstruction::Transfer { from: vault_y(), to: key(12), authority: config_key(), amount: 200, pool_signs: true },
            TokenInstruction::Burn { mint: mint_lp(), account: key(13), authority: user(), amount: 10 },
        ]
    );
}

#[test]
fn withdraw_everything_and_slippage() {
    let bytes = pool_bytes(AmmState::Initialized, 30);
    assert_eq!(withdraw(100, 1, 1).check(&bytes, &ID, 100, 1001, 2003), Ok((1001, 2003)));
    assert_eq!(withdraw(10, 101, 1).check(&bytes, &ID, 100, 1000, 2000), Err(AmmError::InvalidArgument));
    assert_eq!(withdraw(101, 1, 1).check(&bytes, &ID, 100, 1000, 2000), Err(AmmError::InvalidArgument));
}

#[test]
fn withdraw_allowed_when_withdraw_only() {
    let bytes = pool_bytes(AmmState::WithdrawOnly, 30);
    assert_eq!(withdraw(10, 1, 1).check(&bytes, &ID, 100, 1000, 2000), Ok((100, 200)));
    assert_eq!(deposit(10, 1000, 1000).check(&bytes, &ID, 100, 1000, 2000), Err(AmmError::InvalidAccountData));
    assert_eq!(swap(1, 100, 1).check(&bytes, &ID, 1000, 2000), Err(AmmError::InvalidAccountData));
}

#[test]
fn withdraw_payload_rules() {
    assert_eq!(
        WithdrawInstructionData::try_from(&words([0, 1, 1, LATER as u64]), NOW),
        Err(AmmError::InvalidInstructionData)
    );
    assert_eq!(
        WithdrawInstructionData::try_from(&words([1, 1, 1, (NOW - 1) as u64]), NOW),
        Err(AmmError::InvalidArgument)
    );
}

#[test]
fn swap_x_for_y_on_thirty_bps_pool() {
    let bytes = pool_bytes(AmmState::Initialized, 30);
    let s = swap(1, 100, 1);
    let (deposit, withdraw) = s.check(&bytes, &ID, 1000, 2000).unwrap();
    assert_eq!((deposit, withdraw), (100, 180));
    assert!(withdraw < 200);
    assert_eq!(swap(1, 100, 180).check(&bytes, &ID, 1000, 2000), Ok((100, 180)));
    assert_eq!(swap(1, 100, 181).check(&bytes, &ID, 1000, 2000), Err(AmmError::InvalidArgument));
    assert_eq!(
        s.transfer(100, 180),
        vec![
            TokenInstruction::Transfer { from: key(11), to: vault_x(), authority: user(), amount: 100, pool_signs: false },
            TokenInstruction::Transfer { from: vault_y(), to: key(12), authority: config_key(), amount: 180, pool_signs: true },
        ]
    );
}

#[test]
fn swap_y_for_x_uses_the_other_side() {
    let bytes = pool_bytes(AmmState::Initialized, 0);
    // 1000 * 2000 / (2000 + 2000) = 500.
    let s = swap(0, 2000, 1);
    assert_eq!(s.check(&bytes, &ID, 1000, 2000), Ok((2000, 500)));
    assert_eq!(
        s.transfer(2000, 500),
        vec![
            TokenInstruction::Transfer { from: key(12), to: vault_y(), authority: user(), amount: 2000, pool_signs: false },
            TokenInstruction::Transfer { from: vault_x(), to: key(11), authority: config_key(), amount: 500, pool_signs: true },
        ]
    );
}

#[test]
fn swap_rejects_zero_output_and_empty_pool() {
    let bytes = pool_bytes(AmmState::Initialized, 30);
    assert_eq!(swap(1, 10, 1).check(&bytes, &ID, 1_000_000, 1), Err(AmmError::InvalidArgument));
    assert_eq!(swap(1, 10, 1).check(&bytes, &ID, 0, 0), Err(AmmError::InvalidArgument));
}

#[test]
fn swap_rejects_foreign_vault() {
    let bytes = pool_bytes(AmmState::Initialized, 30);
    let mut s = swap(1, 100, 1);
    s.accounts.vault_y = key(70);
    assert_eq!(s.check(&bytes, &ID, 1000, 2000), Err(AmmError::InvalidAccountData));
}

#[test]
fn disabled_pool_refuses_everything() {
    let bytes = pool_bytes(AmmState::Disabled, 30);
    assert_eq!(deposit(10, 1000, 1000).check(&bytes, &ID, 100, 1000, 2000), Err(AmmError::InvalidAccountData));
    assert_eq!(withdraw(10, 1, 1).check(&bytes, &ID, 100, 1000, 2000), Err(AmmError::InvalidAccountData));
    assert_eq!(swap(1, 100, 1).check(&bytes, &ID, 1000, 2000), Err(AmmError::InvalidAccountData));
}

#[test]
fn expired_swap_fails_at_parsing() {
    assert_eq!(SwapInstructionData::try_from(&swap_payload(1, 100, 1, NOW - 5), NOW), Err(AmmError::InvalidArgument));
    assert_eq!(SwapInstructionData::try_from(&swap_payload(1, 100, 1, NOW), NOW), Err(AmmError::InvalidArgument));
    assert_eq!(
        Swap::try_from(&swap_payload(1, 100, 1, NOW - 5), &swap_accounts(), NOW).err(),
        Some(AmmError::InvalidArgument)
    );
}

#[test]
fn swap_payload_rules() {
    assert_eq!(
        SwapInstructionData::try_from(&swap_payload(2, 100, 1, LATER), NOW),
        Err(AmmError::InvalidInstructionData)
    );
    assert_eq!(SwapInstructionData::try_from(&swap_payload(1, 0, 1, LATER), NOW), Err(AmmError::InvalidInstructionData));
    assert_eq!(SwapInstructionData::try_from(&swap_payload(1, 1, 0, LATER), NOW), Err(AmmError::InvalidInstructionData));
    assert_eq!(SwapInstructionData::try_from(&[0u8; 24], NOW), Err(AmmError::InvalidInstructionData));
    assert_eq!(
        SwapInstructionData::try_from(&swap_payload(0, 9, 3, LATER), NOW),
        Ok(SwapInstructionData { is_x: false, amount: 9, min: 3, expiration: LATER })
    );
    assert_eq!(
        Swap::try_from(&swap_payload(1, 100, 1, LATER), &[key(1); 6], NOW).err(),
        Some(AmmError::NotEnoughAccountKeys)
    );
}

#[test]
fn deposit_then_withdraw_returns_no_more_than_paid() {
    let bytes = pool_bytes(AmmState::Initialized, 30);
    let (x, y) = deposit(1, 1000, 2000).check(&bytes, &ID, 3, 1000, 3001).unwrap();
    let (x2, y2) = withdraw(1, 1, 1).check(&bytes, &ID, 4, 1000 + x, 3001 + y).unwrap();
    assert!(x2 <= x && y2 <= y);
}

#[test]
fn instruction_selector() {
    let (kind, payload) = split_instruction(&[3, 9, 8]).unwrap();
    assert_eq!(kind, InstructionKind::Swap);
    assert_eq!(payload, &[9, 8]);
    assert_eq!(split_instruction(&[0]).unwrap().0, InstructionKind::Initialize);
    assert_eq!(split_instruction(&[1]).unwrap().0, InstructionKind::Deposit);
    assert_eq!(split_instruction(&[2]).unwrap().0, InstructionKind::Withdraw);
    assert_eq!(split_instruction(&[4, 1]).err(), Some(AmmError::InvalidInstructionData));
    assert_eq!(split_instruction(&[]).err(), Some(AmmError::InvalidInstructionData));
    assert_eq!(Initialize::DISCRIMINATOR, 0);
    assert_eq!(Deposit::DISCRIMINATOR, 1);
    assert_eq!(Withdraw::DISCRIMINATOR, 2);
    assert_eq!(Swap::DISCRIMINATOR, 3);
    assert_eq!(Config::LEN, 111);
}

#[test]
fn first_deposit_ignores_tokens_sent_to_empty_pool() {
    let bytes = pool_bytes(AmmState::Initialized, 30);
    assert_eq!(deposit(1, 1000, 2000).check(&bytes, &ID, 0, 5, 0), Ok((1000, 2000)));
    assert_eq!(deposit(1, 1000, 2000).check(&bytes, &ID, 0, 5, 7), Ok((1000, 2000)));
}

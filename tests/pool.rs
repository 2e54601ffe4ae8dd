use pinocchio_amm::address::{
    derive_config, derive_mint_lp, derive_vault, same_key, Pubkey, ASSOCIATED_TOKEN_PROGRAM_ID,
    CONFIG_SEED, ID, MINT_LP_SEED,
};
use pinocchio_amm::state::{AmmState, Config};
use pinocchio_amm::AmmError;

fn key(b: u8) -> Pubkey {
    [b; 32]
}

fn sample_config() -> Config {
    Config::new(AmmState::Initialized, [7; 8], key(9), key(1), key(2), 30, [255], [254], [253], [252]).unwrap()
}

#[test]
fn program_ids_match_their_base58_names() {
    assert_eq!(ID, pinocchio_pubkey::from_str("22222222222222222222222222222222222222222222"));
    assert_eq!(ASSOCIATED_TOKEN_PROGRAM_ID, pinocchio_associated_token_account::ID);
    assert_eq!(&MINT_LP_SEED, b"mint_lp");
    assert_eq!(&CONFIG_SEED, b"config");
}

#[test]
fn derived_addresses_hash_their_seeds() {
    let config = key(3);
    let mint_lp = derive_mint_lp(&config, 250);
    assert_ne!(mint_lp, config);
    assert_eq!(mint_lp, pinocchio_pubkey::derive_address_const(&[b"mint_lp", &config], Some(250), &ID));
    assert_ne!(derive_mint_lp(&config, 251), mint_lp);
    let vault = derive_vault(&config, &key(4), &key(1), 200);
    assert_eq!(
        vault,
        pinocchio_pubkey::derive_address_const(&[&config, &key(4), &key(1)], Some(200), &ASSOCIATED_TOKEN_PROGRAM_ID)
    );
    let pool = derive_config(&[7; 8], &key(1), &key(2), 255);
    assert_eq!(
        pool,
        pinocchio_pubkey::derive_address_const(&[b"config", &[7; 8], &key(1), &key(2)], Some(255), &ID)
    );
}

#[test]
fn same_key_compares_every_byte() {
    let a = key(5);
    let mut b = key(5);
    assert!(same_key(&a, &b));
    b[31] = 6;
    assert!(!same_key(&a, &b));
}

#[test]
fn config_bytes_round_trip() {
    let c = sample_config();
    let bytes = c.to_bytes();
    assert_eq!(bytes.len(), Config::LEN);
    assert_eq!(bytes[0], 1);
    assert_eq!(&bytes[105..107], &30u16.to_le_bytes());
    assert_eq!(&bytes[107..111], &[255, 254, 253, 252]);
    let back = Config::load(&bytes, &ID).unwrap();
    assert_eq!(back.to_bytes(), bytes);
    assert_eq!(back.fee(), 30);
    assert_eq!(back.seed(), &[7; 8]);
    assert_eq!(back.mint_x(), &key(1));
    assert_eq!(back.mint_y(), &key(2));
    assert_eq!(back.authority(), &key(9));
    assert_eq!(back.config_bump(), &[255]);
    assert_eq!(back.vault_x_bump(), &[254]);
    assert_eq!(back.vault_y_bump(), &[253]);
    assert_eq!(back.mint_lp_bump(), &[252]);
}

#[test]
fn config_load_rejects_bad_accounts() {
    let bytes = sample_config().to_bytes();
    assert_eq!(Config::load(&bytes[..110], &ID).err(), Some(AmmError::InvalidAccountData));
    let mut longer = bytes.clone();
    longer.push(0);
    assert_eq!(Config::load(&longer, &ID).err(), Some(AmmError::InvalidAccountData));
    assert_eq!(Config::load(&bytes, &key(8)).err(), Some(AmmError::InvalidAccountOwner));
    let mut bad_state = bytes.clone();
    bad_state[0] = 4;
    assert_eq!(Config::load(&bad_state, &ID).err(), Some(AmmError::InvalidAccountData));
    bad_state[0] = 0;
    assert_eq!(Config::load(&bad_state, &ID).err(), Some(AmmError::InvalidAccountData));
    let mut bad_fee = bytes.clone();
    bad_fee[105..107].copy_from_slice(&10_000u16.to_le_bytes());
    assert_eq!(Config::load(&bad_fee, &ID).err(), Some(AmmError::InvalidAccountData));
}

#[test]
fn state_permissions() {
    let mut c = sample_config();
    assert!(c.can_deposit() && c.can_withdraw() && c.can_swap());
    assert_eq!(c.set_state(AmmState::WithdrawOnly.to_u8()), Ok(()));
    assert_eq!(c.state(), 3);
    assert!(!c.can_deposit() && c.can_withdraw() && !c.can_swap());
    assert_eq!(c.set_state(AmmState::Disabled.to_u8()), Ok(()));
    assert!(!c.can_deposit() && !c.can_withdraw() && !c.can_swap());
    assert_eq!(c.set_state(0), Err(AmmError::InvalidAccountData));
    assert_eq!(c.set_state(4), Err(AmmError::InvalidAccountData));
    assert_eq!(c.state(), 2);
}

#[test]
fn fee_must_stay_below_one_whole() {
    let mut c = sample_config();
    assert_eq!(c.set_fee(10_000), Err(AmmError::InvalidAccountData));
    assert_eq!(c.fee(), 30);
    assert_eq!(c.set_fee(9_999), Ok(()));
    assert_eq!(c.fee(), 9_999);
    assert!(Config::new(AmmState::Initialized, [0; 8], key(0), key(1), key(2), 10_000, [0], [0], [0], [0]).is_err());
}

#[test]
fn set_inner_refuses_whole_fee_without_writing() {
    let mut c = sample_config();
    let before = c.to_bytes();
    let r = c.set_inner(AmmState::Disabled, [1; 8], key(0), key(3), key(4), 10_000, [1], [2], [3], [4]);
    assert_eq!(r, Err(AmmError::InvalidAccountData));
    assert_eq!(c.to_bytes(), before);
    let r = c.set_inner(AmmState::Disabled, [1; 8], key(0), key(3), key(4), 5, [1], [2], [3], [4]);
    assert_eq!(r, Ok(()));
    assert_eq!(c.state(), 2);
    assert_eq!(c.mint_x(), &key(3));
    assert_eq!(c.fee(), 5);
}

#[test]
fn authority_all_zero_means_none() {
    let c = sample_config();
    assert_eq!(c.has_authority(), Some(key(9)));
    let mut c2 = sample_config();
    c2.set_authority(key(0));
    assert_eq!(c2.has_authority(), None);
    let mut last = key(0);
    last[31] = 1;
    c2.set_authority(last);
    assert_eq!(c2.has_authority(), Some(last));
}

#[test]
fn signer_seeds_are_the_record_seeds_and_bump() {
    let c = sample_config();
    let seeds = c.signer_seeds();
    assert_eq!(seeds, vec![b"config".to_vec(), vec![7; 8], key(1).to_vec(), key(2).to_vec(), vec![255]]);
}

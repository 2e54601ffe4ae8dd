//! The pool record: one per trading pair, stored in a program-owned account
//! with a fixed byte layout.
use vstd::prelude::*;
use vstd::bytes::{spec_u16_from_le_bytes, spec_u16_to_le_bytes};
use crate::address::{CONFIG_SEED, ID, Pubkey, config_seeds, same_key};
use crate::bytes::{read_array, read_u16, push_all, push_u16};
use crate::curve::FEE_DENOMINATOR;
use crate::error::AmmError;

verus! {

/// Which operations a pool permits.
#[derive(Debug, Clone, Copy, PartialEq, Eq, Structural)]
pub enum AmmState {
    /// Deposits, withdrawals and swaps.
    Initialized,
    /// Nothing.
    Disabled,
    /// Withdrawals only.
    WithdrawOnly,
}

/// The byte that stands for `s` in the record.
pub open spec fn state_byte(s: AmmState) -> u8 {
    match s {
        AmmState::Initialized => 1,
        AmmState::Disabled => 2,
        AmmState::WithdrawOnly => 3,
    }
}

/// Whether `b` stands for one of the three states.
pub open spec fn valid_state_byte(b: u8) -> bool {
    1 <= b <= 3
}

impl AmmState {
    /// The byte that stands for this state in the record.
    pub fn to_u8(self) -> (r: u8)
        ensures
            r == state_byte(self),
    {
        match self {
            AmmState::Initialized => 1,
            AmmState::Disabled => 2,
            AmmState::WithdrawOnly => 3,
        }
    }
}

/// The record's fields as values.
pub struct ConfigView {
    pub state: u8,
    pub seed: Seq<u8>,
    pub authority: Seq<u8>,
    pub mint_x: Seq<u8>,
    pub mint_y: Seq<u8>,
    pub fee: u16,
    pub config_bump: u8,
    pub vault_x_bump: u8,
    pub vault_y_bump: u8,
    pub mint_lp_bump: u8,
}

impl ConfigView {
    /// A state the pool can be in and a fee below one whole.
    pub open spec fn wf(self) -> bool {
        &&& valid_state_byte(self.state)
        &&& self.fee < FEE_DENOMINATOR
        &&& self.seed.len() == 8
        &&& self.authority.len() == 32
        &&& self.mint_x.len() == 32
        &&& self.mint_y.len() == 32
    }

    pub open spec fn can_deposit(self) -> bool {
        self.state == 1
    }

    pub open spec fn can_withdraw(self) -> bool {
        self.state == 1 || self.state == 3
    }

    pub open spec fn can_swap(self) -> bool {
        self.state == 1
    }

    /// Whether the pool has an admin: the all-zero key means none.
    pub open spec fn has_authority(self) -> bool {
        exists|i: int| 0 <= i < self.authority.len() && self.authority[i] != 0
    }
}

/// The record's bytes: state, seed, authority, the two mints, the fee in
/// little-endian order and the four bumps.
pub open spec fn encode_config(v: ConfigView) -> Seq<u8> {
    seq![v.state] + v.seed + v.authority + v.mint_x + v.mint_y + spec_u16_to_le_bytes(v.fee) + seq![
        v.config_bump,
        v.vault_x_bump,
        v.vault_y_bump,
        v.mint_lp_bump,
    ]
}

/// The fields that `Config::LEN` bytes hold.
pub open spec fn decode_config(d: Seq<u8>) -> ConfigView {
    ConfigView {
        state: d[0],
        seed: d.subrange(1, 9),
        authority: d.subrange(9, 41),
        mint_x: d.subrange(41, 73),
        mint_y: d.subrange(73, 105),
        fee: spec_u16_from_le_bytes(d.subrange(105, 107)),
        config_bump: d[107],
        vault_x_bump: d[108],
        vault_y_bump: d[109],
        mint_lp_bump: d[110],
    }
}

/// What loading a record from an account with bytes `data` and owner
/// `owner` gives.
pub open spec fn load_config_spec(data: Seq<u8>, owner: Seq<u8>) -> Result<ConfigView, AmmError> {
    if data.len() != Config::LEN {
        Err(AmmError::InvalidAccountData)
    } else if owner != ID@ {
        Err(AmmError::InvalidAccountOwner)
    } else if !decode_config(data).wf() {
        Err(AmmError::InvalidAccountData)
    } else {
        Ok(decode_config(data))
    }
}

/// The values of a loaded record, or the error.
pub open spec fn loaded_view(r: Result<Config, AmmError>) -> Result<ConfigView, AmmError> {
    match r {
        Ok(c) => Ok(c@),
        Err(e) => Err(e),
    }
}

/// Reading back the bytes of a record gives the record.
pub proof fn lemma_config_bytes_round_trip(v: ConfigView)
    requires
        v.seed.len() == 8,
        v.authority.len() == 32,
        v.mint_x.len() == 32,
        v.mint_y.len() == 32,
    ensures
        encode_config(v).len() == Config::LEN,
        decode_config(encode_config(v)) == v,
{
    vstd::bytes::lemma_auto_spec_u16_to_from_le_bytes();
    let d = encode_config(v);
    assert(d.subrange(1, 9) =~= v.seed);
    assert(d.subrange(9, 41) =~= v.authority);
    assert(d.subrange(41, 73) =~= v.mint_x);
    assert(d.subrange(73, 105) =~= v.mint_y);
    assert(d.subrange(105, 107) =~= spec_u16_to_le_bytes(v.fee));
}

/// A pool record: the trading pair, its fee, its state, and the bumps of its
/// derived accounts.
pub struct Config {
    state: u8,
    seed: [u8; 8],
    authority: Pubkey,
    mint_x: Pubkey,
    mint_y: Pubkey,
    fee: u16,
    config_bump: [u8; 1],
    vault_x_bump: [u8; 1],
    vault_y_bump: [u8; 1],
    mint_lp_bump: [u8; 1],
}

impl View for Config {
    type V = ConfigView;

    closed spec fn view(&self) -> ConfigView {
        ConfigView {
            state: self.state,
            seed: self.seed@,
            authority: self.authority@,
            mint_x: self.mint_x@,
            mint_y: self.mint_y@,
            fee: self.fee,
            config_bump: self.config_bump[0],
            vault_x_bump: self.vault_x_bump[0],
            vault_y_bump: self.vault_y_bump[0],
            mint_lp_bump: self.mint_lp_bump[0],
        }
    }
}

impl Config {
    /// The length of a record's bytes.
    pub const LEN: usize = 111;

    #[verifier::type_invariant]
    closed spec fn inv(&self) -> bool {
        valid_state_byte(self.state) && self.fee < FEE_DENOMINATOR
    }

    /// A record with the given fields; fails when the fee is a whole or more.
    pub fn new(
        state: AmmState,
        seed: [u8; 8],
        authority: Pubkey,
        mint_x: Pubkey,
        mint_y: Pubkey,
        fee: u16,
        config_bump: [u8; 1],
        vault_x_bump: [u8; 1],
        vault_y_bump: [u8; 1],
        mint_lp_bump: [u8; 1],
    ) -> (r: Result<Config, AmmError>)
        ensures
            fee >= FEE_DENOMINATOR ==> r == Err::<Config, AmmError>(AmmError::InvalidAccountData),
            fee < FEE_DENOMINATOR ==> (r matches Ok(c) && c@ == (ConfigView {
                state: state_byte(state),
                seed: seed@,
                authority: authority@,
                mint_x: mint_x@,
                mint_y: mint_y@,
                fee,
                config_bump: config_bump[0],
                vault_x_bump: vault_x_bump[0],
                vault_y_bump: vault_y_bump[0],
                mint_lp_bump: mint_lp_bump[0],
            })),
    {
        if fee as u64 >= FEE_DENOMINATOR {
            return Err(AmmError::InvalidAccountData);
        }
        Ok(Config {
            state: state.to_u8(),
            seed,
            authority,
            mint_x,
            mint_y,
            fee,
            config_bump,
            vault_x_bump,
            vault_y_bump,
            mint_lp_bump,
        })
    }

    /// Reads a record from an account's bytes, checking that the account is
    /// exactly as long as the layout, that this program owns it, and that its
    /// state and fee are in range.
    pub fn load(data: &[u8], owner: &Pubkey) -> (r: Result<Config, AmmError>)
        ensures
            loaded_view(r) == load_config_spec(data@, owner@),
    {
        if data.len() != Self::LEN {
            return Err(AmmError::InvalidAccountData);
        }
        if !same_key(owner, &ID) {
            return Err(AmmError::InvalidAccountOwner);
        }
        let state = data[0];
        let fee = read_u16(data, 105);
        if state < 1 || state > 3 || fee as u64 >= FEE_DENOMINATOR {
            return Err(AmmError::InvalidAccountData);
        }
        let c = Config {
            state,
            seed: read_array(data, 1),
            authority: read_array(data, 9),
            mint_x: read_array(data, 41),
            mint_y: read_array(data, 73),
            fee,
            config_bump: [data[107]],
            vault_x_bump: [data[108]],
            vault_y_bump: [data[109]],
            mint_lp_bump: [data[110]],
        };
        assert(c@ == decode_config(data@));
        assert(decode_config(data@).wf());
        Ok(c)
    }

    /// The record's bytes, ready to be stored.
    pub fn to_bytes(&self) -> (r: Vec<u8>)
        ensures
            r@ == encode_config(self@),
            r@.len() == Config::LEN,
    {
        let mut out: Vec<u8> = Vec::new();
        out.push(self.state);
        push_all(&mut out, self.seed.as_slice());
        push_all(&mut out, self.authority.as_slice());
        push_all(&mut out, self.mint_x.as_slice());
        push_all(&mut out, self.mint_y.as_slice());
        push_u16(&mut out, self.fee);
        out.push(self.config_bump[0]);
        out.push(self.vault_x_bump[0]);
        out.push(self.vault_y_bump[0]);
        out.push(self.mint_lp_bump[0]);
        proof {
            lemma_config_bytes_round_trip(self@);
        }
        assert(out@ =~= encode_config(self@));
        out
    }

    /// The seeds with which the pool record signs for its vaults and its
    /// liquidity mint: the seeds of its own address, then its bump.
    pub fn signer_seeds(&self) -> (r: Vec<Vec<u8>>)
        ensures
            r@.map_values(|s: Vec<u8>| s@) == config_seeds(self@.seed, self@.mint_x, self@.mint_y).push(
                seq![self@.config_bump],
            ),
    {
        let mut out: Vec<Vec<u8>> = Vec::new();
        out.push(vstd::slice::slice_to_vec(CONFIG_SEED.as_slice()));
        out.push(vstd::slice::slice_to_vec(self.seed.as_slice()));
        out.push(vstd::slice::slice_to_vec(self.mint_x.as_slice()));
        out.push(vstd::slice::slice_to_vec(self.mint_y.as_slice()));
        out.push(vstd::slice::slice_to_vec(self.config_bump.as_slice()));
        assert(self.config_bump@ =~= seq![self@.config_bump]);
        assert(out@.map_values(|s: Vec<u8>| s@) =~= config_seeds(
            self@.seed,
            self@.mint_x,
            self@.mint_y,
        ).push(seq![self@.config_bump]));
        out
    }

    /// The state byte.
    pub fn state(&self) -> (r: u8)
        ensures
            r == self@.state,
    {
        self.state
    }

    /// Whether the pool permits withdrawals: it is initialized or withdraw-only.
    pub fn can_withdraw(&self) -> (r: bool)
        ensures
            r == self@.can_withdraw(),
    {
        self.state == 1 || self.state == 3
    }

    /// Whether the pool permits deposits: it is initialized.
    pub fn can_deposit(&self) -> (r: bool)
        ensures
            r == self@.can_deposit(),
    {
        self.state == 1
    }

    /// Whether the pool permits swaps: it is initialized.
    pub fn can_swap(&self) -> (r: bool)
        ensures
            r == self@.can_swap(),
    {
        self.state == 1
    }

    pub fn seed(&self) -> (r: &[u8; 8])
        ensures
            r@ == self@.seed,
    {
        &self.seed
    }

    pub fn authority(&self) -> (r: &Pubkey)
        ensures
            r@ == self@.authority,
    {
        &self.authority
    }

    pub fn mint_x(&self) -> (r: &Pubkey)
        ensures
            r@ == self@.mint_x,
    {
        &self.mint_x
    }

    pub fn mint_y(&self) -> (r: &Pubkey)
        ensures
            r@ == self@.mint_y,
    {
        &self.mint_y
    }

    /// The fee in basis points.
    pub fn fee(&self) -> (r: u16)
        ensures
            r == self@.fee,
    {
        self.fee
    }

    pub fn config_bump(&self) -> (r: &[u8; 1])
        ensures
            r[0] == self@.config_bump,
    {
        &self.config_bump
    }

    pub fn mint_lp_bump(&self) -> (r: &[u8; 1])
        ensures
            r[0] == self@.mint_lp_bump,
    {
        &self.mint_lp_bump
    }

    pub fn vault_x_bump(&self) -> (r: &[u8; 1])
        ensures
            r[0] == self@.vault_x_bump,
    {
        &self.vault_x_bump
    }

    pub fn vault_y_bump(&self) -> (r: &[u8; 1])
        ensures
            r[0] == self@.vault_y_bump,
    {
        &self.vault_y_bump
    }

    /// Moves the pool to the state that `state` stands for; any other byte
    /// is refused and leaves the record as it was.
    pub fn set_state(&mut self, state: u8) -> (r: Result<(), AmmError>)
        ensures
            valid_state_byte(state) ==> r is Ok && final(self)@ == (ConfigView { state, ..old(self)@ }),
            !valid_state_byte(state) ==> r == Err::<(), AmmError>(AmmError::InvalidAccountData)
                && final(self)@ == old(self)@,
    {
        if state < 1 || state > 3 {
            return Err(AmmError::InvalidAccountData);
        }
        proof {
            use_type_invariant(&*self);
        }
        self.state = state;
        Ok(())
    }

    /// Sets the fee; a whole or more is refused and leaves the record as it was.
    pub fn set_fee(&mut self, fee: u16) -> (r: Result<(), AmmError>)
        ensures
            fee < FEE_DENOMINATOR ==> r is Ok && final(self)@ == (ConfigView { fee, ..old(self)@ }),
            fee >= FEE_DENOMINATOR ==> r == Err::<(), AmmError>(AmmError::InvalidAccountData)
                && final(self)@ == old(self)@,
    {
        if fee as u64 >= FEE_DENOMINATOR {
            return Err(AmmError::InvalidAccountData);
        }
        proof {
            use_type_invariant(&*self);
        }
        self.fee = fee;
        Ok(())
    }

    pub fn set_seed(&mut self, seed: [u8; 8])
        ensures
            final(self)@ == (ConfigView { seed: seed@, ..old(self)@ }),
    {
        proof {
            use_type_invariant(&*self);
        }
        self.seed = seed;
    }

    pub fn set_authority(&mut self, authority: Pubkey)
        ensures
            final(self)@ == (ConfigView { authority: authority@, ..old(self)@ }),
    {
        proof {
            use_type_invariant(&*self);
        }
        self.authority = authority;
    }

    pub fn set_mint_x(&mut self, mint_x: Pubkey)
        ensures
            final(self)@ == (ConfigView { mint_x: mint_x@, ..old(self)@ }),
    {
        proof {
            use_type_invariant(&*self);
        }
        self.mint_x = mint_x;
    }

    pub fn set_mint_y(&mut self, mint_y: Pubkey)
        ensures
            final(self)@ == (ConfigView { mint_y: mint_y@, ..old(self)@ }),
    {
        proof {
            use_type_invariant(&*self);
        }
        self.mint_y = mint_y;
    }

    pub fn set_config_bump(&mut self, bump: [u8; 1])
        ensures
            final(self)@ == (ConfigView { config_bump: bump[0], ..old(self)@ }),
    {
        proof {
            use_type_invariant(&*self);
        }
        self.config_bump = bump;
    }

    pub fn set_vault_x_bump(&mut self, bump: [u8; 1])
        ensures
            final(self)@ == (ConfigView { vault_x_bump: bump[0], ..old(self)@ }),
    {
        proof {
            use_type_invariant(&*self);
        }
        self.vault_x_bump = bump;
    }

    pub fn set_vault_y_bump(&mut self, bump: [u8; 1])
        ensures
            final(self)@ == (ConfigView { vault_y_bump: bump[0], ..old(self)@ }),
    {
        proof {
            use_type_invariant(&*self);
        }
        self.vault_y_bump = bump;
    }

    pub fn set_mint_lp_bump(&mut self, bump: [u8; 1])
        ensures
            final(self)@ == (ConfigView { mint_lp_bump: bump[0], ..old(self)@ }),
    {
        proof {
            use_type_invariant(&*self);
        }
        self.mint_lp_bump = bump;
    }

    /// Sets every field at once. A fee of a whole or more is refused before
    /// anything is written, so the record is never left half set.
    pub fn set_inner(
        &mut self,
        state: AmmState,
        seed: [u8; 8],
        authority: Pubkey,
        mint_x: Pubkey,
        mint_y: Pubkey,
        fee: u16,
        config_bump: [u8; 1],
        vault_x_bump: [u8; 1],
        vault_y_bump: [u8; 1],
        mint_lp_bump: [u8; 1],
    ) -> (r: Result<(), AmmError>)
        ensures
            fee >= FEE_DENOMINATOR ==> r == Err::<(), AmmError>(AmmError::InvalidAccountData)
                && final(self)@ == old(self)@,
            fee < FEE_DENOMINATOR ==> r is Ok && final(self)@ == (ConfigView {
                state: state_byte(state),
                seed: seed@,
                authority: authority@,
                mint_x: mint_x@,
                mint_y: mint_y@,
                fee,
                config_bump: config_bump[0],
                vault_x_bump: vault_x_bump[0],
                vault_y_bump: vault_y_bump[0],
                mint_lp_bump: mint_lp_bump[0],
            }),
    {
        if fee as u64 >= FEE_DENOMINATOR {
            return Err(AmmError::InvalidAccountData);
        }
        let s = state.to_u8();
        let _ = self.set_state(s);
        self.set_seed(seed);
        self.set_authority(authority);
        self.set_mint_x(mint_x);
        self.set_mint_y(mint_y);
        let _ = self.set_fee(fee);
        self.set_config_bump(config_bump);
        self.set_vault_x_bump(vault_x_bump);
        self.set_vault_y_bump(vault_y_bump);
        self.set_mint_lp_bump(mint_lp_bump);
        Ok(())
    }

    /// The admin key, or `None` when the pool has none (all-zero key).
    pub fn has_authority(&self) -> (r: Option<Pubkey>)
        ensures
            self@.has_authority() ==> (r matches Some(k) && k@ == self@.authority),
            !self@.has_authority() ==> r is None,
    {
        let mut i: usize = 0;
        while i < 32
            invariant
                i <= 32,
                forall|j: int| 0 <= j < i ==> self.authority@[j] == 0,
            decreases 32 - i,
        {
            if self.authority[i] != 0 {
                assert(self@.authority[i as int] != 0);
                return Some(self.authority);
            }
            i = i + 1;
        }
        None
    }
}

} // verus!

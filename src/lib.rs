//! A constant-product automated market maker for an account-based ledger.
//!
//! The library holds the pool record and its byte layout, the liquidity
//! curve, the address derivation that ties every satellite account to its
//! pool, and the validation phase of each instruction. Moving funds is left
//! to the caller, which carries out the token instructions that the
//! execution phase of each handler lists.
pub mod error;
pub mod curve;
pub mod address;
pub mod bytes;
pub mod state;
pub mod token;
pub mod validate;
pub mod initialize;
pub mod instruction;
pub mod deposit;
pub mod withdraw;
pub mod swap;

pub use error::AmmError;
pub use curve::CurveError;
pub use state::{AmmState, Config};

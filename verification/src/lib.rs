//! A marketplace of kitties: creation, breeding, transfer, sale and purchase of kitties, with
//! the storage migration of older kitty layouts.

pub mod dna;
pub mod laws;
pub mod migrations;
pub mod model;
pub mod pallet;
pub mod primitives;
pub mod types;

pub use migrations::{migrate, V0Kitty, V1Kitty};
pub use model::{PalletState, Payment};
pub use pallet::{Config, Entropy, Pallet};
pub use types::{
    ensure_signed, AccountId, ArithmeticError, Balance, BlockNumber, DispatchError, Error, Event,
    Kitty, KittyId, Origin, TokenError,
};

//! A versioned registry of kitties: entities created from scratch or bred from
//! two parents, kept under a binary layout that is upgraded in place from one
//! storage version to the next.

pub mod breeding;
pub mod kitty;
pub mod migrations;
pub mod pallet;
pub mod randomness;
pub mod weather;

pub use kitty::{AccountId, Kitty, KittyId, V0Kitty, V1Kitty};
pub use pallet::{Error, Event, Pallet, STORAGE_VERSION};

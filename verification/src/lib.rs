//! Reversible transformation of BIP39 seed phrases: the entropy of a mnemonic is
//! combined by XOR with a keystream derived from a password, and the result is
//! encoded as a mnemonic again.
pub mod bip39;
pub mod crypto;
pub mod error;
pub mod security;

pub use crate::bip39::validation::{validate, verify_checksum};
pub use crate::crypto::transform::{transform, transform_strict};
pub use crate::error::SCypherError;

//! The keystream and the transformation that uses it.
pub mod kdf;
pub mod transform;
pub mod xor;

pub use crate::crypto::kdf::validate_crypto_params;
pub use crate::crypto::transform::{transform, transform_seed, transform_strict};
pub use crate::crypto::xor::xor_bytes;

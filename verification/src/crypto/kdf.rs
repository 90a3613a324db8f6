//! The keystream: Argon2id of the password, with a fixed salt.
//!
//! The salt is a constant and not random, on purpose: the transformation must be
//! undone with the password alone, so equal passwords and cost parameters must give
//! equal keystreams. The price is that the derivation does not protect against
//! tables computed in advance for one password.
use crate::error::{ErrorView, SCypherError};
use vstd::prelude::*;

verus! {

/// Smallest number of iterations that is accepted.
pub const MIN_ITERATIONS: u32 = 1;

/// Largest number of iterations that is accepted.
pub const MAX_ITERATIONS: u32 = 100;

/// Smallest memory cost that is accepted, in KiB: 8 MiB.
pub const MIN_MEMORY_COST: u32 = 8192;

/// Largest memory cost that is accepted, in KiB: 2 GiB.
pub const MAX_MEMORY_COST: u32 = 2_097_152;

/// Number of lanes of the derivation.
pub const KDF_LANES: u32 = 1;

/// The salt of the derivation: the ASCII text `SCypherV3.0-salt`.
pub const KDF_SALT: [u8; 16] = [
    0x53, 0x43, 0x79, 0x70, 0x68, 0x65, 0x72, 0x56, 0x33, 0x2e, 0x30, 0x2d, 0x73, 0x61, 0x6c, 0x74,
];

/// The error type of the crate argon2; nothing is read from it.
#[verifier::external_type_specification]
#[verifier::external_body]
pub struct ExArgon2Error(argon2::Error);

/// The key that Argon2id, version 0x13, derives from a password and a salt with the
/// given costs, `length` bytes long.
pub uninterp spec fn argon2id(
    password: Seq<u8>,
    salt: Seq<u8>,
    iterations: u32,
    memory_cost_kb: u32,
    lanes: u32,
    length: nat,
) -> Seq<u8>;

/// The inputs that the crate argon2 accepts.
pub open spec fn argon2_accepts(
    password_len: nat,
    salt_len: nat,
    iterations: u32,
    memory_cost_kb: u32,
    lanes: u32,
    length: nat,
) -> bool {
    &&& 1 <= iterations
    &&& 1 <= lanes <= 0xff_ffff
    &&& 8 * lanes <= memory_cost_kb
    &&& 4 <= length <= 0xffff_ffff
    &&& password_len <= 0xffff_ffff
    &&& 8 <= salt_len <= 0xffff_ffff
}

/// `Params::new`, `Argon2::new` and `Argon2::hash_password_into` of the crate argon2,
/// for Argon2id in version 0x13 without secret and associated data.
///
/// The call succeeds on the inputs that the crate accepts: at least one iteration,
/// between one and 2^24 - 1 lanes, at least 8 KiB of memory for each lane, a key of 4
/// to 2^32 - 1 bytes, a salt of 8 to 2^32 - 1 bytes and a password of at most 2^32 - 1
/// bytes. The key then has the length asked for and depends on the arguments alone.
#[verifier::external_body]
fn argon2id_hash(
    password: &[u8],
    salt: &[u8],
    iterations: u32,
    memory_cost_kb: u32,
    lanes: u32,
    length: usize,
) -> (r: Result<Vec<u8>, argon2::Error>)
    requires
        lanes <= 0xff_ffff,
    ensures
        r is Ok <==> argon2_accepts(
            password@.len(),
            salt@.len(),
            iterations,
            memory_cost_kb,
            lanes,
            length as nat,
        ),
        r is Ok ==> (r->Ok_0)@.len() == length && (r->Ok_0)@ == argon2id(
            password@,
            salt@,
            iterations,
            memory_cost_kb,
            lanes,
            length as nat,
        ),
{
    let params = argon2::Params::new(memory_cost_kb, iterations, lanes, Some(length))?;
    let hasher = argon2::Argon2::new(argon2::Algorithm::Argon2id, argon2::Version::V0x13, params);
    let mut key = vec![0u8; length];
    hasher.hash_password_into(password, salt, &mut key)?;
    Ok(key)
}

/// The error for a pair of cost parameters, if they are not accepted: the iterations
/// are looked at first.
pub open spec fn cost_error(iterations: u32, memory_cost: u32) -> Option<ErrorView> {
    if iterations < MIN_ITERATIONS || iterations > MAX_ITERATIONS {
        Some(ErrorView::InvalidIterations(iterations))
    } else if memory_cost < MIN_MEMORY_COST || memory_cost > MAX_MEMORY_COST {
        Some(ErrorView::InvalidMemoryCost(memory_cost))
    } else {
        None
    }
}

/// Checks that the cost parameters are in their accepted ranges: 1 to 100 iterations
/// and 8192 to 2097152 KiB of memory.
pub fn validate_crypto_params(iterations: u32, memory_cost: u32) -> (r: Result<(), SCypherError>)
    ensures
        match r {
            Ok(_) => cost_error(iterations, memory_cost) is None,
            Err(e) => cost_error(iterations, memory_cost) == Some(e@),
        },
{
    if iterations < MIN_ITERATIONS || iterations > MAX_ITERATIONS {
        return Err(SCypherError::InvalidIterations(iterations));
    }
    if memory_cost < MIN_MEMORY_COST || memory_cost > MAX_MEMORY_COST {
        return Err(SCypherError::InvalidMemoryCost(memory_cost));
    }
    Ok(())
}

/// The inputs for which `derive` gives a keystream.
pub open spec fn derive_accepts(
    password_len: nat,
    output_length: nat,
    iterations: u32,
    memory_cost_kb: u32,
) -> bool {
    argon2_accepts(
        password_len,
        KDF_SALT@.len(),
        iterations,
        memory_cost_kb,
        KDF_LANES,
        output_length,
    )
}

/// The keystream for a password, a length and a pair of costs.
pub open spec fn keystream(
    password: Seq<u8>,
    output_length: nat,
    iterations: u32,
    memory_cost_kb: u32,
) -> Seq<u8> {
    argon2id(password, KDF_SALT@, iterations, memory_cost_kb, KDF_LANES, output_length)
}

/// Derives a keystream of `output_length` bytes from a password.
///
/// The keystream is the value of `keystream` on the arguments, so equal arguments
/// give equal keystreams. Where the derivation function refuses the arguments, the
/// answer is `KeyDerivationFailed`.
pub fn derive(password: &[u8], output_length: usize, iterations: u32, memory_cost_kb: u32) -> (r:
    Result<Vec<u8>, SCypherError>)
    ensures
        match r {
            Ok(key) => {
                &&& derive_accepts(
                    password@.len(),
                    output_length as nat,
                    iterations,
                    memory_cost_kb,
                )
                &&& key@ == keystream(password@, output_length as nat, iterations, memory_cost_kb)
                &&& key@.len() == output_length
            },
            Err(e) => {
                &&& !derive_accepts(
                    password@.len(),
                    output_length as nat,
                    iterations,
                    memory_cost_kb,
                )
                &&& e@ == ErrorView::KeyDerivationFailed
            },
        },
{
    let salt = KDF_SALT;
    match argon2id_hash(
        password,
        salt.as_slice(),
        iterations,
        memory_cost_kb,
        KDF_LANES,
        output_length,
    ) {
        Ok(key) => Ok(key),
        Err(_) => Err(SCypherError::KeyDerivationFailed),
    }
}

} // verus!

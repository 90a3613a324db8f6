//! The transformation of a mnemonic under a password.
//!
//! The entropy of the mnemonic is combined by XOR with a keystream as long as the
//! entropy, and the result gets a checksum of its own, so that what comes out is a
//! mnemonic again. The same call with the same password undoes the transformation.
use crate::bip39::checksum::{
    checksum_spec, compute_checksum, lemma_checksum_of_digest_bound, lemma_matching_checksum,
    sha256,
};
use crate::bip39::codec::{
    checksum_width, decode, decode_spec, encode, encode_spec, lemma_decode_encode,
    lemma_encode_decode, lemma_lengths_of_entropy_len, lemma_lengths_of_word_count,
    phrase_view, valid_entropy_len,
};
use crate::bip39::phrase::{format_phrase, join_spec, parse_phrase, split_spec};
use crate::bip39::validation::{
    lemma_decoded_checksum_bound, lemma_decoded_entropy_len, validate, validate_spec,
};
use crate::crypto::kdf::{cost_error, derive_accepts, keystream, validate_crypto_params};
use crate::crypto::xor::{lemma_xor_involution, xor_bytes, xor_spec};
use crate::error::{ErrorView, SCypherError};
use crate::security::memory::zeroize_words;
use crate::security::SecureBytes;
use vstd::prelude::*;
use vstd::string::StringSliceAdditionalSpecFns;
use vstd::utf8::encode_utf8;

verus! {

/// The mnemonic for the XOR of an entropy and a keystream of its length.
pub open spec fn apply_keystream_spec(entropy: Seq<u8>, keystream: Seq<u8>) -> Seq<Seq<char>> {
    let combined = xor_spec(entropy, keystream);
    encode_spec(combined, checksum_spec(combined))
}

/// What `transform` returns.
pub open spec fn transform_spec(
    words: Seq<Seq<char>>,
    password: Seq<u8>,
    iterations: u32,
    memory_cost_kb: u32,
) -> Result<Seq<Seq<char>>, ErrorView> {
    match decode_spec(words) {
        Err(e) => Err(e),
        Ok((entropy, _)) => if derive_accepts(
            password.len(),
            entropy.len(),
            iterations,
            memory_cost_kb,
        ) {
            Ok(
                apply_keystream_spec(
                    entropy,
                    keystream(password, entropy.len(), iterations, memory_cost_kb),
                ),
            )
        } else {
            Err(ErrorView::KeyDerivationFailed)
        },
    }
}

/// What `transform_strict` returns: the cost parameters are checked first, then the
/// mnemonic with its checksum, and only then anything is derived.
pub open spec fn transform_strict_spec(
    words: Seq<Seq<char>>,
    password: Seq<u8>,
    iterations: u32,
    memory_cost_kb: u32,
) -> Result<Seq<Seq<char>>, ErrorView> {
    match cost_error(iterations, memory_cost_kb) {
        Some(e) => Err(e),
        None => match validate_spec(words) {
            Err(e) => Err(e),
            Ok(_) => transform_spec(words, password, iterations, memory_cost_kb),
        },
    }
}

/// What a transformation gives is a mnemonic with a valid checksum, of as many words
/// as went in.
pub proof fn lemma_transform_gives_valid_mnemonic(
    words: Seq<Seq<char>>,
    password: Seq<u8>,
    iterations: u32,
    memory_cost_kb: u32,
)
    requires
        transform_spec(words, password, iterations, memory_cost_kb) is Ok,
    ensures
        validate_spec(transform_spec(words, password, iterations, memory_cost_kb)->Ok_0) is Ok,
        (transform_spec(words, password, iterations, memory_cost_kb)->Ok_0).len() == words.len(),
{
    let entropy = (decode_spec(words)->Ok_0).0;
    let len = entropy.len();
    let stream = keystream(password, len, iterations, memory_cost_kb);
    let combined = xor_spec(entropy, stream);
    lemma_decoded_entropy_len(words);
    lemma_lengths_of_entropy_len(len);
    lemma_lengths_of_word_count(words.len());
    lemma_checksum_of_digest_bound(sha256(combined), checksum_width(len));
    lemma_decode_encode(combined, checksum_spec(combined));
}

/// Transforming the outcome of a transformation, with the same password and costs,
/// gives the mnemonic back, if its checksum was valid.
pub proof fn lemma_transform_twice(
    words: Seq<Seq<char>>,
    password: Seq<u8>,
    iterations: u32,
    memory_cost_kb: u32,
)
    requires
        validate_spec(words) is Ok,
        transform_spec(words, password, iterations, memory_cost_kb) is Ok,
    ensures
        transform_spec(
            transform_spec(words, password, iterations, memory_cost_kb)->Ok_0,
            password,
            iterations,
            memory_cost_kb,
        ) == Ok::<Seq<Seq<char>>, ErrorView>(words),
{
    let (entropy, checksum) = decode_spec(words)->Ok_0;
    let len = entropy.len();
    let width = checksum_width(len);
    let stream = keystream(password, len, iterations, memory_cost_kb);
    let combined = xor_spec(entropy, stream);
    lemma_decoded_entropy_len(words);
    lemma_lengths_of_entropy_len(len);
    // The outcome decodes to the combined entropy, which the second XOR undoes.
    lemma_checksum_of_digest_bound(sha256(combined), width);
    lemma_decode_encode(combined, checksum_spec(combined));
    lemma_xor_involution(entropy, stream);
    // The mnemonic's own checksum is the checksum of its entropy.
    lemma_decoded_checksum_bound(words);
    lemma_matching_checksum(entropy, checksum);
    lemma_encode_decode(words);
}

/// Combines an entropy with a keystream of its length and writes the result, with a
/// checksum of its own, as a mnemonic.
pub fn apply_keystream(entropy: &[u8], keystream: &[u8]) -> (words: Vec<String>)
    requires
        valid_entropy_len(entropy@.len()),
        keystream@.len() == entropy@.len(),
    ensures
        phrase_view(words@) == apply_keystream_spec(entropy@, keystream@),
{
    let combined = SecureBytes::new(xor_bytes(entropy, keystream));
    let checksum = compute_checksum(combined.as_slice());
    encode(combined.as_slice(), checksum)
}

/// Transforms a mnemonic under a password.
///
/// The checksum of the mnemonic is not looked at; `transform_strict` checks it first.
/// A mnemonic that cannot be decoded is reported as `decode` reports it, and
/// `KeyDerivationFailed` says that the derivation function refused the arguments.
pub fn transform(words: &[String], password: &[u8], iterations: u32, memory_cost_kb: u32) -> (r:
    Result<Vec<String>, SCypherError>)
    ensures
        match r {
            Ok(out) => transform_spec(phrase_view(words@), password@, iterations, memory_cost_kb)
                == Ok::<Seq<Seq<char>>, ErrorView>(phrase_view(out@)),
            Err(e) => transform_spec(phrase_view(words@), password@, iterations, memory_cost_kb)
                == Err::<Seq<Seq<char>>, ErrorView>(e@),
        },
{
    let entropy = match decode(words) {
        Ok((entropy, _)) => SecureBytes::new(entropy),
        Err(e) => {
            return Err(e);
        },
    };
    proof {
        lemma_decoded_entropy_len(phrase_view(words@));
    }
    let keystream = match crate::crypto::kdf::derive(password, entropy.len(), iterations, memory_cost_kb) {
        Ok(key) => SecureBytes::new(key),
        Err(e) => {
            return Err(e);
        },
    };
    Ok(apply_keystream(entropy.as_slice(), keystream.as_slice()))
}

/// Transforms a mnemonic under a password, after checking the cost parameters and
/// the mnemonic's checksum. Nothing is derived unless both checks pass.
pub fn transform_strict(
    words: &[String],
    password: &[u8],
    iterations: u32,
    memory_cost_kb: u32,
) -> (r: Result<Vec<String>, SCypherError>)
    ensures
        match r {
            Ok(out) => transform_strict_spec(
                phrase_view(words@),
                password@,
                iterations,
                memory_cost_kb,
            ) == Ok::<Seq<Seq<char>>, ErrorView>(phrase_view(out@)),
            Err(e) => transform_strict_spec(
                phrase_view(words@),
                password@,
                iterations,
                memory_cost_kb,
            ) == Err::<Seq<Seq<char>>, ErrorView>(e@),
        },
{
    match validate_crypto_params(iterations, memory_cost_kb) {
        Err(e) => {
            return Err(e);
        },
        Ok(_) => {},
    }
    match validate(words) {
        Err(e) => {
            return Err(e);
        },
        Ok(_) => {},
    }
    transform(words, password, iterations, memory_cost_kb)
}

/// What `transform_seed` returns: the text of the transformed mnemonic, for a text
/// that holds a mnemonic; the password counts by its bytes in UTF-8.
pub open spec fn transform_seed_spec(
    seed_phrase: Seq<char>,
    password: Seq<char>,
    iterations: u32,
    memory_cost: u32,
) -> Result<Seq<char>, ErrorView> {
    if split_spec(seed_phrase).len() == 0 {
        Err(ErrorView::InvalidSeedPhrase)
    } else {
        match transform_spec(
            split_spec(seed_phrase),
            encode_utf8(password),
            iterations,
            memory_cost,
        ) {
            Err(e) => Err(e),
            Ok(words) => Ok(join_spec(words)),
        }
    }
}

/// Transforms a seed phrase, given as a text, under a password. The outcome is a text
/// again, with one space between the words.
pub fn transform_seed(seed_phrase: &str, password: &str, iterations: u32, memory_cost: u32) -> (r:
    Result<String, SCypherError>)
    ensures
        match r {
            Ok(text) => transform_seed_spec(seed_phrase@, password@, iterations, memory_cost)
                == Ok::<Seq<char>, ErrorView>(text@),
            Err(e) => transform_seed_spec(seed_phrase@, password@, iterations, memory_cost)
                == Err::<Seq<char>, ErrorView>(e@),
        },
{
    let mut words = match parse_phrase(seed_phrase) {
        Ok(words) => words,
        Err(e) => {
            return Err(e);
        },
    };
    let outcome = transform(words.as_slice(), password.as_bytes(), iterations, memory_cost);
    zeroize_words(&mut words);
    match outcome {
        Ok(transformed) => {
            let mut transformed = transformed;
            let text = format_phrase(transformed.as_slice());
            zeroize_words(&mut transformed);
            Ok(text)
        },
        Err(e) => Err(e),
    }
}

} // verus!

//! Checks on a word sequence that need no password.
use crate::bip39::bits::{join_bits, lemma_join_bits_len, lemma_value_of_bound};
use crate::bip39::checksum::{checksum_matches, lemma_matching_checksum, verify};
use crate::bip39::codec::{
    checksum_width, decode, decode_spec, entropy_len, lemma_encode_decode,
    lemma_lengths_of_entropy_len, lemma_lengths_of_word_count, lemma_word_indices_ok,
    phrase_view, valid_entropy_len, valid_word_count, word_indices,
};
use crate::bip39::phrase::{parse_phrase, split_spec};
use crate::error::{ErrorView, SCypherError};
use crate::security::memory::zeroize_words;
use crate::security::SecureBytes;
use vstd::arithmetic::power2::{lemma2_to64, lemma_pow2_strictly_increases, pow2};
use vstd::prelude::*;

verus! {

/// What `verify_checksum` returns: whether the checksum bits of a word sequence belong
/// to its entropy, or why the sequence cannot be decoded.
pub open spec fn verify_checksum_spec(words: Seq<Seq<char>>) -> Result<bool, ErrorView> {
    match decode_spec(words) {
        Err(e) => Err(e),
        Ok((entropy, checksum)) => Ok(checksum_matches(entropy, checksum)),
    }
}

/// What `validate` returns: nothing for a word sequence that can be decoded and whose
/// checksum belongs to its entropy, else the reason.
pub open spec fn validate_spec(words: Seq<Seq<char>>) -> Result<(), ErrorView> {
    match verify_checksum_spec(words) {
        Err(e) => Err(e),
        Ok(valid) => if valid {
            Ok(())
        } else {
            Err(ErrorView::InvalidChecksum)
        },
    }
}

/// What can be decoded has an entropy of the length that belongs to the word count.
pub proof fn lemma_decoded_entropy_len(words: Seq<Seq<char>>)
    requires
        decode_spec(words) is Ok,
    ensures
        valid_word_count(words.len()),
        valid_entropy_len((decode_spec(words)->Ok_0).0.len()),
        (decode_spec(words)->Ok_0).0.len() == entropy_len(words.len()),
{
    lemma_lengths_of_word_count(words.len());
    lemma_word_indices_ok(words);
    lemma_join_bits_len(word_indices(words)->Ok_0, 11);
}

/// The checksum bits that are decoded fit the width that belongs to the entropy.
pub proof fn lemma_decoded_checksum_bound(words: Seq<Seq<char>>)
    requires
        decode_spec(words) is Ok,
    ensures
        (decode_spec(words)->Ok_0).1 < pow2(checksum_width((decode_spec(words)->Ok_0).0.len())),
{
    let indices = word_indices(words)->Ok_0;
    let len = (decode_spec(words)->Ok_0).0.len();
    let width = checksum_width(len);
    lemma_decoded_entropy_len(words);
    lemma_lengths_of_entropy_len(len);
    lemma_lengths_of_word_count(words.len());
    lemma_word_indices_ok(words);
    lemma_join_bits_len(indices, 11);
    lemma_value_of_bound(join_bits(indices, 11).skip(8 * len as int));
    lemma2_to64();
    if width < 8 {
        lemma_pow2_strictly_increases(width, 8);
    }
}

/// Beside a valid mnemonic, no other word sequence with the same entropy is valid: a
/// mnemonic whose last word is replaced by another word of the list, such that only
/// checksum bits change, fails the check of the checksum.
pub proof fn lemma_other_checksum_is_invalid(words: Seq<Seq<char>>, changed: Seq<Seq<char>>)
    requires
        validate_spec(words) is Ok,
        decode_spec(changed) is Ok,
        (decode_spec(changed)->Ok_0).0 == (decode_spec(words)->Ok_0).0,
        changed != words,
    ensures
        verify_checksum_spec(changed) == Ok::<bool, ErrorView>(false),
        validate_spec(changed) == Err::<(), ErrorView>(ErrorView::InvalidChecksum),
{
    let (entropy, checksum) = decode_spec(words)->Ok_0;
    let other = (decode_spec(changed)->Ok_0).1;
    lemma_encode_decode(words);
    lemma_encode_decode(changed);
    assert(other != checksum);
    lemma_decoded_entropy_len(words);
    lemma_decoded_checksum_bound(words);
    lemma_decoded_checksum_bound(changed);
    lemma_matching_checksum(entropy, checksum);
    lemma_matching_checksum(entropy, other);
}

/// Whether the checksum of a word sequence belongs to its entropy.
///
/// A sequence that cannot be decoded is reported as `decode` reports it.
pub fn verify_checksum(words: &[String]) -> (r: Result<bool, SCypherError>)
    ensures
        match r {
            Ok(valid) => verify_checksum_spec(phrase_view(words@)) == Ok::<bool, ErrorView>(valid),
            Err(e) => verify_checksum_spec(phrase_view(words@)) == Err::<bool, ErrorView>(e@),
        },
{
    match decode(words) {
        Err(e) => Err(e),
        Ok((entropy, checksum)) => {
            proof {
                lemma_decoded_entropy_len(phrase_view(words@));
            }
            let entropy = SecureBytes::new(entropy);
            Ok(verify(entropy.as_slice(), checksum))
        },
    }
}

/// Checks a word sequence without a password: it must decode, and its checksum must
/// belong to its entropy (`InvalidChecksum` otherwise).
pub fn validate(words: &[String]) -> (r: Result<(), SCypherError>)
    ensures
        match r {
            Ok(_) => validate_spec(phrase_view(words@)) == Ok::<(), ErrorView>(()),
            Err(e) => validate_spec(phrase_view(words@)) == Err::<(), ErrorView>(e@),
        },
{
    match verify_checksum(words) {
        Err(e) => Err(e),
        Ok(valid) => if valid {
            Ok(())
        } else {
            Err(SCypherError::InvalidChecksum)
        },
    }
}

/// What `validate_seed_phrase_complete` returns: the check of the words of a text,
/// for a text that has any.
pub open spec fn validate_seed_phrase_spec(seed_phrase: Seq<char>) -> Result<(), ErrorView> {
    if split_spec(seed_phrase).len() == 0 {
        Err(ErrorView::InvalidSeedPhrase)
    } else {
        validate_spec(split_spec(seed_phrase))
    }
}

/// Checks a seed phrase, given as a text: it must hold words (`InvalidSeedPhrase`
/// otherwise), and the words must pass `validate`.
pub fn validate_seed_phrase_complete(seed_phrase: &str) -> (r: Result<(), SCypherError>)
    ensures
        match r {
            Ok(_) => validate_seed_phrase_spec(seed_phrase@) == Ok::<(), ErrorView>(()),
            Err(e) => validate_seed_phrase_spec(seed_phrase@) == Err::<(), ErrorView>(e@),
        },
{
    match parse_phrase(seed_phrase) {
        Ok(words) => {
            let mut words = words;
            let outcome = validate(words.as_slice());
            zeroize_words(&mut words);
            outcome
        },
        Err(e) => Err(e),
    }
}

} // verus!

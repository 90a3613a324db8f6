//! The checksum of an entropy: the leading bits of its SHA-256 digest, one for every
//! 32 bits of entropy.
use crate::bip39::bits::{
    bits_of, bytes_bits, lemma_bits_bytes_of_bytes_bits, lemma_bits_of_len,
    lemma_bits_of_value_of, lemma_value_of_bits_of, lemma_value_of_bound, value_of, BitString,
};
use crate::bip39::codec::{checksum_width, lemma_lengths_of_entropy_len, valid_entropy_len};
use crate::security::SecureBytes;
use sha2::{Digest, Sha256};
use vstd::arithmetic::power2::{lemma2_to64, lemma_pow2_strictly_increases, pow2};
use vstd::prelude::*;

verus! {

/// The SHA-256 digest of a byte string.
pub uninterp spec fn sha256(data: Seq<u8>) -> Seq<u8>;

/// `Sha256::digest` of the crate sha2: the SHA-256 digest of the bytes, which has
/// 32 bytes.
#[verifier::external_body]
fn sha256_digest(data: &[u8]) -> (digest: Vec<u8>)
    ensures
        digest@ == sha256(data@),
        digest@.len() == 32,
{
    Sha256::digest(data).to_vec()
}

/// The number written by the `width` leading bits of a digest; zero where the digest
/// has fewer bits.
pub open spec fn checksum_of_digest(digest: Seq<u8>, width: nat) -> u8 {
    if width <= 8 * digest.len() {
        value_of(bytes_bits(digest).take(width as int)) as u8
    } else {
        0
    }
}

/// The checksum that belongs to an entropy.
pub open spec fn checksum_spec(entropy: Seq<u8>) -> u8 {
    checksum_of_digest(sha256(entropy), checksum_width(entropy.len()))
}

/// Whether the low bits of a claimed checksum, as many as belong to the entropy's
/// length, are the bits of the entropy's checksum.
pub open spec fn checksum_matches(entropy: Seq<u8>, claimed: u8) -> bool {
    let width = checksum_width(entropy.len());
    bits_of(claimed as nat, width) == bits_of(checksum_spec(entropy) as nat, width)
}

/// A checksum of `width` bits is below two to the `width`.
pub proof fn lemma_checksum_of_digest_bound(digest: Seq<u8>, width: nat)
    requires
        width <= 8,
    ensures
        width <= 8 * digest.len() ==> checksum_of_digest(digest, width) == value_of(
            bytes_bits(digest).take(width as int),
        ),
        checksum_of_digest(digest, width) < pow2(width),
{
    lemma2_to64();
    if width < 8 {
        lemma_pow2_strictly_increases(width, 8);
    }
    if width <= 8 * digest.len() {
        lemma_bits_bytes_of_bytes_bits(digest);
        lemma_value_of_bound(bytes_bits(digest).take(width as int));
    } else {
        vstd::arithmetic::power2::lemma_pow2_pos(width);
    }
}

/// A claimed checksum of the right width that matches is the checksum.
pub proof fn lemma_matching_checksum(entropy: Seq<u8>, claimed: u8)
    requires
        valid_entropy_len(entropy.len()),
        claimed < pow2(checksum_width(entropy.len())),
    ensures
        checksum_matches(entropy, claimed) <==> claimed == checksum_spec(entropy),
{
    let width = checksum_width(entropy.len());
    lemma_lengths_of_entropy_len(entropy.len());
    lemma_checksum_of_digest_bound(sha256(entropy), width);
    lemma_value_of_bits_of(claimed as nat, width);
    lemma_value_of_bits_of(checksum_spec(entropy) as nat, width);
}

/// The checksum that the `width` leading bits of a digest write.
pub fn checksum_from_digest(digest: &[u8], width: usize) -> (checksum: u8)
    requires
        width <= 8,
    ensures
        checksum == checksum_of_digest(digest@, width as nat),
{
    if digest.len() < 1 && width > 0 {
        return 0;
    }
    let bits = BitString::from_bytes(digest);
    proof {
        lemma_bits_bytes_of_bytes_bits(digest@);
        lemma_checksum_of_digest_bound(digest@, width as nat);
        lemma2_to64();
        assert(bits@.subrange(0, width as int) =~= bits@.take(width as int));
    }
    bits.read(0, width) as u8
}

/// The checksum bits of an entropy.
pub fn compute_checksum(entropy: &[u8]) -> (checksum: u8)
    requires
        valid_entropy_len(entropy@.len()),
    ensures
        checksum == checksum_spec(entropy@),
        checksum < pow2(checksum_width(entropy@.len())),
{
    let digest = SecureBytes::new(sha256_digest(entropy));
    proof {
        lemma_lengths_of_entropy_len(entropy@.len());
        lemma_checksum_of_digest_bound(digest@, checksum_width(entropy@.len()));
    }
    checksum_from_digest(digest.as_slice(), entropy.len() / 4)
}

/// Whether the claimed checksum bits belong to the entropy. Of the claim, the low
/// bits are compared, as many as belong to the entropy's length.
pub fn verify(entropy: &[u8], claimed: u8) -> (valid: bool)
    requires
        valid_entropy_len(entropy@.len()),
    ensures
        valid == checksum_matches(entropy@, claimed),
{
    let width: usize = entropy.len() / 4;
    let computed = compute_checksum(entropy);
    let mut bits = BitString::new();
    bits.append(claimed as u64, width);
    proof {
        lemma_lengths_of_entropy_len(entropy@.len());
        lemma_bits_of_len(claimed as nat, width as nat);
        assert(bits@ =~= bits_of(claimed as nat, width as nat));
        assert(bits@.subrange(0, width as int) =~= bits@);
        lemma_bits_of_value_of(bits@);
        lemma_value_of_bits_of(computed as nat, width as nat);
    }
    bits.read(0, width) == computed as u64
}

} // verus!

//! The codec between a word sequence and its entropy and checksum.
//!
//! The bit string of a mnemonic is the concatenation of the eleven-bit positions of its
//! words. Its leading bits are the entropy, whole bytes; the trailing bits, one for
//! every 32 bits of entropy, are the checksum.
use crate::bip39::bits::{
    bits_bytes, bits_of, bytes_bits, join_bits, lemma_bits_bytes_of_bytes_bits,
    lemma_bits_of_len, lemma_bits_of_value_of, lemma_bytes_bits_of_bits_bytes,
    lemma_join_bits_group, lemma_join_bits_len, lemma_join_split, lemma_value_of_bits_of,
    lemma_value_of_bound, split_bits, value_of, BitString,
};
use crate::bip39::wordlist::{
    index_to_word, lemma_word_at_of_word_index, lemma_word_index_of_word_at, word_at,
    word_index, word_to_index,
};
use crate::error::{ErrorView, SCypherError};
use vstd::arithmetic::power2::{lemma2_to64, lemma_pow2_strictly_increases, pow2};
use vstd::prelude::*;

verus! {

/// Number of bits that one word stands for.
pub const BITS_PER_WORD: usize = 11;

/// The word counts of a mnemonic.
pub open spec fn valid_word_count(count: nat) -> bool {
    count == 12 || count == 15 || count == 18 || count == 21 || count == 24
}

/// The byte lengths of an entropy.
pub open spec fn valid_entropy_len(len: nat) -> bool {
    len == 16 || len == 20 || len == 24 || len == 28 || len == 32
}

/// Number of entropy bytes in a mnemonic of `count` words: 32 of every 33 bits.
pub open spec fn entropy_len(count: nat) -> nat {
    count * 11 * 32 / 33 / 8
}

/// Number of checksum bits beside an entropy of `len` bytes: one for every 32 bits.
pub open spec fn checksum_width(len: nat) -> nat {
    len * 8 / 32
}

/// Number of words that stand for an entropy of `len` bytes and its checksum.
pub open spec fn word_count(len: nat) -> nat {
    (len * 8 + checksum_width(len)) / 11
}

/// A word sequence as contracts speak of it: each word a sequence of characters.
pub open spec fn phrase_view(words: Seq<String>) -> Seq<Seq<char>> {
    Seq::new(words.len(), |k: int| words[k]@)
}

/// The positions of the words in the list, or the first word that is not in it.
pub open spec fn word_indices(words: Seq<Seq<char>>) -> Result<Seq<nat>, ErrorView>
    decreases words.len(),
{
    if words.len() == 0 {
        Ok(Seq::empty())
    } else {
        match word_indices(words.drop_last()) {
            Err(e) => Err(e),
            Ok(indices) => match word_index(words.last()) {
                Some(i) => Ok(indices.push(i as nat)),
                None => Err(ErrorView::InvalidBip39Word(words.last())),
            },
        }
    }
}

/// What `decode` returns: the entropy bytes and the checksum bits of a word sequence,
/// or why it is none.
pub open spec fn decode_spec(words: Seq<Seq<char>>) -> Result<(Seq<u8>, u8), ErrorView> {
    if !valid_word_count(words.len()) {
        Err(ErrorView::InvalidWordCount(words.len()))
    } else {
        match word_indices(words) {
            Err(e) => Err(e),
            Ok(indices) => {
                let bits = join_bits(indices, 11);
                let split = 8 * entropy_len(words.len());
                Ok((bits_bytes(bits.take(split as int)), value_of(bits.skip(split as int)) as u8))
            },
        }
    }
}

/// The bit string of an entropy followed by the low bits of a checksum, as many as
/// belong to the entropy's length.
pub open spec fn payload_bits(entropy: Seq<u8>, checksum: u8) -> Seq<bool> {
    bytes_bits(entropy) + bits_of(checksum as nat, checksum_width(entropy.len()))
}

/// What `encode` returns: the words for each group of eleven bits.
pub open spec fn encode_spec(entropy: Seq<u8>, checksum: u8) -> Seq<Seq<char>> {
    Seq::new(
        word_count(entropy.len()),
        |k: int|
            word_at(
                value_of(payload_bits(entropy, checksum).subrange(11 * k, 11 * k + 11)) as int,
            ),
    )
}

/// A failure on a prefix of a word sequence is the failure on the whole.
proof fn lemma_word_indices_prefix_err(words: Seq<Seq<char>>, k: int)
    requires
        0 <= k <= words.len(),
        word_indices(words.take(k)) is Err,
    ensures
        word_indices(words) == word_indices(words.take(k)),
    decreases words.len(),
{
    if k == words.len() {
        assert(words.take(k) =~= words);
    } else {
        assert(words.drop_last().take(k) =~= words.take(k));
        lemma_word_indices_prefix_err(words.drop_last(), k);
    }
}

/// The positions found are those of the words, one for each.
pub proof fn lemma_word_indices_ok(words: Seq<Seq<char>>)
    requires
        word_indices(words) is Ok,
    ensures
        word_indices(words)->Ok_0.len() == words.len(),
        forall|k: int|
            0 <= k < words.len() ==> word_index(#[trigger] words[k]) == Some(
                word_indices(words)->Ok_0[k] as int,
            ),
        forall|k: int| 0 <= k < words.len() ==> #[trigger] word_indices(words)->Ok_0[k] < 2048,
    decreases words.len(),
{
    if words.len() > 0 {
        lemma_word_indices_ok(words.drop_last());
        lemma_word_at_of_word_index(words.last());
        assert forall|k: int| 0 <= k < words.len() implies word_index(#[trigger] words[k])
            == Some(word_indices(words)->Ok_0[k] as int) by {
            if k < words.len() - 1 {
                assert(words.drop_last()[k] == words[k]);
            }
        }
    }
}

/// Words that are all in the list have their positions found.
pub proof fn lemma_word_indices_of_known(words: Seq<Seq<char>>, indices: Seq<nat>)
    requires
        indices.len() == words.len(),
        forall|k: int| 0 <= k < words.len() ==> word_index(#[trigger] words[k]) == Some(
            indices[k] as int,
        ),
    ensures
        word_indices(words) == Ok::<Seq<nat>, ErrorView>(indices),
    decreases words.len(),
{
    if words.len() == 0 {
        assert(indices =~= Seq::empty());
    } else {
        lemma_word_indices_of_known(words.drop_last(), indices.drop_last());
        assert(words.last() == words[words.len() - 1]);
        assert(indices.drop_last().push(indices.last()) =~= indices);
    }
}

/// A word sequence of an accepted length is refused with the first of its words that
/// is not in the list.
pub proof fn lemma_unknown_word_is_named(words: Seq<Seq<char>>, k: int)
    requires
        valid_word_count(words.len()),
        0 <= k < words.len(),
        word_index(words[k]) is None,
        forall|j: int| 0 <= j < k ==> word_index(#[trigger] words[j]) is Some,
    ensures
        decode_spec(words) == Err::<(Seq<u8>, u8), ErrorView>(
            ErrorView::InvalidBip39Word(words[k]),
        ),
{
    let known = words.take(k);
    let indices = Seq::new(known.len(), |j: int| word_index(known[j])->0 as nat);
    assert forall|j: int| 0 <= j < known.len() implies word_index(#[trigger] known[j]) == Some(
        indices[j] as int,
    ) by {
        assert(known[j] == words[j]);
        lemma_word_at_of_word_index(known[j]);
    }
    lemma_word_indices_of_known(known, indices);
    assert(words.take(k + 1).drop_last() =~= known);
    assert(words.take(k + 1).last() == words[k]);
    lemma_word_indices_prefix_err(words, k + 1);
}

/// The lengths that belong to each accepted word count.
pub proof fn lemma_lengths_of_word_count(count: nat)
    requires
        valid_word_count(count),
    ensures
        valid_entropy_len(entropy_len(count)),
        word_count(entropy_len(count)) == count,
        8 * entropy_len(count) + checksum_width(entropy_len(count)) == 11 * count,
        entropy_len(count) == count / 3 * 4,
        checksum_width(entropy_len(count)) == count / 3,
{
}

/// The word count that belongs to each accepted entropy length.
pub proof fn lemma_lengths_of_entropy_len(len: nat)
    requires
        valid_entropy_len(len),
    ensures
        valid_word_count(word_count(len)),
        entropy_len(word_count(len)) == len,
        8 * len + checksum_width(len) == 11 * word_count(len),
        4 <= checksum_width(len) <= 8,
        checksum_width(len) == len / 4,
        word_count(len) == len / 4 * 3,
{
}

/// The payload has eleven bits for each word.
pub proof fn lemma_payload_bits_len(entropy: Seq<u8>, checksum: u8)
    ensures
        payload_bits(entropy, checksum).len() == 8 * entropy.len() + checksum_width(
            entropy.len(),
        ),
{
    lemma_bits_bytes_of_bytes_bits(entropy);
    lemma_bits_of_len(checksum as nat, checksum_width(entropy.len()));
}

/// Decoding what was encoded gives the entropy and the checksum back.
pub proof fn lemma_decode_encode(entropy: Seq<u8>, checksum: u8)
    requires
        valid_entropy_len(entropy.len()),
        checksum < pow2(checksum_width(entropy.len())),
    ensures
        decode_spec(encode_spec(entropy, checksum)) == Ok::<(Seq<u8>, u8), ErrorView>(
            (entropy, checksum),
        ),
{
    let len = entropy.len();
    let count = word_count(len);
    let width = checksum_width(len);
    let words = encode_spec(entropy, checksum);
    let bits = payload_bits(entropy, checksum);
    let indices = split_bits(bits, 11, count);
    lemma_lengths_of_entropy_len(len);
    lemma_payload_bits_len(entropy, checksum);
    lemma2_to64();
    assert forall|k: int| 0 <= k < count implies word_index(#[trigger] words[k]) == Some(
        indices[k] as int,
    ) by {
        lemma_value_of_bound(bits.subrange(11 * k, 11 * k + 11));
        lemma_word_index_of_word_at(indices[k] as int);
    }
    lemma_word_indices_of_known(words, indices);
    lemma_join_split(bits, 11, count);
    lemma_bits_bytes_of_bytes_bits(entropy);
    lemma_bits_of_len(checksum as nat, width);
    assert(bits.take(8 * len as int) =~= bytes_bits(entropy));
    assert(bits.skip(8 * len as int) =~= bits_of(checksum as nat, width));
    lemma_value_of_bits_of(checksum as nat, width);
}

/// Encoding what was decoded gives the word sequence back.
pub proof fn lemma_encode_decode(words: Seq<Seq<char>>)
    requires
        decode_spec(words) is Ok,
    ensures
        encode_spec(decode_spec(words)->Ok_0.0, decode_spec(words)->Ok_0.1) == words,
{
    let count = words.len();
    let indices = word_indices(words)->Ok_0;
    let bits = join_bits(indices, 11);
    let (entropy, checksum) = decode_spec(words)->Ok_0;
    let len = entropy_len(count);
    let width = checksum_width(len);
    lemma_lengths_of_word_count(count);
    lemma_word_indices_ok(words);
    lemma_join_bits_len(indices, 11);
    lemma2_to64();
    let head = bits.take(8 * len as int);
    let tail = bits.skip(8 * len as int);
    lemma_bytes_bits_of_bits_bytes(head);
    lemma_value_of_bound(tail);
    if width < 8 {
        lemma_pow2_strictly_increases(width, 8);
    }
    lemma_bits_of_value_of(tail);
    assert(payload_bits(entropy, checksum) =~= bits);
    assert forall|k: int| 0 <= k < count implies encode_spec(entropy, checksum)[k] == words[k] by {
        lemma_join_bits_group(indices, 11, k);
        lemma_value_of_bits_of(indices[k], 11);
        lemma_word_at_of_word_index(words[k]);
    }
    assert(encode_spec(entropy, checksum) =~= words);
}

/// Splits a word sequence into its entropy bytes and its checksum bits.
///
/// The sequence must have 12, 15, 18, 21 or 24 words (`InvalidWordCount` otherwise),
/// each of them in the word list (`InvalidBip39Word` with the first that is not).
pub fn decode(words: &[String]) -> (r: Result<(Vec<u8>, u8), SCypherError>)
    ensures
        match r {
            Ok((entropy, checksum)) => decode_spec(phrase_view(words@)) == Ok::<
                (Seq<u8>, u8),
                ErrorView,
            >((entropy@, checksum)),
            Err(e) => decode_spec(phrase_view(words@)) == Err::<(Seq<u8>, u8), ErrorView>(e@),
        },
{
    let count = words.len();
    if !(count == 12 || count == 15 || count == 18 || count == 21 || count == 24) {
        return Err(SCypherError::InvalidWordCount(count));
    }
    let ghost phrase = phrase_view(words@);
    let mut bits = BitString::new();
    let mut k: usize = 0;
    while k < count
        invariant
            k <= count == words@.len(),
            valid_word_count(count as nat),
            phrase == phrase_view(words@),
            word_indices(phrase.take(k as int)) is Ok,
            bits@ == join_bits(word_indices(phrase.take(k as int))->Ok_0, 11),
        decreases count - k,
    {
        let ghost found = word_indices(phrase.take(k as int))->Ok_0;
        proof {
            assert(phrase.take(k + 1).drop_last() =~= phrase.take(k as int));
            assert(phrase.take(k + 1).last() == words@[k as int]@);
        }
        match word_to_index(words[k].as_str()) {
            Err(e) => {
                proof {
                    assert(word_indices(phrase.take(k + 1)) is Err);
                    lemma_word_indices_prefix_err(phrase, k + 1);
                }
                return Err(e);
            },
            Ok(index) => {
                bits.append(index as u64, 11);
                proof {
                    let next = found.push(index as nat);
                    assert(word_indices(phrase.take(k + 1)) == Ok::<Seq<nat>, ErrorView>(next));
                    assert(next.drop_last() =~= found);
                }
            },
        }
        k = k + 1;
    }
    proof {
        assert(phrase.take(k as int) =~= phrase);
        lemma_lengths_of_word_count(count as nat);
        lemma_join_bits_len(word_indices(phrase)->Ok_0, 11);
        lemma_word_indices_ok(phrase);
    }
    let split: usize = count / 3 * 32;
    let width: usize = count / 3;
    let entropy = bits.to_bytes(0, count / 3 * 4);
    let checksum = bits.read(split, width);
    proof {
        assert(bits@.subrange(0, split as int) =~= bits@.take(split as int));
        assert(bits@.subrange(split as int, split + width) =~= bits@.skip(split as int));
        lemma_value_of_bound(bits@.skip(split as int));
        lemma_pow2_strictly_increases(width as nat, 9);
        lemma2_to64();
    }
    Ok((entropy, checksum as u8))
}

/// Writes an entropy and its checksum bits as a word sequence.
///
/// Of the checksum, the low bits count, as many as belong to the entropy's length.
pub fn encode(entropy: &[u8], checksum: u8) -> (words: Vec<String>)
    requires
        valid_entropy_len(entropy@.len()),
    ensures
        phrase_view(words@) == encode_spec(entropy@, checksum),
{
    let len = entropy.len();
    let width: usize = len / 4;
    let count: usize = len / 4 * 3;
    let mut bits = BitString::from_bytes(entropy);
    bits.append(checksum as u64, width);
    proof {
        lemma_lengths_of_entropy_len(len as nat);
        lemma_payload_bits_len(entropy@, checksum);
    }
    let mut words: Vec<String> = Vec::new();
    let mut k: usize = 0;
    while k < count
        invariant
            k <= count <= 24,
            count == word_count(entropy@.len()),
            bits@ == payload_bits(entropy@, checksum),
            bits@.len() == 11 * count,
            phrase_view(words@) == encode_spec(entropy@, checksum).take(k as int),
        decreases count - k,
    {
        let index = bits.read(11 * k, 11);
        proof {
            lemma_value_of_bound(bits@.subrange(11 * k, 11 * k + 11));
            lemma2_to64();
        }
        let word = index_to_word(index as u16);
        let ghost before = phrase_view(words@);
        words.push(word);
        proof {
            assert(phrase_view(words@) =~= before.push(word@));
            assert(encode_spec(entropy@, checksum)[k as int] == word@);
            assert(before.push(word@) =~= encode_spec(entropy@, checksum).take(k + 1));
        }
        k = k + 1;
    }
    proof {
        assert(encode_spec(entropy@, checksum).take(k as int) =~= encode_spec(
            entropy@,
            checksum,
        ));
    }
    words
}

} // verus!

//! The mapping between the words of the list and their positions.
//!
//! A word is stored packed (see the table): up to eight characters below U+0100, one
//! byte each, padded with zero bytes. Every `u64` is the packed form of exactly one
//! character string, so two entries of the table that differ are two different words.
use crate::bip39::bits::{
    bits_bytes, bits_of, byte_values, bytes_bits, lemma_bits_bytes_of_bytes_bits, lemma_bits_of_len,
    lemma_bits_of_value_of, lemma_bytes_bits_of_bits_bytes, lemma_value_of_bits_of,
    lemma_value_of_bound, value_of, BitString,
};
use crate::bip39::table::{code_at, lemma_codes_increasing, word_code, WORD_COUNT};
use crate::error::{ErrorView, SCypherError};
use crate::security::SecureBytes;
use vstd::arithmetic::power2::lemma2_to64;
use vstd::prelude::*;
use vstd::string::StrSliceExecFns;

verus! {

/// `String::push` appends the character to the end of the string.
pub assume_specification[ String::push ](s: &mut String, ch: char)
    ensures
        final(s)@ == old(s)@.push(ch),
;

/// The eight bytes of a packed word, first character first.
pub open spec fn code_bytes(code: u64) -> Seq<u8> {
    bits_bytes(bits_of(code as nat, 64))
}

/// The length of a byte string without the zero bytes at its end.
pub open spec fn unpadded_len(bytes: Seq<u8>) -> nat
    decreases bytes.len(),
{
    if bytes.len() == 0 || bytes.last() != 0 {
        bytes.len()
    } else {
        unpadded_len(bytes.drop_last())
    }
}

/// The word that a packed word stands for.
pub open spec fn word_of_code(code: u64) -> Seq<char> {
    Seq::new(unpadded_len(code_bytes(code)), |k: int| code_bytes(code)[k] as char)
}

/// Whether a character string has a packed form: at most eight characters, each
/// below U+0100, the last one not U+0000.
pub open spec fn packable(word: Seq<char>) -> bool {
    &&& word.len() <= 8
    &&& forall|k: int| 0 <= k < word.len() ==> word[k] as u32 <= 0xff
    &&& word.len() > 0 ==> word.last() as u32 != 0
}

/// The bytes of a word, padded with zero bytes to eight.
pub open spec fn padded_bytes(word: Seq<char>) -> Seq<u8> {
    Seq::new(
        8,
        |k: int|
            if k < word.len() {
                word[k] as u8
            } else {
                0u8
            },
    )
}

/// The packed form of a word, where it has one.
pub open spec fn code_of_word(word: Seq<char>) -> Option<u64> {
    if packable(word) {
        Some(value_of(bytes_bits(padded_bytes(word))) as u64)
    } else {
        None
    }
}

/// The word at position `i` of the list.
pub open spec fn word_at(i: int) -> Seq<char> {
    word_of_code(word_code(i))
}

/// The position of a word in the list, if it is there.
pub open spec fn word_index(word: Seq<char>) -> Option<int> {
    if exists|i: int| 0 <= i < WORD_COUNT && word_at(i) == word {
        Some(choose|i: int| 0 <= i < WORD_COUNT && word_at(i) == word)
    } else {
        None
    }
}

/// Behind the unpadded length all bytes are zero, and the byte before it is not.
proof fn lemma_unpadded_len(bytes: Seq<u8>)
    ensures
        unpadded_len(bytes) <= bytes.len(),
        forall|k: int| unpadded_len(bytes) <= k < bytes.len() ==> bytes[k] == 0,
        unpadded_len(bytes) > 0 ==> bytes[unpadded_len(bytes) - 1] != 0,
    decreases bytes.len(),
{
    if !(bytes.len() == 0 || bytes.last() != 0) {
        let front = bytes.drop_last();
        lemma_unpadded_len(front);
        assert forall|k: int| unpadded_len(bytes) <= k < bytes.len() implies bytes[k] == 0 by {
            if k < front.len() {
                assert(front[k] == bytes[k]);
            }
        }
    }
}

/// A byte is the byte of its character.
proof fn lemma_char_of_byte(b: u8)
    ensures
        (b as char) as u32 == b,
        (b as char) as u8 == b,
{
}

/// A character below U+0100 is the character of its byte.
proof fn lemma_byte_of_char(c: char)
    requires
        c as u32 <= 0xff,
    ensures
        (c as u8) as char == c,
        (c as u8) as u32 == c as u32,
{
}

/// A byte string that is zero from position `n` on, and not before it, has the
/// unpadded length `n`.
proof fn lemma_unpadded_len_of_padded(bytes: Seq<u8>, n: nat)
    requires
        n <= bytes.len(),
        forall|k: int| n <= k < bytes.len() ==> bytes[k] == 0,
        n > 0 ==> bytes[n - 1] != 0,
    ensures
        unpadded_len(bytes) == n,
    decreases bytes.len(),
{
    if n < bytes.len() {
        lemma_unpadded_len_of_padded(bytes.drop_last(), n);
    }
}

/// Unpacking the packed form of a word gives the word.
pub proof fn lemma_word_of_code_of_word(word: Seq<char>)
    requires
        packable(word),
    ensures
        word_of_code(code_of_word(word).unwrap()) == word,
{
    let padded = padded_bytes(word);
    let bits = bytes_bits(padded);
    lemma_bits_bytes_of_bytes_bits(padded);
    lemma_value_of_bound(bits);
    lemma2_to64();
    lemma_bits_of_value_of(bits);
    let code = code_of_word(word).unwrap();
    assert(code_bytes(code) == padded);
    if word.len() > 0 {
        lemma_byte_of_char(word.last());
    }
    lemma_unpadded_len_of_padded(padded, word.len());
    assert forall|k: int| 0 <= k < word.len() implies padded[k] as char == word[k] by {
        lemma_byte_of_char(word[k]);
    }
    assert(word_of_code(code) =~= word);
}

/// Every packed word is the packed form of the word it stands for.
pub proof fn lemma_code_of_word_of_code(code: u64)
    ensures
        packable(word_of_code(code)),
        code_of_word(word_of_code(code)) == Some(code),
{
    let bits = bits_of(code as nat, 64);
    let bytes = code_bytes(code);
    let word = word_of_code(code);
    lemma_bits_of_len(code as nat, 64);
    lemma_unpadded_len(bytes);
    assert forall|k: int| 0 <= k < word.len() implies word[k] as u32 <= 0xff && word[k] as u8
        == bytes[k] by {
        lemma_char_of_byte(bytes[k]);
    }
    assert(padded_bytes(word) =~= bytes);
    lemma_bytes_bits_of_bits_bytes(bits);
    lemma2_to64();
    lemma_value_of_bits_of(code as nat, 64);
}

/// No word stands at two positions of the list.
pub proof fn lemma_words_distinct(i: int, j: int)
    requires
        0 <= i < WORD_COUNT,
        0 <= j < WORD_COUNT,
        word_at(i) == word_at(j),
    ensures
        i == j,
{
    lemma_code_of_word_of_code(word_code(i));
    lemma_code_of_word_of_code(word_code(j));
    if i < j {
        lemma_codes_increasing(i, j);
    } else if j < i {
        lemma_codes_increasing(j, i);
    }
}

/// Looking up the word at a position gives that position.
pub proof fn lemma_word_index_of_word_at(i: int)
    requires
        0 <= i < WORD_COUNT,
    ensures
        word_index(word_at(i)) == Some(i),
{
    let j = word_index(word_at(i)).unwrap();
    lemma_words_distinct(i, j);
}

/// A word that the lookup finds stands at the position found.
pub proof fn lemma_word_at_of_word_index(word: Seq<char>)
    requires
        word_index(word) is Some,
    ensures
        0 <= word_index(word).unwrap() < WORD_COUNT,
        word_at(word_index(word).unwrap()) == word,
{
}

/// Unpacks a packed word.
pub fn unpack_word(code: u64) -> (word: String)
    ensures
        word@ == word_of_code(code),
{
    let mut bits = BitString::new();
    bits.append(code, 64);
    proof {
        lemma_bits_of_len(code as nat, 64);
        assert(bits@ =~= bits_of(code as nat, 64));
        assert(bits@.subrange(0, 64) =~= bits@);
    }
    let bytes = SecureBytes::new(bits.to_bytes(0, 8));
    let bytes = bytes.as_slice();
    proof {
        assert(bytes@.take(8) =~= bytes@);
    }
    let mut len: usize = 8;
    while len > 0 && bytes[len - 1] == 0
        invariant
            len <= 8,
            bytes@.len() == 8,
            unpadded_len(bytes@) == unpadded_len(bytes@.take(len as int)),
        decreases len,
    {
        proof {
            assert(bytes@.take(len as int).drop_last() =~= bytes@.take(len - 1));
        }
        len = len - 1;
    }
    let mut word = String::new();
    let mut k: usize = 0;
    while k < len
        invariant
            k <= len <= 8,
            bytes@ == code_bytes(code),
            bytes@.len() == 8,
            len == unpadded_len(bytes@),
            word@ == word_of_code(code).take(k as int),
        decreases len - k,
    {
        word.push(bytes[k] as char);
        k = k + 1;
        proof {
            assert(word@ =~= word_of_code(code).take(k as int));
        }
    }
    proof {
        assert(word_of_code(code).take(k as int) =~= word_of_code(code));
    }
    word
}

/// Packs a word, if it has a packed form.
pub fn pack_word(word: &str) -> (code: Option<u64>)
    ensures
        code == code_of_word(word@),
{
    let len = word.unicode_len();
    if len > 8 {
        return None;
    }
    let mut bits = BitString::new();
    let mut k: usize = 0;
    while k < 8
        invariant
            k <= 8,
            len == word@.len(),
            len <= 8,
            forall|j: int| 0 <= j < k && j < len ==> word@[j] as u32 <= 0xff,
            k >= len && len > 0 ==> word@.last() as u32 != 0,
            bits@ == bytes_bits(padded_bytes(word@).take(k as int)),
        decreases 8 - k,
    {
        let byte: u8 = if k < len {
            let c = word.get_char(k);
            if c as u32 > 0xff || (k == len - 1 && c as u32 == 0) {
                return None;
            }
            c as u8
        } else {
            0
        };
        bits.append(byte as u64, 8);
        proof {
            let next = byte_values(padded_bytes(word@).take(k + 1));
            assert(next.drop_last() =~= byte_values(padded_bytes(word@).take(k as int)));
            assert(next.last() == byte as nat);
        }
        k = k + 1;
    }
    proof {
        assert(padded_bytes(word@).take(8) =~= padded_bytes(word@));
        assert(packable(word@));
        lemma_bits_bytes_of_bytes_bits(padded_bytes(word@));
        assert(bits@.subrange(0, 64) =~= bits@);
    }
    Some(bits.read(0, 64))
}

/// The word at a position of the list.
pub fn index_to_word(index: u16) -> (word: String)
    requires
        index < WORD_COUNT,
    ensures
        word@ == word_at(index as int),
{
    unpack_word(code_at(index))
}

/// The position of a word in the list.
///
/// A word that is not in the list is reported with `InvalidBip39Word`, which carries
/// the word.
pub fn word_to_index(word: &str) -> (r: Result<u16, SCypherError>)
    ensures
        match r {
            Ok(index) => word_index(word@) == Some(index as int),
            Err(e) => word_index(word@) is None && e@ == ErrorView::InvalidBip39Word(word@),
        },
{
    let packed = pack_word(word);
    let mut low: u16 = 0;
    let mut high: u16 = 2048;
    if let Some(code) = packed {
        while low < high
            invariant
                low <= high <= WORD_COUNT,
                code_of_word(word@) == Some(code),
                forall|i: int| 0 <= i < low ==> word_code(i) < code,
                forall|i: int| high <= i < WORD_COUNT ==> code < word_code(i),
            decreases high - low,
        {
            let mid: u16 = low + (high - low) / 2;
            let entry = code_at(mid);
            if entry == code {
                proof {
                    lemma_word_of_code_of_word(word@);
                    lemma_word_index_of_word_at(mid as int);
                }
                return Ok(mid);
            } else if entry < code {
                proof {
                    assert forall|i: int| 0 <= i < mid + 1 implies word_code(i) < code by {
                        if i < mid {
                            lemma_codes_increasing(i, mid as int);
                        }
                    }
                }
                low = mid + 1;
            } else {
                proof {
                    assert forall|i: int| mid <= i < WORD_COUNT implies code < word_code(i) by {
                        if mid < i {
                            lemma_codes_increasing(mid as int, i);
                        }
                    }
                }
                high = mid;
            }
        }
    }
    proof {
        assert forall|i: int| 0 <= i < WORD_COUNT implies word_at(i) != word@ by {
            lemma_code_of_word_of_code(word_code(i));
        }
    }
    Err(SCypherError::InvalidBip39Word(word.to_owned()))
}

} // verus!

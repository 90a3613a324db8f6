use scypher::bip39::table::{code_at, WORD_COUNT};
use scypher::bip39::wordlist::{index_to_word, pack_word, unpack_word, word_to_index};
use scypher::SCypherError;

#[test]
fn every_position_is_found_again() {
    for index in 0..2048u16 {
        let word = index_to_word(index);
        assert_eq!(word_to_index(&word), Ok(index));
    }
}

#[test]
fn the_list_is_the_english_list() {
    let reference = bip39::Language::English.word_list();
    assert_eq!(reference.len(), WORD_COUNT);
    for index in 0..2048u16 {
        assert_eq!(index_to_word(index), reference[index as usize]);
    }
}

#[test]
fn known_positions() {
    assert_eq!(index_to_word(0), "abandon");
    assert_eq!(index_to_word(3), "about");
    assert_eq!(index_to_word(255), "cable");
    assert_eq!(index_to_word(256), "cactus");
    assert_eq!(index_to_word(1019), "legal");
    assert_eq!(index_to_word(2047), "zoo");
    assert_eq!(word_to_index("abandon"), Ok(0));
    assert_eq!(word_to_index("about"), Ok(3));
    assert_eq!(word_to_index("zoo"), Ok(2047));
    assert_eq!(word_to_index("satoshi"), Ok(1531));
}

#[test]
fn words_outside_the_list_are_refused() {
    for word in ["", "abandonx", "Abandon", "zzz", "aaa", "abando", "notaword", "toolongword", "año", "a\0"] {
        assert_eq!(
            word_to_index(word),
            Err(SCypherError::InvalidBip39Word(String::from(word)))
        );
    }
}

#[test]
fn the_list_is_strictly_increasing() {
    for index in 1..2048u16 {
        assert!(code_at(index - 1) < code_at(index));
    }
}

#[test]
fn packing_a_word() {
    assert_eq!(pack_word("abandon"), Some(0x6162616e646f6e00));
    assert_eq!(pack_word("zoo"), Some(0x7a6f6f0000000000));
    assert_eq!(pack_word(""), Some(0));
    assert_eq!(pack_word("abstract"), Some(0x6162737472616374));
    assert_eq!(pack_word("ninechars"), None);
    assert_eq!(pack_word("a\0"), None);
    assert_eq!(pack_word("\u{100}"), None);
    assert_eq!(pack_word("\u{ff}"), Some(0xff00000000000000));
    assert_eq!(unpack_word(0x6162616e646f6e00), "abandon");
    assert_eq!(unpack_word(0), "");
    assert_eq!(unpack_word(0x6100620000000000), "a\0b");
    assert_eq!(pack_word("a\0b"), Some(0x6100620000000000));
}

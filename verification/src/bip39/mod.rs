//! BIP39 mnemonics: the word list, the bit codec, the checksum and the checks on a
//! word sequence.
pub mod bits;
pub mod checksum;
pub mod codec;
pub mod phrase;
pub mod table;
pub mod validation;
pub mod wordlist;

pub use crate::bip39::checksum::{compute_checksum, verify};
pub use crate::bip39::codec::{decode, encode};
pub use crate::bip39::phrase::{format_phrase, parse_phrase};
pub use crate::bip39::validation::{validate, validate_seed_phrase_complete, verify_checksum};
pub use crate::bip39::wordlist::{index_to_word, word_to_index};

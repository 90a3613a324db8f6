//! The errors that the library reports.
use vstd::prelude::*;

verus! {

/// Why a seed phrase or a set of cost parameters was refused.
#[derive(Debug, PartialEq, Eq)]
pub enum SCypherError {
    /// The input holds no seed phrase at all.
    InvalidSeedPhrase,
    /// The number of words is not one of 12, 15, 18, 21 and 24.
    InvalidWordCount(usize),
    /// A word is not in the word list; the word is not secret and is carried along.
    InvalidBip39Word(String),
    /// The checksum bits of the phrase do not belong to its entropy.
    InvalidChecksum,
    /// The key derivation function refused its parameters.
    KeyDerivationFailed,
    /// The number of iterations is outside the accepted range.
    InvalidIterations(u32),
    /// The memory cost is outside the accepted range.
    InvalidMemoryCost(u32),
}

/// An error as contracts speak of it: the same variants, with the word as a sequence of
/// characters.
pub enum ErrorView {
    InvalidSeedPhrase,
    InvalidWordCount(nat),
    InvalidBip39Word(Seq<char>),
    InvalidChecksum,
    KeyDerivationFailed,
    InvalidIterations(u32),
    InvalidMemoryCost(u32),
}

impl View for SCypherError {
    type V = ErrorView;

    /// The same variant, with the word as a sequence of characters.
    open spec fn view(&self) -> ErrorView {
        match *self {
            SCypherError::InvalidSeedPhrase => ErrorView::InvalidSeedPhrase,
            SCypherError::InvalidWordCount(n) => ErrorView::InvalidWordCount(n as nat),
            SCypherError::InvalidBip39Word(w) => ErrorView::InvalidBip39Word(w@),
            SCypherError::InvalidChecksum => ErrorView::InvalidChecksum,
            SCypherError::KeyDerivationFailed => ErrorView::KeyDerivationFailed,
            SCypherError::InvalidIterations(n) => ErrorView::InvalidIterations(n),
            SCypherError::InvalidMemoryCost(n) => ErrorView::InvalidMemoryCost(n),
        }
    }
}

} // verus!

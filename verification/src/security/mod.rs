//! Handling of secrets in memory: containers that are overwritten when they go out of
//! use, and helpers to scrub and compare buffers.
pub mod memory;
pub mod utils;

use crate::security::memory::zeroize_vec;
use vstd::prelude::*;
use vstd::slice::slice_to_vec;
use vstd::std_specs::convert::FromSpecImpl;
use vstd::string::StringSliceAdditionalSpecFns;
use vstd::utf8::{decode_utf8, decode_utf8_encode_utf8, encode_utf8, encode_utf8_decode_utf8, encode_utf8_valid_utf8, valid_utf8};

verus! {

/// Names of the environment variables that may hold a secret, to be removed when the
/// process ends.
pub const SENSITIVE_VARIABLES: [&'static str; 3] = ["SCYPHER_PASSWORD", "SCYPHER_SEED", "TMPDIR"];

/// Size of the scratch buffer that `secure_cleanup` overwrites.
pub const SCRATCH_LEN: usize = 4096;

/// Overwrites a scratch buffer with zeros, as a last step before the process ends.
pub fn secure_cleanup() {
    let mut scratch = vec![0u8; SCRATCH_LEN];
    zeroize_vec(&mut scratch);
}

/// `std::str::from_utf8`: the text that a byte string encodes, where it is valid
/// UTF-8, and none where it is not.
#[verifier::external_body]
fn text_of<'a>(bytes: &'a [u8]) -> (text: Option<&'a str>)
    ensures
        text is Some <==> valid_utf8(bytes@),
        text is Some ==> text.unwrap().spec_bytes() == bytes@,
{
    std::str::from_utf8(bytes).ok()
}

/// A text that is overwritten with zeros when it goes out of use.
pub struct SecureString {
    data: Vec<u8>,
}

impl View for SecureString {
    type V = Seq<char>;

    /// The characters of the text.
    closed spec fn view(&self) -> Seq<char> {
        decode_utf8(self.data@)
    }
}

impl SecureString {
    /// The bytes held are the UTF-8 encoding of a text.
    #[verifier::type_invariant]
    spec fn well_formed(&self) -> bool {
        valid_utf8(self.data@)
    }

    /// A copy of the text.
    pub fn new(s: &str) -> (text: SecureString)
        ensures
            text@ == s@,
    {
        let data = slice_to_vec(s.as_bytes());
        proof {
            encode_utf8_valid_utf8(s@);
            encode_utf8_decode_utf8(s@);
        }
        SecureString { data }
    }

    /// The text.
    pub fn as_str(&self) -> (text: &str)
        ensures
            text@ == self@,
    {
        proof {
            use_type_invariant(self);
        }
        match text_of(self.data.as_slice()) {
            Some(text) => {
                proof {
                    encode_utf8_decode_utf8(text@);
                }
                text
            },
            None => "",
        }
    }

    /// The bytes of the text, in UTF-8.
    pub fn as_bytes(&self) -> (bytes: &[u8])
        ensures
            bytes@ == encode_utf8(self@),
    {
        proof {
            use_type_invariant(self);
            decode_utf8_encode_utf8(self.data@);
        }
        self.data.as_slice()
    }

    /// Length of the text in bytes.
    pub fn len(&self) -> (len: usize)
        ensures
            len == encode_utf8(self@).len(),
    {
        proof {
            use_type_invariant(self);
            decode_utf8_encode_utf8(self.data@);
        }
        self.data.len()
    }

    /// Whether the text is empty.
    pub fn is_empty(&self) -> (empty: bool)
        ensures
            empty == (encode_utf8(self@).len() == 0),
    {
        proof {
            use_type_invariant(self);
            decode_utf8_encode_utf8(self.data@);
        }
        self.data.len() == 0
    }
}

impl From<String> for SecureString {
    /// A copy of the text.
    fn from(s: String) -> (text: SecureString)
        ensures
            text@ == s@,
    {
        SecureString::new(s.as_str())
    }
}

impl FromSpecImpl<String> for SecureString {
    /// The conversion is described by the contract of `from` alone.
    open spec fn obeys_from_spec() -> bool {
        false
    }

    /// Not used: see `obeys_from_spec`.
    open spec fn from_spec(s: String) -> SecureString {
        arbitrary()
    }
}

impl<'a> From<&'a str> for SecureString {
    /// A copy of the text.
    fn from(s: &'a str) -> (text: SecureString)
        ensures
            text@ == s@,
    {
        SecureString::new(s)
    }
}

impl<'a> FromSpecImpl<&'a str> for SecureString {
    /// The conversion is described by the contract of `from` alone.
    open spec fn obeys_from_spec() -> bool {
        false
    }

    /// Not used: see `obeys_from_spec`.
    open spec fn from_spec(s: &'a str) -> SecureString {
        arbitrary()
    }
}

impl Drop for SecureString {
    /// Overwrites the bytes of the text with zeros.
    fn drop(&mut self)
        opens_invariants none
        no_unwind
    {
        zeroize_vec(&mut self.data);
    }
}

/// Bytes that are overwritten with zeros when they go out of use.
pub struct SecureBytes {
    data: Vec<u8>,
}

impl View for SecureBytes {
    type V = Seq<u8>;

    /// The bytes held.
    closed spec fn view(&self) -> Seq<u8> {
        self.data@
    }
}

impl SecureBytes {
    /// Takes the bytes into custody.
    pub fn new(data: Vec<u8>) -> (bytes: SecureBytes)
        ensures
            bytes@ == data@,
    {
        SecureBytes { data }
    }

    /// A copy of the bytes.
    pub fn from_slice(slice: &[u8]) -> (bytes: SecureBytes)
        ensures
            bytes@ == slice@,
    {
        SecureBytes { data: slice_to_vec(slice) }
    }

    /// The bytes.
    pub fn as_slice(&self) -> (slice: &[u8])
        ensures
            slice@ == self@,
    {
        self.data.as_slice()
    }

    /// Number of bytes.
    pub fn len(&self) -> (len: usize)
        ensures
            len == self@.len(),
    {
        self.data.len()
    }

    /// Whether there is no byte.
    pub fn is_empty(&self) -> (empty: bool)
        ensures
            empty == (self@.len() == 0),
    {
        self.data.len() == 0
    }

    /// Hands the bytes out, as they are; they are no longer overwritten by this value.
    pub fn into_vec(self) -> (data: Vec<u8>)
        ensures
            data@ == self@,
    {
        let mut this = self;
        let mut data: Vec<u8> = Vec::new();
        std::mem::swap(&mut this.data, &mut data);
        data
    }
}

impl Drop for SecureBytes {
    /// Overwrites the bytes with zeros.
    fn drop(&mut self)
        opens_invariants none
        no_unwind
    {
        zeroize_vec(&mut self.data);
    }
}

} // verus!

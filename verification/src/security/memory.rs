//! Scrubbing of buffers that held secrets.
use rand::RngCore;
use vstd::prelude::*;
use vstd::slice::slice_to_vec;
use zeroize::Zeroize;

verus! {

/// A byte string of `len` zero bytes.
pub open spec fn zeros(len: nat) -> Seq<u8> {
    Seq::new(len, |k: int| 0u8)
}

/// `RngCore::fill_bytes` on the generator that `rand::thread_rng` hands out: the
/// buffer keeps its length, and nothing is known of what it holds afterwards.
#[verifier::external_body]
pub(crate) fn fill_random(buffer: &mut [u8])
    ensures
        final(buffer)@.len() == old(buffer)@.len(),
{
    rand::thread_rng().fill_bytes(buffer);
}

/// `Zeroize::zeroize` of the crate zeroize on a byte slice: every byte becomes zero
/// and the length stays.
#[verifier::external_body]
pub(crate) fn zeroize_slice(buffer: &mut [u8])
    ensures
        final(buffer)@ == zeros(old(buffer)@.len()),
{
    buffer.zeroize();
}

/// `Zeroize::zeroize` of the crate zeroize on a byte vector: the bytes and the spare
/// capacity are overwritten with zeros, then the vector is cleared.
#[verifier::external_body]
pub(crate) fn zeroize_vec(buffer: &mut Vec<u8>)
    ensures
        final(buffer)@.len() == 0,
    opens_invariants none
    no_unwind
{
    buffer.zeroize();
}

/// `Zeroize::zeroize` of the crate zeroize on a vector of booleans: the items and the
/// spare capacity are overwritten with zeros, then the vector is cleared.
#[verifier::external_body]
pub(crate) fn zeroize_bits(bits: &mut Vec<bool>)
    ensures
        final(bits)@.len() == 0,
    opens_invariants none
    no_unwind
{
    bits.zeroize();
}

/// `Zeroize::zeroize` of the crate zeroize on a vector of strings: the bytes of every
/// string and the spare capacity are overwritten with zeros, then the vector is cleared.
#[verifier::external_body]
pub(crate) fn zeroize_words(words: &mut Vec<String>)
    ensures
        final(words)@.len() == 0,
{
    words.zeroize();
}

/// `Vec::shrink_to_fit`: the vector keeps its items; the memory it does not need goes
/// back to the allocator.
#[verifier::external_body]
fn shrink_to_fit(vec: &mut Vec<Vec<u8>>)
    ensures
        final(vec)@ == old(vec)@,
{
    vec.shrink_to_fit();
}

/// Overwrites a buffer, first with random bytes, then with zeros.
pub fn secure_clear(buffer: &mut [u8])
    ensures
        final(buffer)@ == zeros(old(buffer)@.len()),
{
    fill_random(buffer);
    zeroize_slice(buffer);
}

/// The byte of the test pattern at position `k`.
pub open spec fn pattern_byte(k: int) -> u8 {
    (k % 256) as u8
}

/// Writes a pattern into a fresh buffer of 1024 bytes and reads it back; the answer
/// says whether every byte read is the byte written. The buffer is scrubbed at the end.
pub fn check_memory_integrity() -> (intact: bool)
    ensures
        intact,
{
    let mut buffer = vec![0u8; 1024];
    let mut k: usize = 0;
    while k < 1024
        invariant
            k <= 1024,
            buffer@.len() == 1024,
            forall|j: int| 0 <= j < k ==> buffer@[j] == pattern_byte(j),
        decreases 1024 - k,
    {
        buffer.set(k, (k % 256) as u8);
        k = k + 1;
    }
    let mut intact = true;
    let mut k: usize = 0;
    while k < 1024
        invariant
            k <= 1024,
            buffer@.len() == 1024,
            forall|j: int| 0 <= j < 1024 ==> buffer@[j] == pattern_byte(j),
            intact,
        decreases 1024 - k,
    {
        assert(buffer@[k as int] == pattern_byte(k as int));
        if buffer[k] != (k % 256) as u8 {
            intact = false;
        }
        k = k + 1;
    }
    secure_clear(buffer.as_mut_slice());
    intact
}

/// Scrubs every buffer of a list, then empties the list and gives its memory back.
pub fn deep_clear_vec(vec: &mut Vec<Vec<u8>>)
    ensures
        final(vec)@.len() == 0,
{
    let count = vec.len();
    let mut k: usize = 0;
    while k < count
        invariant
            k <= count == vec@.len(),
        decreases count - k,
    {
        zeroize_vec(&mut vec[k]);
        k = k + 1;
    }
    vec.clear();
    shrink_to_fit(vec);
}

/// A byte buffer that is overwritten when it goes out of use.
pub struct SecureBuffer {
    data: Vec<u8>,
}

impl View for SecureBuffer {
    type V = Seq<u8>;

    /// The bytes of the buffer.
    closed spec fn view(&self) -> Seq<u8> {
        self.data@
    }
}

impl SecureBuffer {
    /// A buffer of `size` zero bytes.
    pub fn new(size: usize) -> (buffer: SecureBuffer)
        ensures
            buffer@ == zeros(size as nat),
    {
        let data = vec![0u8; size];
        proof {
            assert(data@ =~= zeros(size as nat));
        }
        SecureBuffer { data }
    }

    /// A buffer that holds a copy of the bytes.
    pub fn from_slice(slice: &[u8]) -> (buffer: SecureBuffer)
        ensures
            buffer@ == slice@,
    {
        SecureBuffer { data: slice_to_vec(slice) }
    }

    /// The bytes of the buffer.
    pub fn as_slice(&self) -> (slice: &[u8])
        ensures
            slice@ == self@,
    {
        self.data.as_slice()
    }

    /// Number of bytes in the buffer.
    pub fn len(&self) -> (len: usize)
        ensures
            len == self@.len(),
    {
        self.data.len()
    }

    /// Whether the buffer holds no byte.
    pub fn is_empty(&self) -> (empty: bool)
        ensures
            empty == (self@.len() == 0),
    {
        self.data.len() == 0
    }

    /// Overwrites the bytes with zeros and empties the buffer.
    pub fn zeroize(&mut self)
        ensures
            final(self)@.len() == 0,
    {
        zeroize_vec(&mut self.data);
    }

    /// The bytes of the buffer, to be written.
    pub fn as_mut_slice(&mut self) -> (slice: &mut [u8])
        ensures
            slice@ == old(self)@,
            final(self)@ == final(slice)@,
    {
        self.data.as_mut_slice()
    }
}

impl Drop for SecureBuffer {
    /// Overwrites the bytes with zeros.
    fn drop(&mut self)
        opens_invariants none
        no_unwind
    {
        zeroize_vec(&mut self.data);
    }
}

} // verus!

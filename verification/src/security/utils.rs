//! Small helpers for work on secrets.
use crate::security::memory::{fill_random, zeroize_slice, zeros};
use vstd::prelude::*;

verus! {

/// Whether two byte strings are equal, in a time that depends on their lengths only.
///
/// Byte strings of different lengths are unequal; for equal lengths every pair of bytes
/// is looked at, whatever the earlier pairs were.
pub fn constant_time_eq(a: &[u8], b: &[u8]) -> (equal: bool)
    ensures
        equal == (a@ == b@),
{
    if a.len() != b.len() {
        return false;
    }
    let len = a.len();
    let mut result: u8 = 0;
    let mut k: usize = 0;
    proof {
        assert(a@.take(0) =~= b@.take(0));
    }
    while k < len
        invariant
            k <= len,
            len == a@.len(),
            len == b@.len(),
            (result == 0) == (a@.take(k as int) == b@.take(k as int)),
        decreases len - k,
    {
        let x: u8 = a[k];
        let y: u8 = b[k];
        let ghost before = result;
        result = result | (x ^ y);
        proof {
            assert((before | (x ^ y) == 0) == (before == 0 && x == y)) by (bit_vector);
            if before == 0 && x == y {
                assert(a@.take(k + 1) =~= a@.take(k as int).push(x));
                assert(b@.take(k + 1) =~= b@.take(k as int).push(y));
            } else if before == 0 {
                assert(a@.take(k + 1)[k as int] != b@.take(k + 1)[k as int]);
            } else {
                assert(a@.take(k as int) =~= a@.take(k + 1).take(k as int));
                assert(b@.take(k as int) =~= b@.take(k + 1).take(k as int));
            }
        }
        k = k + 1;
    }
    proof {
        assert(a@.take(len as int) =~= a@);
        assert(b@.take(len as int) =~= b@);
    }
    result == 0
}

/// `len` bytes from the thread's random number generator. Nothing is known of the
/// bytes but how many they are.
pub fn secure_random_bytes(len: usize) -> (bytes: Vec<u8>)
    ensures
        bytes@.len() == len,
{
    let mut bytes = vec![0u8; len];
    fill_random(bytes.as_mut_slice());
    bytes
}

/// Overwrites a buffer, first with random bytes, then with zeros.
pub fn secure_wipe(buffer: &mut [u8])
    ensures
        final(buffer)@ == zeros(old(buffer)@.len()),
{
    fill_random(buffer);
    zeroize_slice(buffer);
}

} // verus!

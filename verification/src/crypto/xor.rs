//! The XOR of two byte strings.
use vstd::prelude::*;

verus! {

/// The XOR of two byte strings of one length, byte by byte.
pub open spec fn xor_spec(data: Seq<u8>, keystream: Seq<u8>) -> Seq<u8> {
    Seq::new(data.len(), |k: int| data[k] ^ keystream[k])
}

/// Applying one keystream twice gives the data back.
pub proof fn lemma_xor_involution(data: Seq<u8>, keystream: Seq<u8>)
    ensures
        xor_spec(xor_spec(data, keystream), keystream) == data,
{
    assert forall|k: int| 0 <= k < data.len() implies (data[k] ^ keystream[k]) ^ keystream[k]
        == data[k] by {
        let x = data[k];
        let y = keystream[k];
        assert((x ^ y) ^ y == x) by (bit_vector);
    }
    assert(xor_spec(xor_spec(data, keystream), keystream) =~= data);
}

/// Combines data with a keystream of the same length.
pub fn xor_bytes(data: &[u8], keystream: &[u8]) -> (combined: Vec<u8>)
    requires
        data@.len() == keystream@.len(),
    ensures
        combined@ == xor_spec(data@, keystream@),
{
    let len = data.len();
    let mut combined: Vec<u8> = Vec::with_capacity(len);
    let mut k: usize = 0;
    while k < len
        invariant
            k <= len,
            len == data@.len(),
            len == keystream@.len(),
            combined@ == xor_spec(data@, keystream@).take(k as int),
        decreases len - k,
    {
        combined.push(data[k] ^ keystream[k]);
        k = k + 1;
        proof {
            assert(combined@ =~= xor_spec(data@, keystream@).take(k as int));
        }
    }
    proof {
        assert(xor_spec(data@, keystream@).take(k as int) =~= xor_spec(data@, keystream@));
    }
    combined
}

} // verus!

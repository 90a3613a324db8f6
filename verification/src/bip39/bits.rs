//! Bit strings: the common ground between words, entropy bytes and checksum.
//!
//! A bit string is a sequence of booleans, most significant bit first. A number of
//! `width` bits is written by `bits_of` and read back by `value_of`; a sequence of
//! numbers is written one after the other by `join_bits`. `BitString` is a bit string
//! in memory.
use vstd::arithmetic::power2::{lemma2_to64, lemma2_to64_rest, lemma_pow2_strictly_increases, lemma_pow2_unfold, pow2};
use crate::security::memory::zeroize_bits;
use vstd::prelude::*;

verus! {

/// The `width` low bits of `value`, most significant first.
pub open spec fn bits_of(value: nat, width: nat) -> Seq<bool>
    decreases width,
{
    if width == 0 {
        Seq::empty()
    } else {
        bits_of(value / 2, (width - 1) as nat).push(value % 2 == 1)
    }
}

/// The number that a bit string writes.
pub open spec fn value_of(bits: Seq<bool>) -> nat
    decreases bits.len(),
{
    if bits.len() == 0 {
        0
    } else {
        2 * value_of(bits.drop_last()) + if bits.last() {
            1nat
        } else {
            0nat
        }
    }
}

/// The bit strings of the values, each `width` bits wide, one after the other.
pub open spec fn join_bits(values: Seq<nat>, width: nat) -> Seq<bool>
    decreases values.len(),
{
    if values.len() == 0 {
        Seq::empty()
    } else {
        join_bits(values.drop_last(), width) + bits_of(values.last(), width)
    }
}

/// The numbers written by `count` consecutive groups of `width` bits.
pub open spec fn split_bits(bits: Seq<bool>, width: nat, count: nat) -> Seq<nat> {
    Seq::new(count, |k: int| value_of(bits.subrange(k * width, (k + 1) * width)))
}

/// Bytes as numbers.
pub open spec fn byte_values(bytes: Seq<u8>) -> Seq<nat> {
    Seq::new(bytes.len(), |k: int| bytes[k] as nat)
}

/// The bit string of a byte string: eight bits for each byte.
pub open spec fn bytes_bits(bytes: Seq<u8>) -> Seq<bool> {
    join_bits(byte_values(bytes), 8)
}

/// The byte string of a bit string whose length is a multiple of eight.
pub open spec fn bits_bytes(bits: Seq<bool>) -> Seq<u8> {
    Seq::new(bits.len() / 8, |k: int| value_of(bits.subrange(8 * k, 8 * k + 8)) as u8)
}

/// A number written with `width` bits has `width` bits.
pub proof fn lemma_bits_of_len(value: nat, width: nat)
    ensures
        bits_of(value, width).len() == width,
    decreases width,
{
    if width > 0 {
        lemma_bits_of_len(value / 2, (width - 1) as nat);
    }
}

/// A bit string of length `n` writes a number below two to the `n`.
pub proof fn lemma_value_of_bound(bits: Seq<bool>)
    ensures
        value_of(bits) < pow2(bits.len()),
    decreases bits.len(),
{
    if bits.len() == 0 {
        lemma_pow2_unfold(1);
        lemma2_to64();
    } else {
        lemma_value_of_bound(bits.drop_last());
        lemma_pow2_unfold(bits.len());
    }
}

/// Reading what was written gives the number back, as far as it fits the width.
pub proof fn lemma_value_of_bits_of(value: nat, width: nat)
    requires
        value < pow2(width),
    ensures
        value_of(bits_of(value, width)) == value,
    decreases width,
{
    if width == 0 {
        lemma2_to64();
    } else {
        lemma_pow2_unfold(width);
        lemma_value_of_bits_of(value / 2, (width - 1) as nat);
        let b = bits_of(value, width);
        assert(b.drop_last() =~= bits_of(value / 2, (width - 1) as nat));
    }
}

/// Writing what was read gives the bit string back.
pub proof fn lemma_bits_of_value_of(bits: Seq<bool>)
    ensures
        bits_of(value_of(bits), bits.len()) == bits,
    decreases bits.len(),
{
    if bits.len() > 0 {
        lemma_bits_of_value_of(bits.drop_last());
        assert(bits_of(value_of(bits), bits.len()) =~= bits);
    }
}

/// A joined bit string has `width` bits for each value.
pub proof fn lemma_join_bits_len(values: Seq<nat>, width: nat)
    ensures
        join_bits(values, width).len() == values.len() * width,
    decreases values.len(),
{
    if values.len() > 0 {
        lemma_join_bits_len(values.drop_last(), width);
        lemma_bits_of_len(values.last(), width);
        assert((values.len() - 1) * width + width == values.len() * width) by (nonlinear_arith);
    }
}

/// Group `k` of a joined bit string is the bit string of value `k`.
pub proof fn lemma_join_bits_group(values: Seq<nat>, width: nat, k: int)
    requires
        0 <= k < values.len(),
    ensures
        0 <= k * width <= (k + 1) * width <= join_bits(values, width).len(),
        join_bits(values, width).subrange(k * width, (k + 1) * width) == bits_of(
            values[k],
            width,
        ),
    decreases values.len(),
{
    let n = values.len() as int;
    lemma_join_bits_len(values, width);
    lemma_join_bits_len(values.drop_last(), width);
    lemma_bits_of_len(values.last(), width);
    assert(0 <= k * width <= (k + 1) * width <= n * width && (n - 1) * width + width == n
        * width && (k + 1) * width == k * width + width) by (nonlinear_arith)
        requires
            0 <= k < n,
    ;
    if k == n - 1 {
        assert(join_bits(values, width).subrange(k * width, (k + 1) * width) =~= bits_of(
            values[k],
            width,
        ));
    } else {
        lemma_join_bits_group(values.drop_last(), width, k);
        assert((k + 1) * width <= (n - 1) * width) by (nonlinear_arith)
            requires
                k + 1 <= n - 1,
        ;
        assert(join_bits(values, width).subrange(k * width, (k + 1) * width) =~= join_bits(
            values.drop_last(),
            width,
        ).subrange(k * width, (k + 1) * width));
    }
}

/// Splitting a joined bit string gives the values back, as far as each fits the width.
pub proof fn lemma_split_join(values: Seq<nat>, width: nat)
    requires
        forall|k: int| 0 <= k < values.len() ==> values[k] < pow2(width),
    ensures
        split_bits(join_bits(values, width), width, values.len()) == values,
{
    let bits = join_bits(values, width);
    assert forall|k: int| 0 <= k < values.len() implies split_bits(bits, width, values.len())[k]
        == values[k] by {
        lemma_join_bits_group(values, width, k);
        lemma_value_of_bits_of(values[k], width);
    }
    assert(split_bits(bits, width, values.len()) =~= values);
}

/// Joining the groups of a bit string gives the bit string back.
pub proof fn lemma_join_split(bits: Seq<bool>, width: nat, count: nat)
    requires
        bits.len() == count * width,
    ensures
        join_bits(split_bits(bits, width, count), width) == bits,
    decreases count,
{
    if count == 0 {
        assert(0 * width == 0) by (nonlinear_arith);
        assert(join_bits(split_bits(bits, width, count), width) =~= bits);
    } else {
        let m = (count - 1) as nat;
        assert(m * width + width == count * width && 0 <= m * width) by (nonlinear_arith)
            requires
                m + 1 == count,
        ;
        let head = bits.subrange(0, (m * width) as int);
        let tail = bits.subrange((m * width) as int, (count * width) as int);
        lemma_join_split(head, width, m);
        let groups = split_bits(bits, width, count);
        assert(groups.drop_last() =~= split_bits(head, width, m)) by {
            assert forall|k: int| 0 <= k < m implies groups[k] == split_bits(head, width, m)[k] by {
                assert(0 <= k * width <= (k + 1) * width <= m * width) by (nonlinear_arith)
                    requires
                        0 <= k < m,
                ;
                assert(bits.subrange(k * width, (k + 1) * width) =~= head.subrange(
                    k * width,
                    (k + 1) * width,
                ));
            }
        }
        lemma_bits_of_value_of(tail);
        assert(groups.last() == value_of(tail));
        assert(join_bits(groups, width) =~= bits);
    }
}

/// The bytes of a bit string, written as bits again, are the bit string.
pub proof fn lemma_bytes_bits_of_bits_bytes(bits: Seq<bool>)
    requires
        bits.len() % 8 == 0,
    ensures
        bytes_bits(bits_bytes(bits)) == bits,
{
    let count = bits.len() / 8;
    lemma2_to64();
    assert forall|k: int| 0 <= k < count implies byte_values(bits_bytes(bits))[k] == split_bits(
        bits,
        8,
        count,
    )[k] by {
        lemma_value_of_bound(bits.subrange(8 * k, 8 * k + 8));
    }
    assert(byte_values(bits_bytes(bits)) =~= split_bits(bits, 8, count));
    lemma_join_split(bits, 8, count);
}

/// The bits of a byte string, read as bytes again, are the byte string.
pub proof fn lemma_bits_bytes_of_bytes_bits(bytes: Seq<u8>)
    ensures
        bytes_bits(bytes).len() == 8 * bytes.len(),
        bits_bytes(bytes_bits(bytes)) == bytes,
{
    let values = byte_values(bytes);
    lemma2_to64();
    lemma_join_bits_len(values, 8);
    lemma_split_join(values, 8);
    let bits = bytes_bits(bytes);
    assert forall|k: int| 0 <= k < bytes.len() implies bits_bytes(bits)[k] == bytes[k] by {
        assert(split_bits(bits, 8, values.len())[k] == values[k]);
    }
    assert(bits_bytes(bits) =~= bytes);
}

/// A bit string in memory. It holds secrets, so its memory is overwritten with zeros
/// when it goes out of use.
pub struct BitString {
    bits: Vec<bool>,
}

impl View for BitString {
    type V = Seq<bool>;

    /// The bits, first bit first.
    closed spec fn view(&self) -> Seq<bool> {
        self.bits@
    }
}

impl BitString {
    /// The empty bit string.
    pub fn new() -> (bits: BitString)
        ensures
            bits@ == Seq::<bool>::empty(),
    {
        BitString { bits: Vec::new() }
    }

    /// Number of bits.
    pub fn len(&self) -> (len: usize)
        ensures
            len == self@.len(),
    {
        self.bits.len()
    }

    /// Appends the `width` low bits of `value`, most significant first.
    pub fn append(&mut self, value: u64, width: usize)
        ensures
            final(self)@ == old(self)@ + bits_of(value as nat, width as nat),
        decreases width,
    {
        if width > 0 {
            self.append(value / 2, width - 1);
            self.bits.push(value % 2 == 1);
        }
        proof {
            assert(self@ =~= old(self)@ + bits_of(value as nat, width as nat));
        }
    }

    /// Reads the number written by `width` bits, from position `start` on.
    pub fn read(&self, start: usize, width: usize) -> (value: u64)
        requires
            width <= 64,
            start + width <= self@.len(),
        ensures
            value == value_of(self@.subrange(start as int, start + width)),
    {
        let total: usize = self.bits.len();
        let mut value: u64 = 0;
        let mut t: usize = 0;
        while t < width
            invariant
                t <= width <= 64,
                start + width <= total == self@.len(),
                value == value_of(self@.subrange(start as int, start + t)),
            decreases width - t,
        {
            proof {
                lemma_value_of_bound(self@.subrange(start as int, start + t));
                lemma2_to64_rest();
                if t < 63 {
                    lemma_pow2_strictly_increases(t as nat, 63);
                }
                assert(self@.subrange(start as int, start + t + 1).drop_last()
                    =~= self@.subrange(start as int, start + t));
            }
            let bit: u64 = if self.bits[start + t] {
                1
            } else {
                0
            };
            value = value * 2 + bit;
            t = t + 1;
        }
        value
    }

    /// Writes a byte string as a bit string.
    pub fn from_bytes(bytes: &[u8]) -> (bits: BitString)
        ensures
            bits@ == bytes_bits(bytes@),
    {
        let mut bits = BitString::new();
        let mut k: usize = 0;
        while k < bytes.len()
            invariant
                k <= bytes@.len(),
                bits@ == bytes_bits(bytes@.take(k as int)),
            decreases bytes@.len() - k,
        {
            bits.append(bytes[k] as u64, 8);
            proof {
                let next = byte_values(bytes@.take(k + 1));
                assert(next.drop_last() =~= byte_values(bytes@.take(k as int)));
                assert(next.last() == bytes@[k as int] as nat);
            }
            k = k + 1;
        }
        proof {
            assert(bytes@.take(k as int) =~= bytes@);
        }
        bits
    }

    /// Reads `count` bytes from position `start` on.
    pub fn to_bytes(&self, start: usize, count: usize) -> (bytes: Vec<u8>)
        requires
            start + 8 * count <= self@.len(),
        ensures
            bytes@ == bits_bytes(self@.subrange(start as int, start + 8 * count)),
    {
        let total: usize = self.bits.len();
        let ghost part = self@.subrange(start as int, start + 8 * count);
        let mut bytes: Vec<u8> = Vec::with_capacity(count);
        let mut k: usize = 0;
        while k < count
            invariant
                k <= count,
                start + 8 * count <= total == self@.len(),
                part == self@.subrange(start as int, start + 8 * count),
                bytes@ == bits_bytes(part).take(k as int),
            decreases count - k,
        {
            let value: u64 = self.read(start + 8 * k, 8);
            proof {
                assert(self@.subrange(start + 8 * k, start + 8 * k + 8) =~= part.subrange(
                    8 * k,
                    8 * k + 8,
                ));
                lemma_value_of_bound(part.subrange(8 * k, 8 * k + 8));
                lemma2_to64();
            }
            bytes.push(value as u8);
            k = k + 1;
            proof {
                assert(bytes@ =~= bits_bytes(part).take(k as int));
            }
        }
        proof {
            assert(bits_bytes(part).take(k as int) =~= bits_bytes(part));
        }
        bytes
    }
}

impl Drop for BitString {
    /// Overwrites the bits with zeros.
    fn drop(&mut self)
        opens_invariants none
        no_unwind
    {
        zeroize_bits(&mut self.bits);
    }
}

} // verus!

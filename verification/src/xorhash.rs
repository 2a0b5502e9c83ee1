//! The XOR-fold reference hash: the input is read 8 bytes at a time as
//! little-endian words, the last word zero-padded at the high end, and all
//! words are XORed into a 64-bit accumulator.

use vstd::prelude::*;
use vstd::bytes::{spec_u64_from_le_bytes, u64_from_le_bytes};
use vstd::slice::slice_subrange;

verus! {

/// The 8-byte chunk of `data` starting at `i`: the remaining bytes are
/// placed at the start, and the high end is padded with zeroes when fewer
/// than 8 bytes remain.
pub open spec fn padded_chunk(data: Seq<u8>, i: int) -> Seq<u8> {
    Seq::new(8, |j: int| if i + j < data.len() { data[i + j] } else { 0u8 })
}

/// XOR of the little-endian readings of the 8-byte chunks of `data` from
/// position `i` on.
pub open spec fn xor_fold_from(data: Seq<u8>, i: int) -> u64
    decreases data.len() - i,
{
    if i + 8 < data.len() {
        spec_u64_from_le_bytes(padded_chunk(data, i)) ^ xor_fold_from(data, i + 8)
    } else if i < data.len() {
        spec_u64_from_le_bytes(padded_chunk(data, i))
    } else {
        0u64
    }
}

/// The XOR-fold of the whole input. The empty input folds to zero.
pub open spec fn xor_fold(data: Seq<u8>) -> u64 {
    xor_fold_from(data, 0)
}

proof fn lemma_xor_zero(a: u64)
    ensures
        a ^ 0u64 == a,
        0u64 ^ a == a,
{
    assert(a ^ 0u64 == a) by (bit_vector);
    assert(0u64 ^ a == a) by (bit_vector);
}

proof fn lemma_xor_assoc(a: u64, b: u64, c: u64)
    ensures
        (a ^ b) ^ c == a ^ (b ^ c),
{
    assert((a ^ b) ^ c == a ^ (b ^ c)) by (bit_vector);
}

/// The trailing chunk of `data` at `i`: its remaining bytes placed at the
/// start of an 8-byte zero buffer.
fn tail_chunk(data: &[u8], i: usize) -> (out: Vec<u8>)
    requires
        i < data@.len(),
        data@.len() < i + 8,
    ensures
        out@ == padded_chunk(data@, i as int),
{
    let mut out: Vec<u8> = Vec::new();
    let len: usize = data.len();
    let remaining: usize = len - i;
    let mut j: usize = 0;
    while j < 8
        invariant
            j <= 8,
            i < data@.len(),
            data@.len() < i + 8,
            len == data@.len(),
            remaining == data@.len() - i,
            out@ =~= padded_chunk(data@, i as int).subrange(0, j as int),
        decreases 8 - j,
    {
        if j < remaining {
            out.push(data[i + j]);
        } else {
            out.push(0u8);
        }
        j += 1;
    }
    proof {
        assert(out@ =~= padded_chunk(data@, i as int));
    }
    out
}

/// The XOR-fold hash of `data` as a 64-bit value.
pub fn xor_hash_u64(data: &[u8]) -> (h: u64)
    ensures
        h == xor_fold(data@),
{
    let mut hash: u64 = 0;
    let mut i: usize = 0;
    proof {
        lemma_xor_zero(xor_fold_from(data@, 0));
    }
    while data.len() - i >= 8
        invariant
            i <= data@.len(),
            hash ^ xor_fold_from(data@, i as int) == xor_fold(data@),
        decreases data@.len() - i,
    {
        let chunk = slice_subrange(data, i, i + 8);
        proof {
            assert(chunk@ =~= padded_chunk(data@, i as int));
        }
        let word = u64_from_le_bytes(chunk);
        proof {
            let rest = xor_fold_from(data@, i + 8);
            if i + 8 < data@.len() {
                assert(xor_fold_from(data@, i as int) == word ^ rest);
            } else {
                assert(xor_fold_from(data@, i as int) == word);
                lemma_xor_zero(word);
                assert(xor_fold_from(data@, i + 8) == 0u64);
            }
            lemma_xor_assoc(hash, word, xor_fold_from(data@, i + 8));
        }
        hash = hash ^ word;
        i += 8;
    }
    if i < data.len() {
        let last = tail_chunk(data, i);
        let word = u64_from_le_bytes(last.as_slice());
        proof {
            assert(xor_fold_from(data@, i as int) == word);
            lemma_xor_assoc(hash, word, 0u64);
            lemma_xor_zero(word);
            lemma_xor_zero(hash ^ word);
        }
        hash = hash ^ word;
    } else {
        proof {
            assert(xor_fold_from(data@, i as int) == 0u64);
            lemma_xor_zero(hash);
        }
    }
    hash
}

} // verus!

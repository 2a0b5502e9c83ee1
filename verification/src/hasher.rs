//! The Hasher capability: a closed set of hash variants, each with a fixed
//! output width, whose digest is a pure function of the construction
//! parameters and the input bytes.

use vstd::prelude::*;
use vstd::bytes::{spec_u64_to_le_bytes, u64_to_le_bytes};
use crate::digest::{
    blake3_digest, blake3_of, polymur_digest, polymur_of, umash_component_digest,
    umash_component_of, umash_fingerprint_digest, umash_fingerprint_of,
};
use crate::xorhash::{xor_fold, xor_hash_u64};

verus! {

/// Which of the two UMASH component hashes a component hasher computes.
#[derive(Clone, Copy, PartialEq, Eq, Structural)]
pub enum Component {
    Primary,
    Secondary,
}

/// A hash variant together with its construction-time parameters. Seeded
/// variants take their seed explicitly, so that a digest is reproducible
/// from the variant value alone.
#[derive(Clone, Copy, PartialEq, Eq, Structural)]
pub enum Hasher {
    /// The XOR-fold reference hash; 8-byte output.
    Xor,
    /// BLAKE3; 32-byte output.
    Blake3,
    /// Polymur, expanded from a 64-bit seed; 8-byte output, little-endian.
    Polymur { seed: u64 },
    /// The UMASH fingerprint for parameters derived from the seed; 16-byte
    /// output: the primary then the secondary value, each little-endian.
    UmashFingerprint { seed: u64 },
    /// One UMASH component hash for parameters derived from the seed;
    /// 8-byte output, little-endian.
    UmashComponent { seed: u64, component: Component },
}

impl Hasher {
    /// The output width of this variant, in bytes.
    pub open spec fn output_size_spec(self) -> nat {
        match self {
            Hasher::Xor => 8,
            Hasher::Blake3 => 32,
            Hasher::Polymur { .. } => 8,
            Hasher::UmashFingerprint { .. } => 16,
            Hasher::UmashComponent { .. } => 8,
        }
    }

    /// The digest this variant computes: a function of the variant (with
    /// its construction parameters) and the input bytes alone.
    pub open spec fn digest_spec(self, data: Seq<u8>) -> Seq<u8> {
        match self {
            Hasher::Xor => spec_u64_to_le_bytes(xor_fold(data)),
            Hasher::Blake3 => blake3_of(data),
            Hasher::Polymur { seed } => spec_u64_to_le_bytes(polymur_of(seed, data)),
            Hasher::UmashFingerprint { seed } => spec_u64_to_le_bytes(
                umash_fingerprint_of(seed, data).0,
            ) + spec_u64_to_le_bytes(umash_fingerprint_of(seed, data).1),
            Hasher::UmashComponent { seed, component } => spec_u64_to_le_bytes(
                umash_component_of(seed, component is Secondary, data),
            ),
        }
    }

    /// The output width in bytes; constant for the instance's lifetime.
    pub fn output_size(&self) -> (n: usize)
        ensures
            n as nat == self.output_size_spec(),
    {
        match self {
            Hasher::Xor => 8,
            Hasher::Blake3 => 32,
            Hasher::Polymur { .. } => 8,
            Hasher::UmashFingerprint { .. } => 16,
            Hasher::UmashComponent { .. } => 8,
        }
    }

    /// Fully overwrites `out` with the digest of `data`. The result is the
    /// same on every call with the same variant and input, and its length
    /// always equals the declared output size.
    pub fn hash(&self, data: &[u8], out: &mut Vec<u8>)
        requires
            old(out)@.len() == self.output_size_spec(),
        ensures
            final(out)@ == self.digest_spec(data@),
            final(out)@.len() == self.output_size_spec(),
    {
        match self {
            Hasher::Xor => {
                let word = xor_hash_u64(data);
                let bytes = u64_to_le_bytes(word);
                write_bytes(out, &bytes);
            },
            Hasher::Blake3 => {
                let bytes = blake3_digest(data);
                write_bytes(out, &bytes);
            },
            Hasher::Polymur { seed } => {
                let word = polymur_digest(*seed, data);
                let bytes = u64_to_le_bytes(word);
                write_bytes(out, &bytes);
            },
            Hasher::UmashFingerprint { seed } => {
                let fp = umash_fingerprint_digest(*seed, data);
                let mut bytes = u64_to_le_bytes(fp.0);
                let mut tail = u64_to_le_bytes(fp.1);
                bytes.append(&mut tail);
                write_bytes(out, &bytes);
            },
            Hasher::UmashComponent { seed, component } => {
                let secondary = match component {
                    Component::Primary => false,
                    Component::Secondary => true,
                };
                let word = umash_component_digest(*seed, secondary, data);
                let bytes = u64_to_le_bytes(word);
                write_bytes(out, &bytes);
            },
        }
    }
}

/// Copies `src` into `out` element by element; `out` must already have the
/// right length, and every byte of it is overwritten.
fn write_bytes(out: &mut Vec<u8>, src: &Vec<u8>)
    requires
        old(out)@.len() == src@.len(),
    ensures
        final(out)@ == src@,
{
    let mut i: usize = 0;
    while i < src.len()
        invariant
            i <= src@.len(),
            out@.len() == src@.len(),
            forall|k: int| 0 <= k < i ==> out@[k] == src@[k],
        decreases src@.len() - i,
    {
        out.set(i, src[i]);
        i += 1;
    }
    proof {
        assert(out@ =~= src@);
    }
}

} // verus!

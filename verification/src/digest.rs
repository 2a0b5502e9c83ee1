//! Calls into the outside hash libraries. Each digest is a pure function of
//! the construction parameters (a seed, where the variant is keyed) and the
//! input bytes; those functions are given names here, and each wrapper's
//! contract ties its call to the name.

use vstd::prelude::*;

verus! {

/// The 32-byte BLAKE3 digest of the input bytes.
pub uninterp spec fn blake3_of(data: Seq<u8>) -> Seq<u8>;

/// The 64-bit Polymur hash of the input bytes, for parameters expanded from
/// a 64-bit seed.
pub uninterp spec fn polymur_of(seed: u64, data: Seq<u8>) -> u64;

/// The 128-bit UMASH fingerprint (primary, secondary) of the input bytes,
/// for parameters derived from a 64-bit seed.
pub uninterp spec fn umash_fingerprint_of(seed: u64, data: Seq<u8>) -> (u64, u64);

/// One 64-bit UMASH component hash (secondary when the flag is set) of the
/// input bytes, for parameters derived from a 64-bit seed.
pub uninterp spec fn umash_component_of(seed: u64, secondary: bool, data: Seq<u8>) -> u64;

/// Relies on blake3::hash: a 32-byte digest, a function of the input bytes
/// alone (blake3::OUT_LEN is 32).
#[verifier::external_body]
pub(crate) fn blake3_digest(data: &[u8]) -> (r: Vec<u8>)
    ensures
        r@ == blake3_of(data@),
        r@.len() == 32,
{
    blake3::hash(data).as_bytes().to_vec()
}

/// Relies on polymur_hash::PolymurHash: from_u64_seed expands the seed
/// deterministically, and hash is a function of that state and the input.
#[verifier::external_body]
pub(crate) fn polymur_digest(seed: u64, data: &[u8]) -> (r: u64)
    ensures
        r == polymur_of(seed, data@),
{
    polymur_hash::PolymurHash::from_u64_seed(seed).hash(data)
}

/// Relies on umash::Params::derive (deterministic in its seed and key; the
/// key here is empty, which derive pads to 32 zero bytes) and
/// umash::Fingerprinter::digest (a function of the params, the seed 0, and
/// the bytes written).
#[verifier::external_body]
pub(crate) fn umash_fingerprint_digest(seed: u64, data: &[u8]) -> (r: (u64, u64))
    ensures
        r == umash_fingerprint_of(seed, data@),
{
    let params = umash::Params::derive(seed, &[]);
    let mut fp = params.fingerprinter(0);
    fp.write(data);
    let digest = fp.digest();
    (digest.hash(), digest.secondary())
}

/// Relies on umash::Params::derive (deterministic in its seed and key; the
/// key here is empty, which derive pads to 32 zero bytes) and
/// umash::Hasher::digest (a function of the params, the component, the seed
/// 0, and the bytes written).
#[verifier::external_body]
pub(crate) fn umash_component_digest(seed: u64, secondary: bool, data: &[u8]) -> (r: u64)
    ensures
        r == umash_component_of(seed, secondary, data@),
{
    let params = umash::Params::derive(seed, &[]);
    let which = if secondary {
        umash::UmashComponent::Secondary
    } else {
        umash::UmashComponent::Hash
    };
    let mut hasher = params.component_hasher(0, which);
    hasher.write(data);
    hasher.digest()
}

} // verus!

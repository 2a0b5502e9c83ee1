//! Configuration errors, and the map from a hasher name to a constructed
//! hasher variant.

use vstd::prelude::*;
use crate::hasher::{Component, Hasher};
use crate::strcmp::str_eq;

verus! {

/// A configuration fault, detected before any hashing occurs.
#[derive(Debug)]
pub enum ConfigError {
    /// The hasher name names no known variant; carries the offending name.
    UnknownHasher(String),
    /// The window size was zero, which would make every window empty.
    ZeroWindowSize,
    /// The buffer for this window size would not fit the machine.
    WindowTooLarge,
}

/// The hasher names this library recognizes.
pub open spec fn known_hasher_name(name: Seq<char>) -> bool {
    ||| name == "xor"@
    ||| name == "blake3"@
    ||| name == "polymur"@
    ||| name == "umash-fingerprint"@
    ||| name == "umash-primary"@
    ||| name == "umash-secondary"@
}

/// The hasher variant a recognized name maps to, for a given seed. Unseeded
/// variants ignore the seed.
pub open spec fn hasher_for_name(name: Seq<char>, seed: u64) -> Hasher
    recommends
        known_hasher_name(name),
{
    if name == "xor"@ {
        Hasher::Xor
    } else if name == "blake3"@ {
        Hasher::Blake3
    } else if name == "polymur"@ {
        Hasher::Polymur { seed }
    } else if name == "umash-fingerprint"@ {
        Hasher::UmashFingerprint { seed }
    } else if name == "umash-primary"@ {
        Hasher::UmashComponent { seed, component: Component::Primary }
    } else {
        Hasher::UmashComponent { seed, component: Component::Secondary }
    }
}

/// Maps a hasher name to a constructed hasher. Seeded variants take the
/// given seed; an unknown name is a configuration error that carries the
/// offending name.
pub fn make_hasher(name: &str, seed: u64) -> (r: Result<Hasher, ConfigError>)
    ensures
        r is Ok <==> known_hasher_name(name@),
        known_hasher_name(name@) ==> r == Ok::<Hasher, ConfigError>(hasher_for_name(name@, seed)),
        !known_hasher_name(name@) ==> (r matches Err(ConfigError::UnknownHasher(n)) && n@
            == name@),
{
    if str_eq(name, "xor") {
        Ok(Hasher::Xor)
    } else if str_eq(name, "blake3") {
        Ok(Hasher::Blake3)
    } else if str_eq(name, "polymur") {
        Ok(Hasher::Polymur { seed })
    } else if str_eq(name, "umash-fingerprint") {
        Ok(Hasher::UmashFingerprint { seed })
    } else if str_eq(name, "umash-primary") {
        Ok(Hasher::UmashComponent { seed, component: Component::Primary })
    } else if str_eq(name, "umash-secondary") {
        Ok(Hasher::UmashComponent { seed, component: Component::Secondary })
    } else {
        Err(ConfigError::UnknownHasher(name.to_owned()))
    }
}

} // verus!

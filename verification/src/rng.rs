//! The random-blob generator: a buffer of independently drawn random bytes.
//! Nothing is promised of the bytes themselves, only of the length.

use vstd::prelude::*;

verus! {

/// Relies on rand::random: a value drawn from the thread-local generator.
/// Nothing can be promised of a random value.
pub assume_specification<T>[ rand::random::<T> ]() -> (r: T)
    where
        rand::distr::StandardUniform: rand::distr::Distribution<T>,
;

/// A buffer of `len` bytes, each drawn independently and uniformly at
/// random.
pub fn generate_random_blob(len: usize) -> (blob: Vec<u8>)
    ensures
        blob@.len() == len,
{
    let mut blob: Vec<u8> = Vec::new();
    let mut i: usize = 0;
    while i < len
        invariant
            i <= len,
            blob@.len() == i,
        decreases len - i,
    {
        blob.push(rand::random::<u8>());
        i += 1;
    }
    blob
}

} // verus!

//! A microbenchmark harness for interchangeable hash functions.
//!
//! A [`hasher::Hasher`] maps a byte window to a fixed-width digest; the
//! [`runner::Runner`] feeds it windows drawn from a random buffer, either a
//! single static window or a sliding one that varies byte alignment.

pub mod digest;
pub mod dispatch;
pub mod hasher;
pub mod rng;
pub mod runner;
pub mod strcmp;
pub mod xorhash;

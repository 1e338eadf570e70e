//! Where `Cxnn` takes its random byte from.

use rand::Rng;
use vstd::prelude::*;

verus! {

/// A source of random bytes. Nothing is required of the bytes, so that a
/// source may as well replay a fixed sequence.
pub trait RandomSource {
    /// The next byte.
    fn next_byte(&mut self) -> u8;
}

/// A byte from the thread-local generator of the `rand` crate, as
/// `rand::thread_rng().gen()` returns it. Nothing is claimed of its value.
/// The generator is seeded by the operating system at its first use in a
/// thread, and panics there if the system gives it no seed.
#[verifier::external_body]
fn random_byte() -> (byte: u8) {
    rand::thread_rng().gen()
}

/// The thread-local generator of the `rand` crate as a source of random
/// bytes.
pub struct ThreadRandom;

impl RandomSource for ThreadRandom {
    fn next_byte(&mut self) -> (byte: u8) {
        random_byte()
    }
}

} // verus!

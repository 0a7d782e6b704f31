//! The two calls into the host environment that the CPU core makes in the
//! middle of a cycle: reading the wall clock for the 60 Hz timers, and drawing
//! a byte from the entropy source for the Cxkk instruction. Nothing is
//! promised of either value; every caller is verified for every outcome.

use vstd::prelude::*;

verus! {

/// Relies on std::time::SystemTime::now: the wall clock, converted to whole
/// milliseconds since the Unix epoch (0 if the clock sits before the epoch).
/// The value depends on the machine's clock, so nothing is promised of it.
#[verifier::external_body]
pub fn now_millis() -> u64 {
    match std::time::SystemTime::now().duration_since(std::time::UNIX_EPOCH) {
        Ok(d) => d.as_millis() as u64,
        Err(_) => 0,
    }
}

/// Relies on rand::random: a byte from the thread-local random number
/// generator. The value is random, so nothing is promised of it.
#[verifier::external_body]
pub fn random_byte() -> u8 {
    rand::random()
}

} // verus!

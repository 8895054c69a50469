use rand::Rng;
use vstd::prelude::*;

verus! {

/// Calls `rand::random::<bool>()`: a fair coin from the thread-local generator.
/// Nothing is promised of the outcome.
#[verifier::external_body]
pub fn random_bool() -> (b: bool) {
    rand::random::<bool>()
}

/// Calls `rand::thread_rng().gen::<[u8; 6]>()`: six random bytes.
/// Nothing is promised of the outcome.
#[verifier::external_body]
pub fn random_bytes6() -> (b: [u8; 6]) {
    rand::thread_rng().gen::<[u8; 6]>()
}

/// Calls `rand::thread_rng().gen::<[u8; 10]>()`: ten random bytes.
/// Nothing is promised of the outcome.
#[verifier::external_body]
pub fn random_bytes10() -> (b: [u8; 10]) {
    rand::thread_rng().gen::<[u8; 10]>()
}

} // verus!

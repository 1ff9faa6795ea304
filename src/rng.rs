use vstd::prelude::*;

verus! {

/// Relies on rand's `thread_rng` and `Rng::gen::<u8>`: a uniformly drawn byte.
/// Any byte may come back, so nothing is stated of it.
#[verifier::external_body]
pub(crate) fn random_byte() -> u8 {
    rand::Rng::gen::<u8>(&mut rand::thread_rng())
}

} // verus!

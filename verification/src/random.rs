use rand::Rng;
use vstd::prelude::*;

verus! {

/// Draws one byte from `rand::thread_rng()` with `Rng::gen`. The generator is
/// seeded by the system, so nothing is claimed of the byte: callers are
/// verified for every value of it. The call returns as long as the system
/// can seed the generator.
#[verifier::external_body]
pub(crate) fn random_byte() -> u8 {
    rand::thread_rng().gen::<u8>()
}

} // verus!

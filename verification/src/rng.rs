use rand::rngs::ThreadRng;
use rand::Rng;
use vstd::prelude::*;

verus! {

#[verifier::external_type_specification]
#[verifier::external_body]
pub struct ExThreadRng(ThreadRng);

/// `rand::thread_rng`: a handle to the calling thread's generator, which the
/// system seeds. Nothing is claimed of the handle. The call panics if the
/// system cannot seed the generator.
#[verifier::external_body]
pub(crate) fn thread_rng() -> ThreadRng {
    rand::thread_rng()
}

/// `rand::Rng::gen::<u8>`: the next byte of the generator. Nothing is claimed
/// of the byte: every value of `u8` may come back, and two calls may differ.
#[verifier::external_body]
pub(crate) fn random_byte(rng: &mut ThreadRng) -> u8 {
    rng.gen::<u8>()
}

} // verus!

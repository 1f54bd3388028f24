//! The random numbers that food placement draws.

use rand::rngs::StdRng;
use rand::Rng;
use vstd::prelude::*;

verus! {

/// `rand::rngs::StdRng`, the generator a session draws from. Nothing is
/// known of its state.
#[verifier::external_type_specification]
#[verifier::external_body]
pub struct ExStdRng(rand::rngs::StdRng);

/// Draws the next `u16` from the generator with `rand::Rng::random`.
/// Nothing is claimed of the number drawn: callers are verified for
/// every value it can take.
#[verifier::external_body]
pub(crate) fn draw_u16(rng: &mut StdRng) -> (value: u16) {
    rng.random::<u16>()
}

} // verus!

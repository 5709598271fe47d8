//! The pseudo-random source used to (re)seed the board.

use vstd::prelude::*;
use nanorand::Rng;

verus! {

#[verifier::external_type_specification]
#[verifier::external_body]
pub struct ExPcg64(nanorand::Pcg64);

/// Relies on nanorand's `Pcg64::generate::<bool>`: one pseudo-random boolean
/// draw, advancing the generator's internal state. Nothing is assumed about
/// which boolean comes back.
#[verifier::external_body]
pub(crate) fn rng_bool(rng: &mut nanorand::Pcg64) -> bool {
    rng.generate::<bool>()
}

} // verus!
